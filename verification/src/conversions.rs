//! Conversions from host component data to sink batches.
//!
//! Pure value-to-value conversions: a color packs into the sink's 32-bit
//! form, a transform becomes its four component batches, a mesh becomes a
//! mesh batch carrying exactly the attributes the source mesh had.

use vstd::prelude::*;

use crate::batch::{
    BatchModel, BatchPayload, MeshBatch, MeshBatchModel, PayloadModel, SerializedBatch,
    TriangleIndices, batches_view, name_axis_length, name_rotation, name_scale, name_translation,
    spec_name_axis_length, spec_name_rotation, spec_name_scale, spec_name_translation,
};
use crate::world::{MeshData, Rgba, TransformData};

verus! {

/// Conversion of one host value into its sink representation `U`.
pub trait ToRerun<U> {
    /// Whether `r` is the sink representation of `self`.
    spec fn rerun_spec(&self, r: &U) -> bool;

    /// Converts `self` into its sink representation.
    fn to_rerun(&self) -> (r: U)
        ensures
            self.rerun_spec(&r),
    ;
}

/// A color packed into one 32-bit value, `0xRRGGBBAA`.
pub open spec fn spec_rgba_u32(c: Rgba) -> int {
    c.r * 0x1000000 + c.g * 0x10000 + c.b * 0x100 + c.a
}

impl ToRerun<u32> for Rgba {
    open spec fn rerun_spec(&self, r: &u32) -> bool {
        *r == spec_rgba_u32(*self)
    }

    /// Packs the four channels as `0xRRGGBBAA`.
    fn to_rerun(&self) -> (r: u32) {
        (self.r as u32) * 0x1000000 + (self.g as u32) * 0x10000 + (self.b as u32) * 0x100 + (
        self.a as u32)
    }
}

/// The four batches of a spatial transform: translation, rotation, scale,
/// and a zero axis length (the axis gizmo is suppressed in the viewer).
pub open spec fn spec_transform_batches(t: TransformData) -> Seq<BatchModel> {
    seq![
        (BatchModel {
            name: spec_name_translation(),
            payload: PayloadModel::Translation(t.translation),
        }),
        (BatchModel { name: spec_name_rotation(), payload: PayloadModel::RotationQuat(t.rotation) }),
        (BatchModel { name: spec_name_scale(), payload: PayloadModel::Scale(t.scale) }),
        (BatchModel { name: spec_name_axis_length(), payload: PayloadModel::AxisLength(0) }),
    ]
}

impl ToRerun<Vec<SerializedBatch>> for TransformData {
    open spec fn rerun_spec(&self, r: &Vec<SerializedBatch>) -> bool {
        batches_view(r@) == spec_transform_batches(*self)
    }

    /// Emits the transform's four batches.
    fn to_rerun(&self) -> (r: Vec<SerializedBatch>) {
        let mut r: Vec<SerializedBatch> = Vec::new();
        r.push(
            SerializedBatch {
                name: name_translation().to_owned(),
                payload: BatchPayload::Translation(self.translation),
            },
        );
        r.push(
            SerializedBatch {
                name: name_rotation().to_owned(),
                payload: BatchPayload::RotationQuat(self.rotation),
            },
        );
        r.push(
            SerializedBatch {
                name: name_scale().to_owned(),
                payload: BatchPayload::Scale(self.scale),
            },
        );
        r.push(
            SerializedBatch {
                name: name_axis_length().to_owned(),
                payload: BatchPayload::AxisLength(0),
            },
        );
        proof {
            assert(batches_view(r@) =~= spec_transform_batches(*self));
        }
        r
    }
}

/// Flat vertex indices grouped into triangles; a trailing group of fewer
/// than three indices is dropped.
pub open spec fn spec_triangles(ix: Seq<u32>) -> Seq<TriangleIndices>
    decreases ix.len(),
{
    if ix.len() < 3 {
        Seq::empty()
    } else {
        seq![(TriangleIndices { v0: ix[0], v1: ix[1], v2: ix[2] })] + spec_triangles(ix.skip(3))
    }
}

/// Groups flat vertex indices into triangles.
pub fn triangles_from_indices(ix: &Vec<u32>) -> (r: Vec<TriangleIndices>)
    ensures
        r@ == spec_triangles(ix@),
{
    let mut r: Vec<TriangleIndices> = Vec::new();
    let mut i: usize = 0;
    proof {
        assert(ix@.skip(0) =~= ix@);
    }
    while ix.len() - i >= 3
        invariant
            i <= ix@.len(),
            spec_triangles(ix@) == r@ + spec_triangles(ix@.skip(i as int)),
        decreases ix@.len() - i,
    {
        let t = TriangleIndices { v0: ix[i], v1: ix[i + 1], v2: ix[i + 2] };
        let ghost before = r@;
        r.push(t);
        proof {
            assert(ix@.skip(i as int)[0] == ix@[i as int]);
            assert(ix@.skip(i as int)[1] == ix@[i + 1]);
            assert(ix@.skip(i as int)[2] == ix@[i + 2]);
            assert(ix@.skip(i as int).skip(3) =~= ix@.skip(i + 3));
            assert(r@ =~= before + seq![t]);
        }
        i = i + 3;
    }
    proof {
        assert(spec_triangles(ix@.skip(i as int)) =~= Seq::<TriangleIndices>::empty());
        assert(r@ =~= r@ + Seq::<TriangleIndices>::empty());
    }
    r
}

/// An owned copy of a vector of plain values.
pub fn copy_vec<T: Copy>(v: &Vec<T>) -> (r: Vec<T>)
    ensures
        r@ == v@,
{
    let mut r: Vec<T> = Vec::new();
    let mut i: usize = 0;
    while i < v.len()
        invariant
            i <= v@.len(),
            r@ == v@.take(i as int),
        decreases v@.len() - i,
    {
        r.push(v[i]);
        proof {
            assert(v@.take(i + 1) =~= v@.take(i as int).push(v@[i as int]));
        }
        i = i + 1;
    }
    proof {
        assert(v@.take(v@.len() as int) =~= v@);
    }
    r
}

/// The mesh batch a mesh converts to, carrying the given albedo tint: its
/// positions, and exactly the attributes present on the source — an absent
/// attribute stays absent, it does not become present-but-empty. A mesh
/// without positions converts to nothing.
pub open spec fn spec_mesh_batch(m: MeshData, albedo: Option<Rgba>) -> Option<MeshBatchModel> {
    match m.positions {
        None => None,
        Some(pos) => Some(
            MeshBatchModel {
                positions: pos@,
                triangle_indices: match m.indices {
                    Some(ix) => Some(spec_triangles(ix@)),
                    None => None,
                },
                normals: match m.normals {
                    Some(v) => Some(v@),
                    None => None,
                },
                uvs: match m.uvs {
                    Some(v) => Some(v@),
                    None => None,
                },
                colors: match m.colors {
                    Some(v) => Some(v@),
                    None => None,
                },
                albedo_factor: albedo,
            },
        ),
    }
}

/// Converts a mesh, attaching an albedo tint.
pub fn mesh_to_batch(m: &MeshData, albedo: Option<Rgba>) -> (r: Option<MeshBatch>)
    ensures
        match r {
            Some(b) => spec_mesh_batch(*m, albedo) == Some(b@),
            None => spec_mesh_batch(*m, albedo) is None,
        },
{
    match &m.positions {
        None => None,
        Some(pos) => {
            let triangle_indices = match &m.indices {
                Some(ix) => Some(triangles_from_indices(ix)),
                None => None,
            };
            let normals = match &m.normals {
                Some(v) => Some(copy_vec(v)),
                None => None,
            };
            let uvs = match &m.uvs {
                Some(v) => Some(copy_vec(v)),
                None => None,
            };
            let colors = match &m.colors {
                Some(v) => Some(copy_vec(v)),
                None => None,
            };
            Some(
                MeshBatch {
                    positions: copy_vec(pos),
                    triangle_indices,
                    normals,
                    uvs,
                    colors,
                    albedo_factor: albedo,
                },
            )
        },
    }
}

/// Mesh conversion keeps presence exactly: the converted batch exists if
/// and only if the source mesh has positions, and each optional attribute
/// is present on the batch if and only if it is present on the source — an
/// absent attribute never becomes present-but-empty.
pub proof fn lemma_mesh_attribute_presence(m: MeshData, albedo: Option<Rgba>)
    ensures
        spec_mesh_batch(m, albedo) is Some <==> m.positions is Some,
        m.positions is Some ==> {
            let b = spec_mesh_batch(m, albedo).unwrap();
            &&& (b.triangle_indices is Some <==> m.indices is Some)
            &&& (b.normals is Some <==> m.normals is Some)
            &&& (b.uvs is Some <==> m.uvs is Some)
            &&& (b.colors is Some <==> m.colors is Some)
            &&& b.albedo_factor == albedo
        },
{
}

impl ToRerun<Option<MeshBatch>> for MeshData {
    open spec fn rerun_spec(&self, r: &Option<MeshBatch>) -> bool {
        match r {
            Some(b) => spec_mesh_batch(*self, None) == Some(b@),
            None => spec_mesh_batch(*self, None) is None,
        }
    }

    /// Converts the mesh on its own, with no material tint.
    fn to_rerun(&self) -> (r: Option<MeshBatch>) {
        mesh_to_batch(self, None)
    }
}

} // verus!
