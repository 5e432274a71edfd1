//! A read-only snapshot of the host world, reduced to the plain values the
//! library reads.
//!
//! The host engine owns the entities; once per tick the embedding application
//! hands the library one [`WorldSnapshot`] with, for every live entity, the
//! component data the loggers consume. Scalars that the host stores as IEEE
//! 754 singles are carried as raw bit patterns ([`crate::Scalar`]): the
//! library routes them and never computes with them.

use vstd::prelude::*;

use crate::Scalar;

verus! {

/// An RGBA color with 8-bit channels, unmultiplied.
#[derive(Clone, Copy, Debug, PartialEq, Eq, Structural)]
pub struct Rgba {
    pub r: u8,
    pub g: u8,
    pub b: u8,
    pub a: u8,
}

/// Translation, rotation (a quaternion, `x y z w`) and per-axis scale of one
/// entity, each scalar a raw bit pattern.
#[derive(Clone, Copy, Debug, PartialEq, Eq)]
pub struct TransformData {
    pub translation: [Scalar; 3],
    pub rotation: [Scalar; 4],
    pub scale: [Scalar; 3],
}

/// An axis-aligned bounding box: center and half-extents.
#[derive(Clone, Copy, Debug, PartialEq, Eq)]
pub struct AabbData {
    pub center: [Scalar; 3],
    pub half_extents: [Scalar; 3],
}

/// Mesh attributes as the host mesh carries them. Every attribute except the
/// positions is optional; an absent attribute stays absent in the converted
/// batch.
#[derive(Clone, Debug)]
pub struct MeshData {
    pub positions: Option<Vec<[Scalar; 3]>>,
    /// Flat vertex indices; consecutive groups of three form one triangle.
    pub indices: Option<Vec<u32>>,
    pub normals: Option<Vec<[Scalar; 3]>>,
    pub uvs: Option<Vec<[Scalar; 2]>>,
    pub colors: Option<Vec<Rgba>>,
}

/// A camera projection, reduced to its parameters (bit patterns).
#[derive(Clone, Copy, Debug, PartialEq, Eq)]
pub enum ProjectionData {
    Perspective { fov: Scalar, aspect_ratio: Scalar, near: Scalar, far: Scalar },
    Orthographic { width: Scalar, height: Scalar, near: Scalar, far: Scalar },
}

/// A sprite: the pixel size of its source image, if the host could resolve
/// the image, and its tint color.
#[derive(Clone, Copy, Debug, PartialEq, Eq)]
pub struct SpriteData {
    /// `(width, height)` of the source image in pixels; `None` when the
    /// image handle does not resolve.
    pub image_size: Option<(u32, u32)>,
    pub color: Rgba,
}

/// A component instance of a type the library has no dedicated model for.
/// The host may attach a structured text rendering of its field values
/// (obtained through runtime reflection); `None` means no reflection
/// metadata was available.
#[derive(Clone, Debug)]
pub struct DynComponent {
    /// The fully-qualified type name (its path), `::`-separated.
    pub type_path: String,
    pub reflected: Option<String>,
}

/// One live entity and the component data attached to it.
#[derive(Clone, Debug)]
pub struct EntityData {
    /// The host's raw identifier for this entity.
    pub id: u64,
    /// The parent link, if the entity has one.
    pub parent: Option<u64>,
    /// The naming component's value, if present.
    pub name: Option<String>,
    /// The explicit-path-override component's value, if present. It is
    /// authoritative for this entity's path and is never logged itself.
    pub path_override: Option<String>,
    pub transform: Option<TransformData>,
    pub global_transform: Option<TransformData>,
    pub aabb: Option<AabbData>,
    /// The children list, in the host's child order.
    pub children: Option<Vec<u64>>,
    pub mesh2d: Option<MeshData>,
    pub mesh3d: Option<MeshData>,
    pub projection: Option<ProjectionData>,
    pub sprite: Option<SpriteData>,
    /// The resolved color of a 2D material on this entity, if any.
    pub material2d_color: Option<Rgba>,
    /// The resolved base color of a 3D material on this entity, if any.
    pub material3d_color: Option<Rgba>,
    /// Components with no dedicated model, in the host's order.
    pub others: Vec<DynComponent>,
}

impl EntityData {
    /// An entity with the given identifier and nothing attached.
    pub fn new(id: u64) -> (e: EntityData)
        ensures
            e.id == id,
            e.parent is None,
            e.name is None,
            e.path_override is None,
            e.transform is None,
            e.global_transform is None,
            e.aabb is None,
            e.children is None,
            e.mesh2d is None,
            e.mesh3d is None,
            e.projection is None,
            e.sprite is None,
            e.material2d_color is None,
            e.material3d_color is None,
            e.others@ == Seq::<DynComponent>::empty(),
    {
        EntityData {
            id,
            parent: None,
            name: None,
            path_override: None,
            transform: None,
            global_transform: None,
            aabb: None,
            children: None,
            mesh2d: None,
            mesh3d: None,
            projection: None,
            sprite: None,
            material2d_color: None,
            material3d_color: None,
            others: Vec::new(),
        }
    }
}

/// All live entities of one tick.
#[derive(Clone, Debug)]
pub struct WorldSnapshot {
    pub entities: Vec<EntityData>,
}

/// The entity a raw identifier denotes in `entities`; when the host hands in
/// the same identifier twice, the later record wins.
pub open spec fn spec_lookup(entities: Seq<EntityData>, id: u64) -> Option<EntityData>
    decreases entities.len(),
{
    if entities.len() == 0 {
        None
    } else if entities.last().id == id {
        Some(entities.last())
    } else {
        spec_lookup(entities.drop_last(), id)
    }
}

impl WorldSnapshot {
    /// Finds the entity with the given raw identifier.
    pub fn lookup(&self, id: u64) -> (r: Option<&EntityData>)
        ensures
            match r {
                Some(e) => spec_lookup(self.entities@, id) == Some(*e),
                None => spec_lookup(self.entities@, id) is None,
            },
    {
        let mut i: usize = self.entities.len();
        proof {
            assert(self.entities@.take(i as int) =~= self.entities@);
        }
        while i > 0
            invariant
                i <= self.entities.len(),
                spec_lookup(self.entities@, id) == spec_lookup(self.entities@.take(i as int), id),
            decreases i,
        {
            proof {
                assert(self.entities@.take(i as int).drop_last() =~= self.entities@.take(
                    i - 1 as int,
                ));
            }
            i = i - 1;
            if self.entities[i].id == id {
                return Some(&self.entities[i]);
            }
        }
        None
    }
}

} // verus!
