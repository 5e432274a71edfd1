//! Serialized batches: the named, typed blocks of values the library hands
//! to the sink.
//!
//! A batch pairs a component name with a typed payload. Batches are
//! produced by the loggers and never mutated afterwards; the sync driver
//! groups them under an entity path and an optional name suffix, the
//! two-part key that keeps distinct data from colliding in the sink's
//! namespace.
//!
//! Each executable type has a mathematical model (`…Model`) reached through
//! its view; contracts speak of the models.

use vstd::prelude::*;

use crate::Scalar;
use crate::world::{ProjectionData, Rgba};

verus! {

/// One triangle, as three indices into the vertex list.
#[derive(Clone, Copy, Debug, PartialEq, Eq, Structural)]
pub struct TriangleIndices {
    pub v0: u32,
    pub v1: u32,
    pub v2: u32,
}

/// A mesh ready for the sink: positions plus the attributes the source mesh
/// actually carried. An attribute absent on the source stays absent here.
#[derive(Clone, Debug)]
pub struct MeshBatch {
    pub positions: Vec<[Scalar; 3]>,
    pub triangle_indices: Option<Vec<TriangleIndices>>,
    pub normals: Option<Vec<[Scalar; 3]>>,
    pub uvs: Option<Vec<[Scalar; 2]>>,
    pub colors: Option<Vec<Rgba>>,
    /// A uniform tint from a material on the same entity, if one is present.
    pub albedo_factor: Option<Rgba>,
}

/// The mathematical value of a [`MeshBatch`].
#[verifier::ext_equal]
pub struct MeshBatchModel {
    pub positions: Seq<[Scalar; 3]>,
    pub triangle_indices: Option<Seq<TriangleIndices>>,
    pub normals: Option<Seq<[Scalar; 3]>>,
    pub uvs: Option<Seq<[Scalar; 2]>>,
    pub colors: Option<Seq<Rgba>>,
    pub albedo_factor: Option<Rgba>,
}

impl View for MeshBatch {
    type V = MeshBatchModel;

    open spec fn view(&self) -> MeshBatchModel {
        MeshBatchModel {
            positions: self.positions@,
            triangle_indices: match self.triangle_indices {
                Some(v) => Some(v@),
                None => None,
            },
            normals: match self.normals {
                Some(v) => Some(v@),
                None => None,
            },
            uvs: match self.uvs {
                Some(v) => Some(v@),
                None => None,
            },
            colors: match self.colors {
                Some(v) => Some(v@),
                None => None,
            },
            albedo_factor: self.albedo_factor,
        }
    }
}

/// The typed payload of one batch.
#[derive(Clone, Debug)]
pub enum BatchPayload {
    /// A translation vector.
    Translation([Scalar; 3]),
    /// A rotation quaternion, `x y z w`.
    RotationQuat([Scalar; 4]),
    /// A per-axis scale.
    Scale([Scalar; 3]),
    /// The length of the axis gizmo shown for a transform.
    AxisLength(Scalar),
    /// Axis-aligned boxes with optional per-box colors.
    Boxes { centers: Vec<[Scalar; 3]>, half_sizes: Vec<[Scalar; 3]>, colors: Vec<Rgba> },
    /// A structured text document.
    Text(String),
    /// A reference to another entity's path.
    EntityPathRef(String),
    /// References to several entities' paths, in order.
    EntityPathList(Vec<String>),
    /// A mesh.
    Mesh(MeshBatch),
    /// A camera projection for a pinhole view.
    Pinhole(ProjectionData),
    /// A flat quad of the given pixel size, to be expanded to vertices by
    /// the sink adapter, tinted with the given color.
    SpriteQuad { width: u32, height: u32, color: Rgba },
}

/// The mathematical value of a [`BatchPayload`].
#[verifier::ext_equal]
pub enum PayloadModel {
    Translation([Scalar; 3]),
    RotationQuat([Scalar; 4]),
    Scale([Scalar; 3]),
    AxisLength(Scalar),
    Boxes { centers: Seq<[Scalar; 3]>, half_sizes: Seq<[Scalar; 3]>, colors: Seq<Rgba> },
    Text(Seq<char>),
    EntityPathRef(Seq<char>),
    EntityPathList(Seq<Seq<char>>),
    Mesh(MeshBatchModel),
    Pinhole(ProjectionData),
    SpriteQuad { width: u32, height: u32, color: Rgba },
}

impl View for BatchPayload {
    type V = PayloadModel;

    open spec fn view(&self) -> PayloadModel {
        match self {
            BatchPayload::Translation(v) => PayloadModel::Translation(*v),
            BatchPayload::RotationQuat(v) => PayloadModel::RotationQuat(*v),
            BatchPayload::Scale(v) => PayloadModel::Scale(*v),
            BatchPayload::AxisLength(v) => PayloadModel::AxisLength(*v),
            BatchPayload::Boxes { centers, half_sizes, colors } => PayloadModel::Boxes {
                centers: centers@,
                half_sizes: half_sizes@,
                colors: colors@,
            },
            BatchPayload::Text(s) => PayloadModel::Text(s@),
            BatchPayload::EntityPathRef(s) => PayloadModel::EntityPathRef(s@),
            BatchPayload::EntityPathList(v) => PayloadModel::EntityPathList(v.deep_view()),
            BatchPayload::Mesh(m) => PayloadModel::Mesh(m@),
            BatchPayload::Pinhole(p) => PayloadModel::Pinhole(*p),
            BatchPayload::SpriteQuad { width, height, color } => PayloadModel::SpriteQuad {
                width: *width,
                height: *height,
                color: *color,
            },
        }
    }
}

/// One named, typed block of values destined for the sink.
#[derive(Clone, Debug)]
pub struct SerializedBatch {
    /// The component name the sink stores the payload under. Distinct
    /// sources use distinct names (a world-space transform appends
    /// `Global`; an unmodelled type is tagged with its own type name).
    pub name: String,
    pub payload: BatchPayload,
}

/// The mathematical value of a [`SerializedBatch`].
#[verifier::ext_equal]
pub struct BatchModel {
    pub name: Seq<char>,
    pub payload: PayloadModel,
}

impl View for SerializedBatch {
    type V = BatchModel;

    open spec fn view(&self) -> BatchModel {
        BatchModel { name: self.name@, payload: self.payload@ }
    }
}

/// The models of a list of batches.
pub open spec fn batches_view(s: Seq<SerializedBatch>) -> Seq<BatchModel> {
    s.map_values(|b: SerializedBatch| b@)
}

pub open spec fn spec_name_translation() -> Seq<char> {
    "Translation3D"@
}

pub open spec fn spec_name_rotation() -> Seq<char> {
    "RotationQuat"@
}

pub open spec fn spec_name_scale() -> Seq<char> {
    "Scale3D"@
}

pub open spec fn spec_name_axis_length() -> Seq<char> {
    "AxisLength"@
}

pub open spec fn spec_name_boxes() -> Seq<char> {
    "Boxes3D"@
}

pub open spec fn spec_name_mesh() -> Seq<char> {
    "Mesh3D"@
}

pub open spec fn spec_name_pinhole() -> Seq<char> {
    "Pinhole"@
}

pub open spec fn spec_name_child_of() -> Seq<char> {
    "ChildOf"@
}

pub open spec fn spec_name_children() -> Seq<char> {
    "Children"@
}

pub fn name_translation() -> (r: &'static str)
    ensures
        r@ == spec_name_translation(),
{
    "Translation3D"
}

pub fn name_rotation() -> (r: &'static str)
    ensures
        r@ == spec_name_rotation(),
{
    "RotationQuat"
}

pub fn name_scale() -> (r: &'static str)
    ensures
        r@ == spec_name_scale(),
{
    "Scale3D"
}

pub fn name_axis_length() -> (r: &'static str)
    ensures
        r@ == spec_name_axis_length(),
{
    "AxisLength"
}

pub fn name_boxes() -> (r: &'static str)
    ensures
        r@ == spec_name_boxes(),
{
    "Boxes3D"
}

pub fn name_mesh() -> (r: &'static str)
    ensures
        r@ == spec_name_mesh(),
{
    "Mesh3D"
}

pub fn name_pinhole() -> (r: &'static str)
    ensures
        r@ == spec_name_pinhole(),
{
    "Pinhole"
}

pub fn name_child_of() -> (r: &'static str)
    ensures
        r@ == spec_name_child_of(),
{
    "ChildOf"
}

pub fn name_children() -> (r: &'static str)
    ensures
        r@ == spec_name_children(),
{
    "Children"
}

} // verus!
