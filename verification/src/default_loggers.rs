//! The built-in per-type loggers and the default logger table.
//!
//! One logger per well-known component type: spatial transform, world-space
//! transform, bounding box, parent link, children list, meshes, camera
//! projection and sprite. Each tolerates the component being absent on the
//! entity — absence yields no batches, never an error — and each returns an
//! optional name suffix that keeps its batches from colliding with another
//! logger's under the same entity path.

use vstd::prelude::*;

use crate::batch::{
    BatchModel, BatchPayload, PayloadModel, SerializedBatch, batches_view, name_boxes,
    name_child_of, name_children, name_mesh, name_pinhole, name_rotation, name_scale,
    name_translation, spec_name_boxes, spec_name_child_of, spec_name_children, spec_name_mesh,
    spec_name_pinhole, spec_name_rotation, spec_name_scale, spec_name_translation,
};
use crate::conversions::{ToRerun, mesh_to_batch, spec_mesh_batch, spec_transform_batches};
use crate::entity_path::{compute_entity_path, spec_path_string};
use crate::rerun_logger::{RerunComponentLoggers, RerunLogger};
use crate::world::{EntityData, Rgba, WorldSnapshot};

verus! {

pub open spec fn spec_transform_type_path() -> Seq<char> {
    "bevy_transform::components::transform::Transform"@
}

pub open spec fn spec_global_transform_type_path() -> Seq<char> {
    "bevy_transform::components::global_transform::GlobalTransform"@
}

pub open spec fn spec_aabb_type_path() -> Seq<char> {
    "bevy_render::primitives::Aabb"@
}

pub open spec fn spec_child_of_type_path() -> Seq<char> {
    "bevy_ecs::hierarchy::ChildOf"@
}

pub open spec fn spec_children_type_path() -> Seq<char> {
    "bevy_ecs::hierarchy::Children"@
}

pub open spec fn spec_mesh2d_type_path() -> Seq<char> {
    "bevy_render::mesh::components::Mesh2d"@
}

pub open spec fn spec_mesh3d_type_path() -> Seq<char> {
    "bevy_render::mesh::components::Mesh3d"@
}

pub open spec fn spec_projection_type_path() -> Seq<char> {
    "bevy_render::camera::projection::Projection"@
}

pub open spec fn spec_sprite_type_path() -> Seq<char> {
    "bevy_sprite::sprite::Sprite"@
}

pub open spec fn spec_entity_path_type_path() -> Seq<char> {
    "revy::entity_path::RerunEntityPath"@
}

pub fn transform_type_path() -> (r: &'static str)
    ensures
        r@ == spec_transform_type_path(),
{
    "bevy_transform::components::transform::Transform"
}

pub fn global_transform_type_path() -> (r: &'static str)
    ensures
        r@ == spec_global_transform_type_path(),
{
    "bevy_transform::components::global_transform::GlobalTransform"
}

pub fn aabb_type_path() -> (r: &'static str)
    ensures
        r@ == spec_aabb_type_path(),
{
    "bevy_render::primitives::Aabb"
}

pub fn child_of_type_path() -> (r: &'static str)
    ensures
        r@ == spec_child_of_type_path(),
{
    "bevy_ecs::hierarchy::ChildOf"
}

pub fn children_type_path() -> (r: &'static str)
    ensures
        r@ == spec_children_type_path(),
{
    "bevy_ecs::hierarchy::Children"
}

pub fn mesh2d_type_path() -> (r: &'static str)
    ensures
        r@ == spec_mesh2d_type_path(),
{
    "bevy_render::mesh::components::Mesh2d"
}

pub fn mesh3d_type_path() -> (r: &'static str)
    ensures
        r@ == spec_mesh3d_type_path(),
{
    "bevy_render::mesh::components::Mesh3d"
}

pub fn projection_type_path() -> (r: &'static str)
    ensures
        r@ == spec_projection_type_path(),
{
    "bevy_render::camera::projection::Projection"
}

pub fn sprite_type_path() -> (r: &'static str)
    ensures
        r@ == spec_sprite_type_path(),
{
    "bevy_sprite::sprite::Sprite"
}

pub fn entity_path_type_path() -> (r: &'static str)
    ensures
        r@ == spec_entity_path_type_path(),
{
    "revy::entity_path::RerunEntityPath"
}

/// The default logger table, pre-populated with the built-in per-type
/// loggers, and with the path-override marker mapped to `None` so that it
/// is never logged itself.
pub open spec fn spec_default_loggers() -> Map<Seq<char>, Option<RerunLogger>> {
    Map::<Seq<char>, Option<RerunLogger>>::empty().insert(
        spec_transform_type_path(),
        Some(RerunLogger::Transform),
    ).insert(spec_global_transform_type_path(), Some(RerunLogger::GlobalTransform)).insert(
        spec_aabb_type_path(),
        Some(RerunLogger::Aabb),
    ).insert(spec_child_of_type_path(), Some(RerunLogger::ChildOf)).insert(
        spec_children_type_path(),
        Some(RerunLogger::Children),
    ).insert(spec_mesh2d_type_path(), Some(RerunLogger::Mesh2d)).insert(
        spec_mesh3d_type_path(),
        Some(RerunLogger::Mesh3d),
    ).insert(spec_projection_type_path(), Some(RerunLogger::Camera)).insert(
        spec_sprite_type_path(),
        Some(RerunLogger::Sprite),
    ).insert(spec_entity_path_type_path(), None)
}

/// The default per-type loggers, used when the session table has no entry
/// for a component type name.
///
/// Public so the embedding application can inspect what is configured by
/// default.
#[derive(Clone, Debug)]
pub struct DefaultRerunComponentLoggers(pub RerunComponentLoggers);

impl View for DefaultRerunComponentLoggers {
    type V = Map<Seq<char>, Option<RerunLogger>>;

    open spec fn view(&self) -> Map<Seq<char>, Option<RerunLogger>> {
        self.0@
    }
}

impl Default for DefaultRerunComponentLoggers {
    /// The table of built-in loggers.
    fn default() -> (r: Self)
        ensures
            r@ == spec_default_loggers(),
    {
        let mut t = RerunComponentLoggers::new_empty();
        t.insert(transform_type_path().to_owned(), Some(RerunLogger::Transform));
        t.insert(global_transform_type_path().to_owned(), Some(RerunLogger::GlobalTransform));
        t.insert(aabb_type_path().to_owned(), Some(RerunLogger::Aabb));
        t.insert(child_of_type_path().to_owned(), Some(RerunLogger::ChildOf));
        t.insert(children_type_path().to_owned(), Some(RerunLogger::Children));
        t.insert(mesh2d_type_path().to_owned(), Some(RerunLogger::Mesh2d));
        t.insert(mesh3d_type_path().to_owned(), Some(RerunLogger::Mesh3d));
        t.insert(projection_type_path().to_owned(), Some(RerunLogger::Camera));
        t.insert(sprite_type_path().to_owned(), Some(RerunLogger::Sprite));
        t.insert(entity_path_type_path().to_owned(), None);
        DefaultRerunComponentLoggers(t)
    }
}

/// The suffix of bounding-box batches.
pub open spec fn spec_suffix_aabb() -> Seq<char> {
    "aabb"@
}

/// The suffix of camera batches.
pub open spec fn spec_suffix_cam() -> Seq<char> {
    "cam"@
}

/// The suffix of sprite batches.
pub open spec fn spec_suffix_sprite() -> Seq<char> {
    "sprite"@
}

/// The suffix of 2D mesh batches.
pub open spec fn spec_suffix_mesh2d() -> Seq<char> {
    "mesh2d"@
}

/// The suffix of 3D mesh batches.
pub open spec fn spec_suffix_mesh3d() -> Seq<char> {
    "mesh3d"@
}

/// The batches of the spatial-transform logger.
pub open spec fn spec_transform_logger_batches(e: EntityData) -> Seq<BatchModel> {
    match e.transform {
        Some(t) => spec_transform_batches(t),
        None => Seq::empty(),
    }
}

/// Logs the entity's local-space transform, if it has one.
pub fn bevy_transform(world: &WorldSnapshot, entity: &EntityData) -> (r: (
    Option<&'static str>,
    Vec<SerializedBatch>,
))
    ensures
        r.0 is None,
        batches_view(r.1@) == spec_transform_logger_batches(*entity),
{
    match &entity.transform {
        Some(t) => {
            let batches = t.to_rerun();
            (None, batches)
        },
        None => {
            let batches: Vec<SerializedBatch> = Vec::new();
            proof {
                assert(batches_view(batches@) =~= Seq::<BatchModel>::empty());
            }
            (None, batches)
        },
    }
}

/// The batches of the world-space-transform logger: the transform's four
/// batches, each name carrying `Global` appended so they do not collide
/// with the local-space transform's batches under the same entity path.
pub open spec fn spec_global_transform_logger_batches(e: EntityData) -> Seq<BatchModel> {
    match e.global_transform {
        Some(t) => seq![
            (BatchModel {
                name: spec_name_translation() + "Global"@,
                payload: PayloadModel::Translation(t.translation),
            }),
            (BatchModel {
                name: spec_name_rotation() + "Global"@,
                payload: PayloadModel::RotationQuat(t.rotation),
            }),
            (BatchModel {
                name: spec_name_scale() + "Global"@,
                payload: PayloadModel::Scale(t.scale),
            }),
            (BatchModel {
                name: crate::batch::spec_name_axis_length() + "Global"@,
                payload: PayloadModel::AxisLength(0),
            }),
        ],
        None => Seq::empty(),
    }
}

/// Logs the entity's world-space transform, if it has one, under batch
/// names carrying a `Global` suffix.
pub fn bevy_global_transform(world: &WorldSnapshot, entity: &EntityData) -> (r: (
    Option<&'static str>,
    Vec<SerializedBatch>,
))
    ensures
        r.0 is None,
        batches_view(r.1@) == spec_global_transform_logger_batches(*entity),
{
    match &entity.global_transform {
        Some(t) => {
            let mut batches: Vec<SerializedBatch> = Vec::new();
            batches.push(
                SerializedBatch {
                    name: name_translation().to_owned().concat("Global"),
                    payload: BatchPayload::Translation(t.translation),
                },
            );
            batches.push(
                SerializedBatch {
                    name: name_rotation().to_owned().concat("Global"),
                    payload: BatchPayload::RotationQuat(t.rotation),
                },
            );
            batches.push(
                SerializedBatch {
                    name: name_scale().to_owned().concat("Global"),
                    payload: BatchPayload::Scale(t.scale),
                },
            );
            batches.push(
                SerializedBatch {
                    name: crate::batch::name_axis_length().to_owned().concat("Global"),
                    payload: BatchPayload::AxisLength(0),
                },
            );
            proof {
                assert(batches_view(batches@) =~= spec_global_transform_logger_batches(*entity));
            }
            (None, batches)
        },
        None => {
            let batches: Vec<SerializedBatch> = Vec::new();
            proof {
                assert(batches_view(batches@) =~= Seq::<BatchModel>::empty());
            }
            (None, batches)
        },
    }
}

/// The box color of a bounding volume: the 2D material's color when one is
/// present, else the 3D material's, else the sprite's tint, else no color.
pub open spec fn spec_aabb_colors(e: EntityData) -> Seq<Rgba> {
    if e.material2d_color is Some {
        seq![e.material2d_color.unwrap()]
    } else if e.material3d_color is Some {
        seq![e.material3d_color.unwrap()]
    } else if e.sprite is Some {
        seq![e.sprite.unwrap().color]
    } else {
        Seq::empty()
    }
}

/// Appending `Global` to a batch name always yields a fresh name: the
/// world-space transform's batches can never collide with the local-space
/// transform's under the same entity path.
pub proof fn lemma_global_suffix_changes_name(name: Seq<char>)
    ensures
        name + "Global"@ != name,
{
    reveal_strlit("Global");
    assert((name + "Global"@).len() == name.len() + 6);
}

/// The batches of the bounding-box logger: one box per volume, centered and
/// half-sized as the volume says, colored per [`spec_aabb_colors`].
pub open spec fn spec_aabb_logger_batches(e: EntityData) -> Seq<BatchModel> {
    match e.aabb {
        Some(a) => seq![
            (BatchModel {
                name: spec_name_boxes(),
                payload: PayloadModel::Boxes {
                    centers: seq![a.center],
                    half_sizes: seq![a.half_extents],
                    colors: spec_aabb_colors(e),
                },
            }),
        ],
        None => Seq::empty(),
    }
}

/// Logs the entity's axis-aligned bounding box, if it has one, colored by
/// whichever material or sprite is present on the same entity.
pub fn bevy_aabb(world: &WorldSnapshot, entity: &EntityData) -> (r: (
    Option<&'static str>,
    Vec<SerializedBatch>,
))
    ensures
        r.0 matches Some(s) && s@ == spec_suffix_aabb(),
        batches_view(r.1@) == spec_aabb_logger_batches(*entity),
{
    let suffix = Some("aabb");
    match &entity.aabb {
        Some(a) => {
            let mut colors: Vec<Rgba> = Vec::new();
            if let Some(c) = &entity.material2d_color {
                colors.push(*c);
            } else if let Some(c) = &entity.material3d_color {
                colors.push(*c);
            } else if let Some(s) = &entity.sprite {
                colors.push(s.color);
            }
            proof {
                assert(colors@ =~= spec_aabb_colors(*entity));
            }
            let centers = vec![a.center];
            let half_sizes = vec![a.half_extents];
            let batch = SerializedBatch {
                name: name_boxes().to_owned(),
                payload: BatchPayload::Boxes { centers, half_sizes, colors },
            };
            let batches = vec![batch];
            proof {
                assert(batches_view(batches@) =~~= spec_aabb_logger_batches(*entity));
            }
            (suffix, batches)
        },
        None => {
            let batches: Vec<SerializedBatch> = Vec::new();
            proof {
                assert(batches_view(batches@) =~= Seq::<BatchModel>::empty());
            }
            (suffix, batches)
        },
    }
}

/// The batches of the parent-link logger: the parent's resolved path as a
/// single path reference.
pub open spec fn spec_child_of_logger_batches(w: Seq<EntityData>, e: EntityData) -> Seq<
    BatchModel,
> {
    match e.parent {
        Some(p) => seq![
            (BatchModel {
                name: spec_name_child_of(),
                payload: PayloadModel::EntityPathRef(spec_path_string(w, p)),
            }),
        ],
        None => Seq::empty(),
    }
}

/// Logs the entity's upward link as the parent's resolved path.
pub fn bevy_child_of(world: &WorldSnapshot, entity: &EntityData) -> (r: (
    Option<&'static str>,
    Vec<SerializedBatch>,
))
    ensures
        r.0 is None,
        batches_view(r.1@) == spec_child_of_logger_batches(world.entities@, *entity),
{
    match &entity.parent {
        Some(p) => {
            let path = compute_entity_path(world, *p);
            let batch = SerializedBatch {
                name: name_child_of().to_owned(),
                payload: BatchPayload::EntityPathRef(path),
            };
            let batches = vec![batch];
            proof {
                assert(batches_view(batches@) =~= spec_child_of_logger_batches(
                    world.entities@,
                    *entity,
                ));
            }
            (None, batches)
        },
        None => {
            let batches: Vec<SerializedBatch> = Vec::new();
            proof {
                assert(batches_view(batches@) =~= Seq::<BatchModel>::empty());
            }
            (None, batches)
        },
    }
}

/// The children's resolved paths, in the host's child order.
pub open spec fn spec_child_paths(w: Seq<EntityData>, ids: Seq<u64>) -> Seq<Seq<char>> {
    ids.map_values(|id: u64| spec_path_string(w, id))
}

/// The batches of the children-list logger: one batch holding every child's
/// resolved path, in order.
pub open spec fn spec_children_logger_batches(w: Seq<EntityData>, e: EntityData) -> Seq<
    BatchModel,
> {
    match e.children {
        Some(ids) => seq![
            (BatchModel {
                name: spec_name_children(),
                payload: PayloadModel::EntityPathList(spec_child_paths(w, ids@)),
            }),
        ],
        None => Seq::empty(),
    }
}

/// Logs the entity's children as their resolved paths, in the host's order.
pub fn bevy_children(world: &WorldSnapshot, entity: &EntityData) -> (r: (
    Option<&'static str>,
    Vec<SerializedBatch>,
))
    ensures
        r.0 is None,
        batches_view(r.1@) == spec_children_logger_batches(world.entities@, *entity),
{
    match &entity.children {
        Some(ids) => {
            let mut paths: Vec<String> = Vec::new();
            let mut i: usize = 0;
            while i < ids.len()
                invariant
                    i <= ids@.len(),
                    paths.deep_view() =~= spec_child_paths(
                        world.entities@,
                        ids@.take(i as int),
                    ),
                decreases ids@.len() - i,
            {
                let ghost before = paths.deep_view();
                let p = compute_entity_path(world, ids[i]);
                paths.push(p);
                proof {
                    assert(paths.deep_view() =~= before.push(spec_path_string(
                        world.entities@,
                        ids@[i as int],
                    )));
                    assert(ids@.take(i + 1) =~= ids@.take(i as int).push(ids@[i as int]));
                    assert(spec_child_paths(world.entities@, ids@.take(i + 1)) =~= before.push(
                        spec_path_string(world.entities@, ids@[i as int]),
                    ));
                }
                i = i + 1;
            }
            proof {
                assert(ids@.take(ids@.len() as int) =~= ids@);
            }
            let batch = SerializedBatch {
                name: name_children().to_owned(),
                payload: BatchPayload::EntityPathList(paths),
            };
            let batches = vec![batch];
            proof {
                assert(batches_view(batches@) =~~= spec_children_logger_batches(
                    world.entities@,
                    *entity,
                ));
            }
            (None, batches)
        },
        None => {
            let batches: Vec<SerializedBatch> = Vec::new();
            proof {
                assert(batches_view(batches@) =~= Seq::<BatchModel>::empty());
            }
            (None, batches)
        },
    }
}

/// The batches of the 3D mesh logger: the converted mesh, tinted with the
/// 3D material's color when one is present; a mesh without positions, or no
/// mesh at all, yields nothing.
pub open spec fn spec_mesh3d_logger_batches(e: EntityData) -> Seq<BatchModel> {
    match e.mesh3d {
        Some(m) => match spec_mesh_batch(m, e.material3d_color) {
            Some(bm) => seq![
                (BatchModel { name: spec_name_mesh(), payload: PayloadModel::Mesh(bm) }),
            ],
            None => Seq::empty(),
        },
        None => Seq::empty(),
    }
}

/// Logs the entity's 3D mesh, if it has one with positions.
pub fn bevy_mesh3d(world: &WorldSnapshot, entity: &EntityData) -> (r: (
    Option<&'static str>,
    Vec<SerializedBatch>,
))
    ensures
        r.0 matches Some(s) && s@ == spec_suffix_mesh3d(),
        batches_view(r.1@) == spec_mesh3d_logger_batches(*entity),
{
    let suffix = Some("mesh3d");
    match &entity.mesh3d {
        Some(m) => {
            match mesh_to_batch(m, entity.material3d_color) {
                Some(b) => {
                    let batch = SerializedBatch {
                        name: name_mesh().to_owned(),
                        payload: BatchPayload::Mesh(b),
                    };
                    let batches = vec![batch];
                    proof {
                        assert(batches_view(batches@) =~~= spec_mesh3d_logger_batches(*entity));
                    }
                    (suffix, batches)
                },
                None => {
                    let batches: Vec<SerializedBatch> = Vec::new();
                    proof {
                        assert(batches_view(batches@) =~= Seq::<BatchModel>::empty());
                    }
                    (suffix, batches)
                },
            }
        },
        None => {
            let batches: Vec<SerializedBatch> = Vec::new();
            proof {
                assert(batches_view(batches@) =~= Seq::<BatchModel>::empty());
            }
            (suffix, batches)
        },
    }
}

/// The batches of the 2D mesh logger, tinted with the 2D material's color.
pub open spec fn spec_mesh2d_logger_batches(e: EntityData) -> Seq<BatchModel> {
    match e.mesh2d {
        Some(m) => match spec_mesh_batch(m, e.material2d_color) {
            Some(bm) => seq![
                (BatchModel { name: spec_name_mesh(), payload: PayloadModel::Mesh(bm) }),
            ],
            None => Seq::empty(),
        },
        None => Seq::empty(),
    }
}

/// Logs the entity's 2D mesh, if it has one with positions.
pub fn bevy_mesh2d(world: &WorldSnapshot, entity: &EntityData) -> (r: (
    Option<&'static str>,
    Vec<SerializedBatch>,
))
    ensures
        r.0 matches Some(s) && s@ == spec_suffix_mesh2d(),
        batches_view(r.1@) == spec_mesh2d_logger_batches(*entity),
{
    let suffix = Some("mesh2d");
    match &entity.mesh2d {
        Some(m) => {
            match mesh_to_batch(m, entity.material2d_color) {
                Some(b) => {
                    let batch = SerializedBatch {
                        name: name_mesh().to_owned(),
                        payload: BatchPayload::Mesh(b),
                    };
                    let batches = vec![batch];
                    proof {
                        assert(batches_view(batches@) =~~= spec_mesh2d_logger_batches(*entity));
                    }
                    (suffix, batches)
                },
                None => {
                    let batches: Vec<SerializedBatch> = Vec::new();
                    proof {
                        assert(batches_view(batches@) =~= Seq::<BatchModel>::empty());
                    }
                    (suffix, batches)
                },
            }
        },
        None => {
            let batches: Vec<SerializedBatch> = Vec::new();
            proof {
                assert(batches_view(batches@) =~= Seq::<BatchModel>::empty());
            }
            (suffix, batches)
        },
    }
}

/// The batches of the camera logger: the projection as one pinhole batch.
pub open spec fn spec_camera_logger_batches(e: EntityData) -> Seq<BatchModel> {
    match e.projection {
        Some(p) => seq![
            (BatchModel { name: spec_name_pinhole(), payload: PayloadModel::Pinhole(p) }),
        ],
        None => Seq::empty(),
    }
}

/// Logs the entity's camera projection, if it has one, as a pinhole view.
pub fn bevy_camera(world: &WorldSnapshot, entity: &EntityData) -> (r: (
    Option<&'static str>,
    Vec<SerializedBatch>,
))
    ensures
        r.0 matches Some(s) && s@ == spec_suffix_cam(),
        batches_view(r.1@) == spec_camera_logger_batches(*entity),
{
    let suffix = Some("cam");
    match &entity.projection {
        Some(p) => {
            let batch = SerializedBatch {
                name: name_pinhole().to_owned(),
                payload: BatchPayload::Pinhole(*p),
            };
            let batches = vec![batch];
            proof {
                assert(batches_view(batches@) =~= spec_camera_logger_batches(*entity));
            }
            (suffix, batches)
        },
        None => {
            let batches: Vec<SerializedBatch> = Vec::new();
            proof {
                assert(batches_view(batches@) =~= Seq::<BatchModel>::empty());
            }
            (suffix, batches)
        },
    }
}

/// The batches of the sprite logger: a flat quad sized to the sprite's
/// source image, tinted with the sprite's color, emitted as a mesh batch.
/// When the image cannot be resolved nothing is emitted — not an error.
pub open spec fn spec_sprite_logger_batches(e: EntityData) -> Seq<BatchModel> {
    match e.sprite {
        Some(s) => match s.image_size {
            Some(size) => seq![
                (BatchModel {
                    name: spec_name_mesh(),
                    payload: PayloadModel::SpriteQuad {
                        width: size.0,
                        height: size.1,
                        color: s.color,
                    },
                }),
            ],
            None => Seq::empty(),
        },
        None => Seq::empty(),
    }
}

/// Logs the entity's sprite, if its image resolves, as a textured quad.
pub fn bevy_sprite(world: &WorldSnapshot, entity: &EntityData) -> (r: (
    Option<&'static str>,
    Vec<SerializedBatch>,
))
    ensures
        r.0 matches Some(s) && s@ == spec_suffix_sprite(),
        batches_view(r.1@) == spec_sprite_logger_batches(*entity),
{
    let suffix = Some("sprite");
    match &entity.sprite {
        Some(s) => {
            match &s.image_size {
                Some(size) => {
                    let batch = SerializedBatch {
                        name: name_mesh().to_owned(),
                        payload: BatchPayload::SpriteQuad {
                            width: size.0,
                            height: size.1,
                            color: s.color,
                        },
                    };
                    let batches = vec![batch];
                    proof {
                        assert(batches_view(batches@) =~= spec_sprite_logger_batches(*entity));
                    }
                    (suffix, batches)
                },
                None => {
                    let batches: Vec<SerializedBatch> = Vec::new();
                    proof {
                        assert(batches_view(batches@) =~= Seq::<BatchModel>::empty());
                    }
                    (suffix, batches)
                },
            }
        },
        None => {
            let batches: Vec<SerializedBatch> = Vec::new();
            proof {
                assert(batches_view(batches@) =~= Seq::<BatchModel>::empty());
            }
            (suffix, batches)
        },
    }
}

} // verus!
