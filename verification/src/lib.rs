//! Mirrors a live entity-component world into a hierarchical, time-indexed
//! logging sink.
//!
//! The library computes, once per tick, the set of log messages that describe
//! the world: for every entity it resolves a hierarchical entity path from the
//! parent/child graph, looks up a logger for each attached component (session
//! table first, then the default table, then a generic text fallback), and
//! turns the component's data into named, typed batches. Sending the batches
//! over a connection, and reading the host engine's own data structures, are
//! left to the embedding application; the library works on plain values.

use vstd::prelude::*;

mod batch;
mod conversions;
mod default_loggers;
mod entity_path;
mod rerun_logger;
mod sync;
mod world;

pub use self::sync::{
    LogMessage, LogMessageModel, SyncItem, SyncItemModel, attached_components, components_view,
    lemma_suppressed_component_contributes_nothing,
    lemma_unregistered_component_contributes_one_text_message,
    run_logger, spec_attached, spec_component_items, spec_entity_items, spec_items_for_components,
    spec_items_for_entities, spec_opt_view, spec_run_logger, spec_sink_path, spec_sync,
    sync_items_view,
    sync_world,
};

pub use self::default_loggers::{
    DefaultRerunComponentLoggers, aabb_type_path, bevy_aabb, bevy_camera, bevy_child_of,
    bevy_children, bevy_global_transform, bevy_mesh2d, bevy_mesh3d, bevy_sprite, bevy_transform,
    child_of_type_path, children_type_path, entity_path_type_path, global_transform_type_path,
    mesh2d_type_path, mesh3d_type_path, projection_type_path, spec_aabb_colors,
    spec_aabb_logger_batches, spec_aabb_type_path, spec_camera_logger_batches, spec_child_paths,
    spec_child_of_logger_batches, spec_child_of_type_path, spec_children_logger_batches,
    spec_children_type_path, spec_default_loggers, spec_entity_path_type_path,
    spec_global_transform_logger_batches, spec_global_transform_type_path,
    spec_mesh2d_logger_batches, spec_mesh2d_type_path, spec_mesh3d_logger_batches,
    spec_mesh3d_type_path, spec_projection_type_path, spec_sprite_logger_batches,
    spec_sprite_type_path, lemma_global_suffix_changes_name, spec_suffix_aabb, spec_suffix_cam, spec_suffix_mesh2d,
    spec_suffix_mesh3d, spec_suffix_sprite, spec_transform_logger_batches,
    spec_transform_type_path, sprite_type_path, transform_type_path,
};

pub use self::conversions::{
    ToRerun, copy_vec, lemma_mesh_attribute_presence, mesh_to_batch, spec_mesh_batch,
    spec_rgba_u32, spec_transform_batches, spec_triangles, triangles_from_indices,
};

pub use self::rerun_logger::{
    RerunComponentLoggers, RerunLogger, entries_map, get_component_logger, log_ignored_component,
    lemma_absent_resolves_to_fallback, lemma_session_none_suppresses, normalize_type_name,
    spec_get_component_logger, spec_ignored_component_batches, spec_normalize_type_name,
    spec_session_view, spec_unavailable_placeholder,
};

pub use self::batch::{
    BatchModel, BatchPayload, MeshBatch, MeshBatchModel, PayloadModel, SerializedBatch,
    TriangleIndices, batches_view, name_axis_length, name_boxes, name_child_of, name_children,
    name_mesh, name_pinhole, name_rotation, name_scale, name_translation, spec_name_axis_length,
    spec_name_boxes, spec_name_child_of, spec_name_children, spec_name_mesh, spec_name_pinhole,
    spec_name_rotation, spec_name_scale, spec_name_translation,
};

pub use self::entity_path::{
    MAX_ANCESTOR_DEPTH, RerunEntityPath, ancestors_from_world, compute_entity_path,
    fallback_segment, join_path_parts, lemma_join_parts_nonempty, lemma_lookup_is_member,
    lemma_path_below_override, lemma_path_of_ancestor_chain, lemma_path_of_chain,
    lemma_path_of_root, lemma_path_override_verbatim, lemma_path_parts_each_nonempty,
    lemma_path_parts_nonempty, lemma_path_string_nonempty, path_parts_up_to, segment_string,
    spec_ancestor_ids, spec_digit, spec_head_part, spec_linked_chain,
    spec_fallback_segment, spec_join_parts, spec_path_parts, spec_path_string, spec_segment,
    spec_u64_dec, u64_to_dec,
};

pub use self::world::{
    AabbData, DynComponent, EntityData, MeshData, ProjectionData, Rgba, SpriteData, TransformData,
    WorldSnapshot, spec_lookup,
};

verus! {

/// A 32-bit scalar carried through to the sink verbatim.
///
/// The host engine stores vertex data, transforms and sizes as IEEE 754
/// singles. The library never computes with these values, it only routes
/// them, so it carries each one as its raw bit pattern.
pub type Scalar = u32;

} // verus!
