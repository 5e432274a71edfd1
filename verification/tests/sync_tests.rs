use revy::{
    AabbData, BatchPayload, DefaultRerunComponentLoggers, DynComponent, EntityData,
    RerunComponentLoggers, RerunLogger, Rgba, SpriteData, SyncItem, TransformData, WorldSnapshot,
    sync_world, transform_type_path,
};

fn named(id: u64, name: &str) -> EntityData {
    let mut e = EntityData::new(id);
    e.name = Some(name.to_string());
    e
}

fn world(entities: Vec<EntityData>) -> WorldSnapshot {
    WorldSnapshot { entities }
}

fn some_transform() -> TransformData {
    TransformData { translation: [1, 2, 3], rotation: [0, 0, 0, 1], scale: [1, 1, 1] }
}

fn messages(items: &[SyncItem]) -> Vec<&revy::LogMessage> {
    items
        .iter()
        .filter_map(|i| match i {
            SyncItem::Message(m) => Some(m),
            SyncItem::Custom { .. } => None,
        })
        .collect()
}

#[test]
fn empty_world_logs_nothing() {
    let defaults = DefaultRerunComponentLoggers::default();
    let items = sync_world(&world(vec![]), None, &defaults, 0);
    assert!(items.is_empty());
}

#[test]
fn aabb_scenario_logs_colored_box_at_child_path() {
    let a = named(1, "root");
    let mut b = named(2, "child");
    b.parent = Some(1);
    b.aabb = Some(AabbData { center: [10, 20, 30], half_extents: [1, 2, 3] });
    b.material3d_color = Some(Rgba { r: 9, g: 8, b: 7, a: 255 });
    let defaults = DefaultRerunComponentLoggers::default();
    let items = sync_world(&world(vec![a, b]), None, &defaults, 5);
    let aabb_msgs: Vec<_> = messages(&items)
        .into_iter()
        .filter(|m| m.suffix.as_deref() == Some("aabb"))
        .collect();
    assert_eq!(aabb_msgs.len(), 1);
    let m = aabb_msgs[0];
    assert_eq!(m.entity_path, "root/child");
    assert_eq!(m.time, 5);
    assert_eq!(m.batches.len(), 1);
    assert_eq!(m.batches[0].name, "Boxes3D");
    match &m.batches[0].payload {
        BatchPayload::Boxes { centers, half_sizes, colors } => {
            assert_eq!(centers, &vec![[10, 20, 30]]);
            assert_eq!(half_sizes, &vec![[1, 2, 3]]);
            assert_eq!(colors, &vec![Rgba { r: 9, g: 8, b: 7, a: 255 }]);
        },
        _ => panic!("expected a boxes payload"),
    }
}

#[test]
fn aabb_color_prefers_2d_material_then_3d_then_sprite() {
    let mut e = named(1, "e");
    e.aabb = Some(AabbData { center: [0, 0, 0], half_extents: [1, 1, 1] });
    e.material2d_color = Some(Rgba { r: 1, g: 0, b: 0, a: 255 });
    e.material3d_color = Some(Rgba { r: 2, g: 0, b: 0, a: 255 });
    e.sprite = Some(SpriteData { image_size: None, color: Rgba { r: 3, g: 0, b: 0, a: 255 } });
    let defaults = DefaultRerunComponentLoggers::default();
    let items = sync_world(&world(vec![e]), None, &defaults, 0);
    let boxes: Vec<_> = messages(&items)
        .into_iter()
        .filter(|m| m.suffix.as_deref() == Some("aabb"))
        .collect();
    match &boxes[0].batches[0].payload {
        BatchPayload::Boxes { colors, .. } => {
            assert_eq!(colors, &vec![Rgba { r: 1, g: 0, b: 0, a: 255 }]);
        },
        _ => panic!("expected a boxes payload"),
    }

    let mut e = named(1, "e");
    e.aabb = Some(AabbData { center: [0, 0, 0], half_extents: [1, 1, 1] });
    e.sprite = Some(SpriteData { image_size: None, color: Rgba { r: 3, g: 0, b: 0, a: 255 } });
    let items = sync_world(&world(vec![e]), None, &defaults, 0);
    let boxes: Vec<_> = messages(&items)
        .into_iter()
        .filter(|m| m.suffix.as_deref() == Some("aabb"))
        .collect();
    match &boxes[0].batches[0].payload {
        BatchPayload::Boxes { colors, .. } => {
            assert_eq!(colors, &vec![Rgba { r: 3, g: 0, b: 0, a: 255 }]);
        },
        _ => panic!("expected a boxes payload"),
    }
}

#[test]
fn unknown_component_without_reflection_logs_placeholder() {
    let mut c = named(3, "c");
    c.others.push(DynComponent { type_path: "my_game::Widget".to_string(), reflected: None });
    let defaults = DefaultRerunComponentLoggers::default();
    let items = sync_world(&world(vec![c]), None, &defaults, 0);
    let msgs = messages(&items);
    assert_eq!(msgs.len(), 1);
    assert_eq!(msgs[0].batches.len(), 1);
    assert_eq!(msgs[0].batches[0].name, "my_game.Widget");
    match &msgs[0].batches[0].payload {
        BatchPayload::Text(t) => assert_eq!(t, "<missing reflection metadata>"),
        _ => panic!("expected a text payload"),
    }
}

#[test]
fn siblings_with_global_transforms_are_distinguished_by_path() {
    let p = named(1, "p");
    let mut a = named(2, "a");
    a.parent = Some(1);
    a.global_transform = Some(some_transform());
    let mut b = named(3, "b");
    b.parent = Some(1);
    b.global_transform = Some(some_transform());
    let defaults = DefaultRerunComponentLoggers::default();
    let items = sync_world(&world(vec![p, a, b]), None, &defaults, 0);
    let globals: Vec<_> = messages(&items)
        .into_iter()
        .filter(|m| m.batches.iter().any(|x| x.name == "Translation3DGlobal"))
        .collect();
    assert_eq!(globals.len(), 2);
    assert_eq!(globals[0].suffix, globals[1].suffix);
    assert_ne!(globals[0].entity_path, globals[1].entity_path);
    assert_eq!(globals[0].entity_path, "p/a");
    assert_eq!(globals[1].entity_path, "p/b");
}

#[test]
fn session_suppression_silences_a_logged_type() {
    let mut e = named(1, "e");
    e.transform = Some(some_transform());
    let defaults = DefaultRerunComponentLoggers::default();
    let session = RerunComponentLoggers::new(vec![(transform_type_path().to_string(), None)]);
    let items = sync_world(&world(vec![e]), Some(&session), &defaults, 0);
    assert!(items.is_empty());
}

#[test]
fn transform_logs_without_suffix() {
    let mut e = named(1, "e");
    e.transform = Some(some_transform());
    let defaults = DefaultRerunComponentLoggers::default();
    let items = sync_world(&world(vec![e]), None, &defaults, 3);
    let msgs = messages(&items);
    assert_eq!(msgs.len(), 1);
    assert_eq!(msgs[0].suffix, None);
    assert_eq!(msgs[0].entity_path, "e");
    assert_eq!(msgs[0].time, 3);
    assert_eq!(msgs[0].batches.len(), 4);
    assert_eq!(msgs[0].batches[0].name, "Translation3D");
}

#[test]
fn parent_link_and_children_log_resolved_paths() {
    let mut p = named(1, "p");
    p.children = Some(vec![2]);
    let mut c = named(2, "c");
    c.parent = Some(1);
    let defaults = DefaultRerunComponentLoggers::default();
    let items = sync_world(&world(vec![p, c]), None, &defaults, 0);
    let msgs = messages(&items);

    let children_msg = msgs
        .iter()
        .find(|m| m.batches.iter().any(|b| b.name == "Children"))
        .expect("the parent logs its children");
    assert_eq!(children_msg.entity_path, "p");
    match &children_msg.batches[0].payload {
        BatchPayload::EntityPathList(paths) => assert_eq!(paths, &vec!["p/c".to_string()]),
        _ => panic!("expected a path list payload"),
    }

    let child_of_msg = msgs
        .iter()
        .find(|m| m.batches.iter().any(|b| b.name == "ChildOf"))
        .expect("the child logs its parent link");
    assert_eq!(child_of_msg.entity_path, "p/c");
    match &child_of_msg.batches[0].payload {
        BatchPayload::EntityPathRef(path) => assert_eq!(path, "p"),
        _ => panic!("expected a path reference payload"),
    }
}

#[test]
fn path_override_marker_is_never_logged() {
    let mut e = named(1, "e");
    e.path_override = Some("custom".to_string());
    let defaults = DefaultRerunComponentLoggers::default();
    let items = sync_world(&world(vec![e]), None, &defaults, 0);
    assert!(items.is_empty());
}

#[test]
fn custom_logger_entries_are_deferred() {
    let mut e = named(1, "e");
    e.transform = Some(some_transform());
    let defaults = DefaultRerunComponentLoggers::default();
    let session = RerunComponentLoggers::new(vec![(
        transform_type_path().to_string(),
        Some(RerunLogger::Custom(7)),
    )]);
    let items = sync_world(&world(vec![e]), Some(&session), &defaults, 0);
    assert_eq!(items.len(), 1);
    match &items[0] {
        SyncItem::Custom { logger, entity, component } => {
            assert_eq!(*logger, 7);
            assert_eq!(*entity, 1);
            assert_eq!(component, transform_type_path());
        },
        _ => panic!("expected a deferred item"),
    }
}

#[test]
fn sprite_with_unresolved_image_emits_nothing() {
    let mut e = named(1, "e");
    e.sprite = Some(SpriteData { image_size: None, color: Rgba { r: 1, g: 2, b: 3, a: 4 } });
    let defaults = DefaultRerunComponentLoggers::default();
    let items = sync_world(&world(vec![e]), None, &defaults, 0);
    assert!(items.is_empty());
}

#[test]
fn sprite_with_image_emits_quad_with_suffix() {
    let mut e = named(1, "e");
    e.sprite = Some(
        SpriteData { image_size: Some((64, 32)), color: Rgba { r: 1, g: 2, b: 3, a: 4 } },
    );
    let defaults = DefaultRerunComponentLoggers::default();
    let items = sync_world(&world(vec![e]), None, &defaults, 0);
    let msgs = messages(&items);
    assert_eq!(msgs.len(), 1);
    assert_eq!(msgs[0].suffix.as_deref(), Some("sprite"));
    match &msgs[0].batches[0].payload {
        BatchPayload::SpriteQuad { width, height, color } => {
            assert_eq!((*width, *height), (64, 32));
            assert_eq!(*color, Rgba { r: 1, g: 2, b: 3, a: 4 });
        },
        _ => panic!("expected a sprite quad payload"),
    }
}

#[test]
fn camera_projection_logs_pinhole_with_cam_suffix() {
    let mut e = named(1, "e");
    e.projection = Some(revy::ProjectionData::Perspective {
        fov: 0x3F490FDB, // bit pattern of a quarter turn in radians
        aspect_ratio: 0x3FE38E39,
        near: 0x3DCCCCCD,
        far: 0x447A0000,
    });
    let defaults = DefaultRerunComponentLoggers::default();
    let items = sync_world(&world(vec![e]), None, &defaults, 0);
    let msgs = messages(&items);
    assert_eq!(msgs.len(), 1);
    assert_eq!(msgs[0].suffix.as_deref(), Some("cam"));
    assert_eq!(msgs[0].batches.len(), 1);
    assert_eq!(msgs[0].batches[0].name, "Pinhole");
    assert!(matches!(
        msgs[0].batches[0].payload,
        BatchPayload::Pinhole(revy::ProjectionData::Perspective { fov: 0x3F490FDB, .. })
    ));
}

#[test]
fn mesh_logger_attaches_material_albedo() {
    let mut e = named(1, "e");
    e.mesh3d = Some(revy::MeshData {
        positions: Some(vec![[0, 0, 0], [1, 0, 0], [0, 1, 0]]),
        indices: None,
        normals: None,
        uvs: None,
        colors: None,
    });
    e.material3d_color = Some(Rgba { r: 10, g: 20, b: 30, a: 255 });
    let defaults = DefaultRerunComponentLoggers::default();
    let items = sync_world(&world(vec![e]), None, &defaults, 0);
    let msgs = messages(&items);
    assert_eq!(msgs.len(), 1);
    assert_eq!(msgs[0].suffix.as_deref(), Some("mesh3d"));
    assert_eq!(msgs[0].batches[0].name, "Mesh3D");
    match &msgs[0].batches[0].payload {
        BatchPayload::Mesh(b) => {
            assert_eq!(b.positions.len(), 3);
            assert_eq!(b.albedo_factor, Some(Rgba { r: 10, g: 20, b: 30, a: 255 }));
        },
        _ => panic!("expected a mesh payload"),
    }
}

#[test]
fn mesh_without_positions_logs_nothing() {
    let mut e = named(1, "e");
    e.mesh2d = Some(revy::MeshData {
        positions: None,
        indices: Some(vec![0, 1, 2]),
        normals: None,
        uvs: None,
        colors: None,
    });
    let defaults = DefaultRerunComponentLoggers::default();
    let items = sync_world(&world(vec![e]), None, &defaults, 0);
    assert!(items.is_empty());
}

#[test]
fn sink_path_appends_the_suffix_as_a_segment() {
    let mut e = named(1, "e");
    e.aabb = Some(AabbData { center: [0, 0, 0], half_extents: [1, 1, 1] });
    let defaults = DefaultRerunComponentLoggers::default();
    let items = sync_world(&world(vec![e]), None, &defaults, 0);
    let msgs = messages(&items);
    assert_eq!(msgs[0].sink_path(), "e/aabb");

    let mut e = named(1, "e");
    e.transform = Some(some_transform());
    let items = sync_world(&world(vec![e]), None, &defaults, 0);
    let msgs = messages(&items);
    assert_eq!(msgs[0].sink_path(), "e");
}
