use revy::{
    BatchPayload, DefaultRerunComponentLoggers, RerunComponentLoggers, RerunLogger,
    get_component_logger, log_ignored_component, transform_type_path,
};

#[test]
fn default_table_maps_wellknown_types() {
    let defaults = DefaultRerunComponentLoggers::default();
    let r = get_component_logger(&transform_type_path().to_string(), None, &defaults);
    assert_eq!(r, Some(RerunLogger::Transform));
    let r = get_component_logger(
        &"bevy_transform::components::global_transform::GlobalTransform".to_string(),
        None,
        &defaults,
    );
    assert_eq!(r, Some(RerunLogger::GlobalTransform));
    let r = get_component_logger(&"bevy_render::primitives::Aabb".to_string(), None, &defaults);
    assert_eq!(r, Some(RerunLogger::Aabb));
}

#[test]
fn path_override_marker_is_suppressed_by_default() {
    let defaults = DefaultRerunComponentLoggers::default();
    let r = get_component_logger(
        &"revy::entity_path::RerunEntityPath".to_string(),
        None,
        &defaults,
    );
    assert_eq!(r, None);
}

#[test]
fn unknown_type_falls_back_to_text_logger() {
    let defaults = DefaultRerunComponentLoggers::default();
    let r = get_component_logger(&"my_game::Widget".to_string(), None, &defaults);
    assert_eq!(r, Some(RerunLogger::Text));
}

#[test]
fn session_none_beats_default_some() {
    let defaults = DefaultRerunComponentLoggers::default();
    let session = RerunComponentLoggers::new(vec![(transform_type_path().to_string(), None)]);
    let r = get_component_logger(&transform_type_path().to_string(), Some(&session), &defaults);
    assert_eq!(r, None);
}

#[test]
fn session_some_beats_default() {
    let defaults = DefaultRerunComponentLoggers::default();
    let session = RerunComponentLoggers::new(vec![(
        transform_type_path().to_string(),
        Some(RerunLogger::Custom(7)),
    )]);
    let r = get_component_logger(&transform_type_path().to_string(), Some(&session), &defaults);
    assert_eq!(r, Some(RerunLogger::Custom(7)));
}

#[test]
fn absent_session_entry_falls_through_to_default() {
    let defaults = DefaultRerunComponentLoggers::default();
    let session = RerunComponentLoggers::new(vec![("other::Type".to_string(), None)]);
    let r = get_component_logger(&transform_type_path().to_string(), Some(&session), &defaults);
    assert_eq!(r, Some(RerunLogger::Transform));
}

#[test]
fn later_registration_wins() {
    let mut session = RerunComponentLoggers::new_empty();
    session.insert("a::B".to_string(), Some(RerunLogger::Custom(1)));
    session.insert("a::B".to_string(), Some(RerunLogger::Custom(2)));
    let defaults = DefaultRerunComponentLoggers::default();
    let r = get_component_logger(&"a::B".to_string(), Some(&session), &defaults);
    assert_eq!(r, Some(RerunLogger::Custom(2)));
}

#[test]
fn fallback_logger_emits_one_tagged_text_batch() {
    let (suffix, batches) = log_ignored_component(&"my_game::Widget".to_string(), &None);
    assert_eq!(suffix, None);
    assert_eq!(batches.len(), 1);
    assert_eq!(batches[0].name, "my_game.Widget");
    match &batches[0].payload {
        BatchPayload::Text(t) => assert_eq!(t, "<missing reflection metadata>"),
        _ => panic!("expected a text payload"),
    }
}

#[test]
fn fallback_logger_uses_reflected_rendering_when_available() {
    let (_, batches) = log_ignored_component(
        &"my_game::Widget".to_string(),
        &Some("(count: 3)".to_string()),
    );
    assert_eq!(batches.len(), 1);
    match &batches[0].payload {
        BatchPayload::Text(t) => assert_eq!(t, "(count: 3)"),
        _ => panic!("expected a text payload"),
    }
}
