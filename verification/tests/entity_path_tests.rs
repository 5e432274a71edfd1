use revy::{
    EntityData, RerunEntityPath, WorldSnapshot, ancestors_from_world, compute_entity_path,
    normalize_type_name, u64_to_dec,
};

fn named(id: u64, name: &str) -> EntityData {
    let mut e = EntityData::new(id);
    e.name = Some(name.to_string());
    e
}

fn world(entities: Vec<EntityData>) -> WorldSnapshot {
    WorldSnapshot { entities }
}

#[test]
fn root_named_resolves_to_its_name() {
    let w = world(vec![named(5, "root")]);
    assert_eq!(compute_entity_path(&w, 5), "root");
}

#[test]
fn root_unnamed_resolves_to_fallback() {
    let w = world(vec![EntityData::new(42)]);
    assert_eq!(compute_entity_path(&w, 42), "entity_42");
}

#[test]
fn dangling_identifier_resolves_to_fallback() {
    let w = world(vec![]);
    assert_eq!(compute_entity_path(&w, 7), "entity_7");
}

#[test]
fn chain_of_named_ancestors_joins_root_to_leaf() {
    let root = named(1, "root");
    let mut mid = named(2, "mid");
    mid.parent = Some(1);
    let mut leaf = named(3, "leaf");
    leaf.parent = Some(2);
    let w = world(vec![root, mid, leaf]);
    assert_eq!(compute_entity_path(&w, 3), "root/mid/leaf");
}

#[test]
fn unnamed_ancestor_uses_fallback_segment() {
    let root = named(1, "root");
    let mut mid = EntityData::new(9);
    mid.parent = Some(1);
    let mut leaf = named(3, "leaf");
    leaf.parent = Some(9);
    let w = world(vec![root, mid, leaf]);
    assert_eq!(compute_entity_path(&w, 3), "root/entity_9/leaf");
}

#[test]
fn override_is_returned_verbatim() {
    let root = named(1, "root");
    let mut e = named(2, "ignored");
    e.parent = Some(1);
    let marker = RerunEntityPath { path: "custom/path".to_string() };
    e.path_override = Some(marker.path);
    let w = world(vec![root, e]);
    assert_eq!(compute_entity_path(&w, 2), "custom/path");
}

#[test]
fn descendant_of_override_hangs_below_it() {
    let mut parent = named(1, "ignored");
    parent.path_override = Some("X/Y".to_string());
    let mut child = named(2, "c");
    child.parent = Some(1);
    let w = world(vec![parent, child]);
    assert_eq!(compute_entity_path(&w, 2), "X/Y/c");
}

#[test]
fn two_cycle_terminates_with_nonempty_path() {
    let mut a = named(1, "a");
    a.parent = Some(2);
    let mut b = named(2, "b");
    b.parent = Some(1);
    let w = world(vec![a, b]);
    let p = compute_entity_path(&w, 1);
    assert!(!p.is_empty());
    assert!(p.ends_with("/a"));
}

#[test]
fn three_cycle_terminates_with_nonempty_path() {
    let mut a = named(1, "a");
    a.parent = Some(3);
    let mut b = named(2, "b");
    b.parent = Some(1);
    let mut c = named(3, "c");
    c.parent = Some(2);
    let w = world(vec![a, b, c]);
    let p = compute_entity_path(&w, 2);
    assert!(!p.is_empty());
    assert!(p.ends_with("/b"));
}

#[test]
fn self_parent_terminates() {
    let mut a = named(1, "a");
    a.parent = Some(1);
    let w = world(vec![a]);
    let p = compute_entity_path(&w, 1);
    assert!(!p.is_empty());
}

#[test]
fn dangling_parent_link_yields_fallback_prefix() {
    let mut leaf = named(3, "leaf");
    leaf.parent = Some(99);
    let w = world(vec![leaf]);
    assert_eq!(compute_entity_path(&w, 3), "entity_99/leaf");
}

#[test]
fn ancestors_walk_root_first() {
    let root = named(1, "root");
    let mut mid = named(2, "mid");
    mid.parent = Some(1);
    let mut leaf = named(3, "leaf");
    leaf.parent = Some(2);
    let w = world(vec![root, mid, leaf]);
    assert_eq!(ancestors_from_world(&w, 3), vec![1, 2, 3]);
    assert_eq!(ancestors_from_world(&w, 1), vec![1]);
}

#[test]
fn ancestors_stop_at_override_carrier() {
    let root = named(1, "root");
    let mut mid = named(2, "mid");
    mid.parent = Some(1);
    mid.path_override = Some("P".to_string());
    let mut leaf = named(3, "leaf");
    leaf.parent = Some(2);
    let w = world(vec![root, mid, leaf]);
    assert_eq!(ancestors_from_world(&w, 3), vec![2, 3]);
}

#[test]
fn duplicate_identifier_later_record_wins() {
    let first = named(4, "first");
    let second = named(4, "second");
    let w = world(vec![first, second]);
    assert_eq!(compute_entity_path(&w, 4), "second");
}

#[test]
fn decimal_rendering_is_exact() {
    assert_eq!(u64_to_dec(0), "0");
    assert_eq!(u64_to_dec(9), "9");
    assert_eq!(u64_to_dec(905), "905");
    assert_eq!(u64_to_dec(18446744073709551615), "18446744073709551615");
}

#[test]
fn normalize_replaces_double_colons() {
    assert_eq!(normalize_type_name("a::b::C"), "a.b.C");
    assert_eq!(normalize_type_name("NoSeparators"), "NoSeparators");
    assert_eq!(normalize_type_name(""), "");
    assert_eq!(normalize_type_name(":::"), ".:");
    assert_eq!(normalize_type_name("::"), ".");
    assert_eq!(normalize_type_name("a:b"), "a:b");
}
