use omnia_plugin::declared::{declared_slots, Location};

fn path(name: &str, p: &str) -> Location {
    Location::Path { name: name.to_string(), path: p.to_string() }
}

fn registry(r: &str) -> Location {
    Location::Registry { registry: r.to_string() }
}

#[test]
fn no_locations_install_nothing() {
    assert!(declared_slots(&vec![]).is_none());
}

#[test]
fn paths_fold_in_order_and_first_registry_wins() {
    let d = declared_slots(&vec![
        path("a", "/srv/a"),
        registry("one.example"),
        path("b", "/srv/b"),
        registry("two.example"),
    ])
    .unwrap();
    assert_eq!(
        d.paths,
        vec![("a".to_string(), "/srv/a".to_string()), ("b".to_string(), "/srv/b".to_string())]
    );
    assert_eq!(d.registry.as_deref(), Some("one.example"));
    let slots = d.slots();
    assert!(slots.path && slots.registry);
}

#[test]
fn registry_only_leaves_path_slot_empty() {
    let d = declared_slots(&vec![registry("r.example")]).unwrap();
    assert!(d.paths.is_empty());
    let slots = d.slots();
    assert!(!slots.path && slots.registry);
    let d = declared_slots(&vec![path(".", "/srv")]).unwrap();
    assert!(d.registry.is_none());
    assert!(d.slots().path && !d.slots().registry);
}
