use incro::registry::Registry;

fn path(text: &str) -> String {
    text.to_string()
}

#[test]
fn new_registry_is_empty() {
    let registry: Registry<u32> = Registry::new();
    assert_eq!(registry.len(), 0);
    assert!(!registry.contains(&path("/macros/a.so")));
    assert_eq!(registry.position(&path("/macros/a.so")), None);
}

#[test]
fn insert_keeps_load_order() {
    let mut registry: Registry<u32> = Registry::new();
    assert_eq!(registry.insert(path("/macros/c.so"), 3), Ok(()));
    assert_eq!(registry.insert(path("/macros/a.so"), 1), Ok(()));
    assert_eq!(registry.insert(path("/macros/b.so"), 2), Ok(()));
    assert_eq!(registry.len(), 3);
    assert_eq!(registry.path_at(0), "/macros/c.so");
    assert_eq!(registry.path_at(1), "/macros/a.so");
    assert_eq!(registry.path_at(2), "/macros/b.so");
    assert_eq!(*registry.module_at(0), 3);
    assert_eq!(*registry.module_at(1), 1);
    assert_eq!(*registry.module_at(2), 2);
    assert_eq!(registry.position(&path("/macros/a.so")), Some(1));
    assert!(registry.contains(&path("/macros/b.so")));
    assert!(!registry.contains(&path("/macros/d.so")));
}

#[test]
fn remove_hands_the_module_back_and_keeps_the_rest_in_order() {
    let mut registry: Registry<&str> = Registry::new();
    assert_eq!(registry.insert(path("one"), "m1"), Ok(()));
    assert_eq!(registry.insert(path("two"), "m2"), Ok(()));
    assert_eq!(registry.insert(path("three"), "m3"), Ok(()));
    assert_eq!(registry.remove(&path("two")), Some("m2"));
    assert_eq!(registry.len(), 2);
    assert_eq!(registry.path_at(0), "one");
    assert_eq!(registry.path_at(1), "three");
    assert_eq!(*registry.module_at(1), "m3");
    assert!(!registry.contains(&path("two")));
}

#[test]
fn remove_of_an_absent_path_changes_nothing() {
    let mut registry: Registry<u8> = Registry::new();
    assert_eq!(registry.insert(path("/macros/a.so"), 1), Ok(()));
    assert_eq!(registry.remove(&path("/macros/never.so")), None);
    assert_eq!(registry.len(), 1);
    assert_eq!(registry.path_at(0), "/macros/a.so");
    assert_eq!(*registry.module_at(0), 1);
}

#[test]
fn a_removed_path_can_be_loaded_again_and_goes_last() {
    let mut registry: Registry<u8> = Registry::new();
    assert_eq!(registry.insert(path("a"), 1), Ok(()));
    assert_eq!(registry.insert(path("b"), 2), Ok(()));
    assert_eq!(registry.remove(&path("a")), Some(1));
    assert_eq!(registry.insert(path("a"), 3), Ok(()));
    assert_eq!(registry.position(&path("b")), Some(0));
    assert_eq!(registry.position(&path("a")), Some(1));
    assert_eq!(*registry.module_at(1), 3);
}

#[test]
fn paths_are_compared_as_text() {
    let mut registry: Registry<u8> = Registry::new();
    assert_eq!(registry.insert(path("/macros/a.so"), 1), Ok(()));
    assert!(!registry.contains(&path("/macros//a.so")));
    assert!(!registry.contains(&path("/macros/A.so")));
    assert!(!registry.contains(&path("")));
}

#[test]
fn insert_replaces_nothing() {
    let mut registry: Registry<u8> = Registry::new();
    assert_eq!(registry.insert(path("a"), 1), Ok(()));
    assert_eq!(registry.insert(path("b"), 2), Ok(()));
    assert_eq!(registry.insert(path("a"), 3), Err(3));
    assert_eq!(registry.len(), 2);
    assert_eq!(*registry.module_at(0), 1);
    assert_eq!(registry.position(&path("a")), Some(0));
}
