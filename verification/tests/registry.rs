use std::sync::Arc;

use wallet_session::lifecycle::deinitialize;
use wallet_session::registry::SessionRegistry;

#[derive(Debug)]
struct SlotEngine {
    id: u32,
}

#[test]
fn new_registry_is_empty() {
    let registry: SessionRegistry<SlotEngine> = SessionRegistry::new();
    assert!(!registry.is_active());
    assert!(registry.get().is_none());
}

#[test]
fn set_installs_the_handle() {
    let mut registry = SessionRegistry::new();
    let handle = Arc::new(SlotEngine { id: 7 });
    registry.set(handle.clone());
    assert!(registry.is_active());
    let held = registry.get().expect("a session is active");
    assert!(Arc::ptr_eq(&held, &handle));
    assert_eq!(held.id, 7);
}

#[test]
fn set_replaces_the_prior_handle() {
    let mut registry = SessionRegistry::new();
    let first = Arc::new(SlotEngine { id: 1 });
    let second = Arc::new(SlotEngine { id: 2 });
    registry.set(first.clone());
    registry.set(second.clone());
    let held = registry.get().expect("a session is active");
    assert!(Arc::ptr_eq(&held, &second));
    assert!(!Arc::ptr_eq(&held, &first));
    // The registry let go of the first handle: only the test holds it.
    assert_eq!(Arc::strong_count(&first), 1);
}

#[test]
fn get_hands_out_another_holder() {
    let mut registry = SessionRegistry::new();
    let handle = Arc::new(SlotEngine { id: 3 });
    registry.set(handle.clone());
    assert_eq!(Arc::strong_count(&handle), 2);
    let held = registry.get().expect("a session is active");
    assert_eq!(Arc::strong_count(&handle), 3);
    drop(held);
    assert_eq!(Arc::strong_count(&handle), 2);
    // Reading does not empty the slot.
    assert!(registry.get().is_some());
}

#[test]
fn clear_removes_the_handle_but_not_the_engine() {
    let mut registry = SessionRegistry::new();
    let handle = Arc::new(SlotEngine { id: 4 });
    registry.set(handle.clone());
    let held = registry.get().expect("a session is active");
    registry.clear();
    assert!(!registry.is_active());
    assert!(registry.get().is_none());
    // Other holders keep the engine alive.
    assert_eq!(held.id, 4);
    assert_eq!(Arc::strong_count(&handle), 2);
}

#[test]
fn clear_on_an_empty_registry_keeps_it_empty() {
    let mut registry: SessionRegistry<SlotEngine> = SessionRegistry::new();
    registry.clear();
    assert!(registry.get().is_none());
}

#[test]
fn deinitialize_empties_the_registry() {
    let mut registry = SessionRegistry::new();
    registry.set(Arc::new(SlotEngine { id: 5 }));
    deinitialize(&mut registry);
    assert!(!registry.is_active());
    assert!(registry.get().is_none());
    deinitialize(&mut registry);
    assert!(registry.get().is_none());
}
