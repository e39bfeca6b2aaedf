use opaque_handle::arena::Arena;
use opaque_handle::Registry;

#[test]
fn registry_starts_empty() {
    let mut registry = Registry::new();
    assert!(!registry.contains(0));
    assert!(!registry.contains(1));
    assert!(registry.drain().is_empty());
}

#[test]
fn registry_insert_then_contains() {
    let mut registry = Registry::new();
    assert_eq!(registry.insert(4096, "Image"), None);
    assert!(registry.contains(4096));
    assert!(!registry.contains(4097));
}

#[test]
fn registry_insert_returns_the_label_it_replaces() {
    let mut registry = Registry::new();
    assert_eq!(registry.insert(8, "Image"), None);
    assert_eq!(registry.insert(8, "Buffer"), Some("Image"));
    assert_eq!(registry.drain(), vec![(8, "Buffer")]);
}

#[test]
fn registry_remove_returns_the_label() {
    let mut registry = Registry::new();
    registry.insert(1, "Fence");
    registry.insert(2, "Queue");
    assert_eq!(registry.remove(1), Some("Fence"));
    assert_eq!(registry.remove(1), None);
    assert!(!registry.contains(1));
    assert!(registry.contains(2));
}

#[test]
fn registry_drain_lists_every_entry_once() {
    let mut registry = Registry::new();
    for addr in 1..=100usize {
        registry.insert(addr * 8, if addr % 2 == 0 { "even" } else { "odd" });
    }
    registry.remove(16);
    let mut entries = registry.drain();
    entries.sort();
    assert_eq!(entries.len(), 99);
    assert_eq!(entries[0], (8, "odd"));
    assert_eq!(entries[1], (24, "odd"));
    assert_eq!(entries[98], (800, "even"));
    assert!(registry.drain().is_empty());
    assert!(!registry.contains(8));
}

#[test]
fn arena_gives_out_addresses_in_order() {
    let mut arena = Arena::new();
    assert_eq!(arena.insert(Box::new("a")), 1);
    assert_eq!(arena.insert(Box::new("b")), 2);
    assert_eq!(arena.insert(Box::new("c")), 3);
    assert!(arena.contains(1) && arena.contains(2) && arena.contains(3));
    assert!(!arena.contains(0));
    assert!(!arena.contains(4));
}

#[test]
fn arena_get_finds_what_was_stored() {
    let mut arena = Arena::new();
    let addr = arena.insert(Box::new(41u64));
    assert_eq!(arena.get(addr), Some(&41u64));
    assert_eq!(arena.get(0), None);
    assert_eq!(arena.get(addr + 1), None);
    assert_eq!(arena.get(usize::MAX), None);
}

#[test]
fn arena_get_mut_writes_in_place() {
    let mut arena = Arena::new();
    let first = arena.insert(Box::new(1u64));
    let second = arena.insert(Box::new(2u64));
    *arena.get_mut(second).unwrap() = 20;
    assert_eq!(arena.get(first), Some(&1u64));
    assert_eq!(arena.get(second), Some(&20u64));
    assert!(arena.get_mut(0).is_none());
    assert!(arena.get_mut(3).is_none());
}

#[test]
fn arena_take_empties_the_slot_for_good() {
    let mut arena = Arena::new();
    let first = arena.insert(Box::new("x".to_string()));
    assert_eq!(arena.take(first), Some(Box::new("x".to_string())));
    assert_eq!(arena.take(first), None);
    assert!(!arena.contains(first));
    assert!(arena.get_mut(first).is_none());
    assert_eq!(arena.insert(Box::new("y".to_string())), 2);
    assert_eq!(arena.get(first), None);
    assert_eq!(arena.take(0), None);
    assert_eq!(arena.take(9), None);
}
