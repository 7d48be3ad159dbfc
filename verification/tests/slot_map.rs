//! The generational slot map: lookup, staleness, error placeholders.

use wgpu_core::backend::Backend;
use wgpu_core::error::InvalidHandle;
use wgpu_core::id::Id;
use wgpu_core::instance::Adapter;
use wgpu_core::storage::{Element, Storage};

#[test]
fn insert_then_get_returns_the_value() {
    let mut storage: Storage<Adapter> = Storage { map: Vec::new() };
    let id: Id<Adapter> = Id::zip(0, 1, Backend::Metal);
    storage.insert(id, Adapter {});
    assert_eq!(storage.get(id), Ok(&Adapter {}));
    assert!(storage.is_resolvable(id));
}

#[test]
fn get_on_an_index_never_issued_is_invalid() {
    let storage: Storage<Adapter> = Storage { map: Vec::new() };
    let id: Id<Adapter> = Id::zip(5, 1, Backend::Metal);
    assert_eq!(storage.get(id), Err(InvalidHandle));
    assert!(!storage.is_resolvable(id));
}

#[test]
fn get_with_a_stale_epoch_is_invalid() {
    let mut storage: Storage<Adapter> = Storage { map: Vec::new() };
    let current: Id<Adapter> = Id::zip(0, 2, Backend::Metal);
    let stale: Id<Adapter> = Id::zip(0, 1, Backend::Metal);
    storage.insert(current, Adapter {});
    assert_eq!(storage.get(stale), Err(InvalidHandle));
    assert_eq!(storage.get(current), Ok(&Adapter {}));
}

#[test]
fn an_error_placeholder_resolves_but_yields_no_value() {
    let mut storage: Storage<Adapter> = Storage { map: Vec::new() };
    let id: Id<Adapter> = Id::zip(0, 1, Backend::Metal);
    storage.insert_error(id);
    assert!(storage.is_resolvable(id));
    assert_eq!(storage.get(id), Err(InvalidHandle));
}

#[test]
fn insert_past_the_end_fills_the_gap_with_vacant_slots() {
    let mut storage: Storage<Adapter> = Storage { map: Vec::new() };
    let id: Id<Adapter> = Id::zip(2, 1, Backend::Metal);
    storage.insert(id, Adapter {});
    assert_eq!(storage.map.len(), 3);
    assert!(matches!(storage.map[0], Element::Vacant));
    assert!(matches!(storage.map[1], Element::Vacant));
    assert!(matches!(storage.map[2], Element::Occupied(_, 1)));
}
