//! The generational index allocator: freshness, reuse, epoch bumping.

use wgpu_core::backend::Backend;
use wgpu_core::id::AdapterId;
use wgpu_core::identity::IdentityManager;

#[test]
fn allocations_are_pairwise_distinct() {
    let mut manager = IdentityManager::default();
    let a: AdapterId = manager.allocate(Backend::Metal);
    let b: AdapterId = manager.allocate(Backend::Metal);
    let c: AdapterId = manager.allocate(Backend::Metal);
    assert_ne!(a, b);
    assert_ne!(a, c);
    assert_ne!(b, c);
    assert_eq!(a.unzip().0, 0);
    assert_eq!(b.unzip().0, 1);
    assert_eq!(c.unzip().0, 2);
    assert_eq!(a.unzip().1, 1);
    assert_eq!(b.unzip().1, 1);
}

#[test]
fn allocation_carries_the_requested_backend() {
    let mut manager = IdentityManager::default();
    let a: AdapterId = manager.allocate(Backend::Gl);
    assert_eq!(a.backend(), Backend::Gl);
}

#[test]
fn free_bumps_the_epoch_and_reuses_the_index() {
    let mut manager = IdentityManager::default();
    let a: AdapterId = manager.allocate(Backend::Metal);
    manager.free(a);
    assert_eq!(manager.epochs[0], 2);
    assert_eq!(manager.free, vec![0]);
    let b: AdapterId = manager.allocate(Backend::Metal);
    // The index comes back, but under the bumped epoch: the retired
    // handle can never collide with the new one.
    assert_eq!(b.unzip().0, 0);
    assert_eq!(b.unzip().1, 2);
    assert_ne!(a, b);
    assert!(manager.free.is_empty());
}

#[test]
fn fresh_index_after_reuse_continues_the_table() {
    let mut manager = IdentityManager::default();
    let a: AdapterId = manager.allocate(Backend::Metal);
    let _b: AdapterId = manager.allocate(Backend::Metal);
    manager.free(a);
    let c: AdapterId = manager.allocate(Backend::Metal);
    let d: AdapterId = manager.allocate(Backend::Metal);
    assert_eq!(c.unzip().0, 0);
    assert_eq!(d.unzip().0, 2);
    assert_eq!(manager.epochs.len(), 3);
}
