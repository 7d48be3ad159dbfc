//! Two-phase reservation at the registry level.

use wgpu_core::backend::Backend;
use wgpu_core::error::InvalidHandle;
use wgpu_core::hub::Token;
use wgpu_core::instance::{Adapter, Surface};
use wgpu_core::registry::Registry;

#[test]
fn prepare_then_assign_makes_the_handle_resolvable() {
    let mut registry: Registry<Adapter> = Registry::new(Backend::Metal);
    let mut token = Token::root();
    let fid = registry.prepare();
    let id = fid.assign(&mut registry, Adapter {}, &mut token);
    assert_eq!(id.backend(), Backend::Metal);
    assert_eq!(registry.data.get(id), Ok(&Adapter {}));
}

#[test]
fn a_pending_handle_is_not_resolvable_before_assign() {
    let mut registry: Registry<Adapter> = Registry::new(Backend::Metal);
    let fid = registry.prepare();
    let pending = fid.id;
    assert!(!registry.data.is_resolvable(pending));
    let mut token = Token::root();
    let id = fid.assign(&mut registry, Adapter {}, &mut token);
    assert!(registry.data.is_resolvable(id));
    assert_eq!(id, pending);
}

#[test]
fn assign_error_still_finalizes_the_handle() {
    let mut registry: Registry<Adapter> = Registry::new(Backend::Metal);
    let mut token = Token::root();
    let fid = registry.prepare();
    let id = fid.assign_error(&mut registry, &mut token);
    assert!(registry.data.is_resolvable(id));
    assert_eq!(registry.data.get(id), Err(InvalidHandle));
}

#[test]
fn without_backend_tags_handles_with_the_dummy_backend() {
    let mut registry: Registry<Surface> = Registry::without_backend();
    assert_eq!(registry.backend, Backend::Empty);
    let mut token = Token::root();
    let fid = registry.prepare();
    let id = fid.assign(&mut registry, Surface {}, &mut token);
    assert_eq!(id.backend(), Backend::Empty);
}

#[test]
fn successive_registrations_never_share_index_and_epoch() {
    let mut registry: Registry<Adapter> = Registry::new(Backend::Metal);
    let mut token = Token::root();
    let mut seen: Vec<(u32, u32)> = Vec::new();
    for _ in 0..8 {
        let fid = registry.prepare();
        let id = fid.assign(&mut registry, Adapter {}, &mut token);
        let (index, epoch, _) = id.unzip();
        assert!(!seen.contains(&(index, epoch)));
        seen.push((index, epoch));
    }
}
