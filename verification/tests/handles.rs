//! Handle encoding: pack, unpack, backend decoding, bit budgets.

use wgpu_core::backend::Backend;
use wgpu_core::id::{AdapterId, Id, SurfaceId, EPOCH_MASK};
use wgpu_core::instance::Adapter;

#[test]
fn zip_unzip_roundtrip() {
    let id: AdapterId = Id::zip(7, 3, Backend::Metal);
    let (index, epoch, backend) = id.unzip();
    assert_eq!(index, 7);
    assert_eq!(epoch, 3);
    assert_eq!(backend, Backend::Metal);
}

#[test]
fn handle_decodes_to_minting_backend() {
    let empty: SurfaceId = Id::zip(0, 1, Backend::Empty);
    let metal: AdapterId = Id::zip(0, 1, Backend::Metal);
    let gl: AdapterId = Id::zip(0, 1, Backend::Gl);
    assert_eq!(empty.backend(), Backend::Empty);
    assert_eq!(metal.backend(), Backend::Metal);
    assert_eq!(gl.backend(), Backend::Gl);
}

#[test]
fn roundtrip_at_the_epoch_budget() {
    // The largest encodable epoch survives the round trip exactly: the
    // epoch bits never bleed into the backend tag.
    let id: AdapterId = Id::zip(0xFFFF_FFFF, EPOCH_MASK, Backend::Gl);
    let (index, epoch, backend) = id.unzip();
    assert_eq!(index, 0xFFFF_FFFF);
    assert_eq!(epoch, EPOCH_MASK);
    assert_eq!(backend, Backend::Gl);
}

#[test]
fn handles_differ_when_any_part_differs() {
    let base: Id<Adapter> = Id::zip(0, 1, Backend::Metal);
    let other_index: Id<Adapter> = Id::zip(1, 1, Backend::Metal);
    let other_epoch: Id<Adapter> = Id::zip(0, 2, Backend::Metal);
    let other_backend: Id<Adapter> = Id::zip(0, 1, Backend::Gl);
    assert_ne!(base, other_index);
    assert_ne!(base, other_epoch);
    assert_ne!(base, other_backend);
    assert_eq!(base, Id::zip(0, 1, Backend::Metal));
}

#[test]
fn encoding_is_nonzero() {
    let id: SurfaceId = Id::zip(0, 1, Backend::Empty);
    assert_ne!(id.raw, 0);
}
