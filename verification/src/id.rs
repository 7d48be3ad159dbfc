//! Opaque generational handles.
//!
//! A handle packs `(index, epoch, backend tag)` into one nonzero 64-bit
//! value: the index in the low [`INDEX_BITS`] bits, the epoch above it, and
//! the backend tag in the top [`BACKEND_BITS`] bits. A handle therefore
//! stays trivially copyable and self-describes its backend, so it can route
//! itself to the right per-backend hub. The phantom resource-kind marker
//! keeps a handle for one resource kind from being used as another.

use std::marker::PhantomData;
use vstd::pervasive::unreached;
use vstd::prelude::*;

use crate::backend::backend_of_tag;
use crate::backend::Backend;

verus! {

/// Position of a slot inside one registry.
pub type Index = u32;

/// Generation counter distinguishing a live object from a stale handle
/// that refers to a reused slot.
pub type Epoch = u32;

/// Number of low bits of a handle that hold the index.
pub const INDEX_BITS: u64 = 32;

/// Number of bits of a handle that hold the epoch.
pub const EPOCH_BITS: u64 = 29;

/// Number of top bits of a handle that hold the backend tag.
pub const BACKEND_BITS: u64 = 3;

/// Bit position of the backend tag.
pub const BACKEND_SHIFT: u64 = INDEX_BITS * 2 - BACKEND_BITS;

/// The largest encodable index: one bit set for each of the `INDEX_BITS`
/// index bits of a handle.
pub const INDEX_MASK: u64 = 0xFFFF_FFFF;

/// The largest encodable epoch: one bit set for each of the `EPOCH_BITS`
/// epoch bits of a handle.
pub const EPOCH_MASK: u32 = 0x1FFF_FFFF;

/// An opaque, copyable, comparable handle to one resource of kind `T`.
///
/// The `raw` field is public so that specifications can speak about the
/// encoding; callers should treat a handle as opaque and only compare it,
/// decode its backend, or hand it back to the API that minted it.
#[derive(PartialEq, Eq, Debug)]
pub struct Id<T> {
    pub raw: u64,
    pub kind: PhantomData<T>,
}

impl<T> Copy for Id<T> {

}

impl<T> Clone for Id<T> {
    fn clone(&self) -> (r: Self)
        ensures
            r == *self,
    {
        *self
    }
}

impl<T> Id<T> {
    /// The index packed into the handle.
    pub open spec fn spec_index(self) -> int {
        (self.raw & INDEX_MASK) as int
    }

    /// The epoch packed into the handle.
    pub open spec fn spec_epoch(self) -> Epoch {
        ((self.raw >> INDEX_BITS) & (EPOCH_MASK as u64)) as u32
    }

    /// The backend tag packed into the handle.
    pub open spec fn spec_tag(self) -> u32 {
        (self.raw >> BACKEND_SHIFT) as u32
    }

    /// The backend the handle was minted for.
    pub open spec fn spec_backend(self) -> Backend {
        backend_of_tag(self.spec_tag())
    }

    /// Well-formedness: the epoch is in budget and nonzero (so the whole
    /// encoding is nonzero) and the tag names a known backend. Every handle
    /// this library mints is well-formed.
    pub open spec fn wf(self) -> bool {
        &&& 1 <= self.spec_epoch() <= EPOCH_MASK
        &&& (self.spec_tag() == 0 || self.spec_tag() == 2 || self.spec_tag() == 5)
        &&& self.raw != 0
    }

    /// Packs `(index, epoch, backend)` into a handle.
    ///
    /// An epoch outside its bit budget cannot be encoded at all: it is
    /// excluded here rather than silently truncated, since an out-of-budget
    /// epoch would mean the allocator itself is broken.
    pub fn zip(index: Index, epoch: Epoch, backend: Backend) -> (r: Id<T>)
        requires
            1 <= epoch <= EPOCH_MASK,
        ensures
            r.wf(),
            r.spec_index() == index,
            r.spec_epoch() == epoch,
            r.spec_backend() == backend,
    {
        let tag = backend.tag();
        proof {
            lemma_pack_parts(index, epoch, tag);
        }
        Id {
            raw: (index as u64) | ((epoch as u64) << INDEX_BITS) | ((tag as u64) << BACKEND_SHIFT),
            kind: PhantomData,
        }
    }

    /// Unpacks the handle into `(index, epoch, backend)`, undoing `zip`.
    pub fn unzip(self) -> (r: (Index, Epoch, Backend))
        requires
            self.wf(),
        ensures
            r.0 == self.spec_index(),
            r.1 == self.spec_epoch(),
            r.2 == self.spec_backend(),
    {
        proof {
            lemma_part_bounds(self.raw);
        }
        let index = (self.raw & INDEX_MASK) as u32;
        let epoch = ((self.raw >> INDEX_BITS) & (EPOCH_MASK as u64)) as u32;
        (index, epoch, self.backend())
    }

    /// Decodes the backend tag. A tag naming no known backend signals a
    /// forged or corrupted handle — a fatal inconsistency, excluded by
    /// precondition — so decoding a well-formed handle never fails.
    pub fn backend(self) -> (b: Backend)
        requires
            self.wf(),
        ensures
            b == self.spec_backend(),
    {
        let t = (self.raw >> BACKEND_SHIFT) as u32;
        if t == 0 {
            Backend::Empty
        } else if t == 2 {
            Backend::Metal
        } else if t == 5 {
            Backend::Gl
        } else {
            unreached()
        }
    }
}

/// A handle to a registered adapter.
pub type AdapterId = Id<crate::instance::Adapter>;

/// A handle to a registered surface.
pub type SurfaceId = Id<crate::instance::Surface>;

/// A handle to a registered device.
pub type DeviceId = Id<crate::device::Device>;

/// A handle to a registered texture.
pub type TextureId = Id<crate::resource::Texture>;

/// The three packed fields land in their own bit ranges: each can be read
/// back exactly, and an epoch of at least one makes the encoding nonzero.
proof fn lemma_pack_parts(index: u32, epoch: u32, tag: u32)
    by (bit_vector)
    requires
        1 <= epoch <= 0x1FFF_FFFFu32,
        tag == 0 || tag == 2 || tag == 5,
    ensures
        ({
            let raw = (index as u64) | ((epoch as u64) << 32) | ((tag as u64) << 61);
            &&& raw & 0xFFFF_FFFFu64 == index as u64
            &&& (raw >> 32) & 0x1FFF_FFFFu64 == epoch as u64
            &&& raw >> 61 == tag as u64
            &&& raw != 0
        }),
{
}

/// Bounds of the three decoded parts of any raw handle value.
proof fn lemma_part_bounds(raw: u64)
    by (bit_vector)
    ensures
        raw & 0xFFFF_FFFFu64 <= 0xFFFF_FFFFu64,
        (raw >> 32) & 0x1FFF_FFFFu64 <= 0x1FFF_FFFFu64,
        raw >> 61 <= 7u64,
{
}

/// The index, epoch and tag bit ranges together cover all 64 bits, so two
/// raw values that agree on all three parts are equal.
proof fn lemma_parts_determine_raw(a: u64, b: u64)
    by (bit_vector)
    requires
        a & 0xFFFF_FFFFu64 == b & 0xFFFF_FFFFu64,
        (a >> 32) & 0x1FFF_FFFFu64 == (b >> 32) & 0x1FFF_FFFFu64,
        a >> 61 == b >> 61,
    ensures
        a == b,
{
}

/// A handle's encoding is injective: two well-formed handles that agree on
/// index, epoch and backend are the same raw value.
pub proof fn lemma_id_encoding_injective<T>(a: Id<T>, b: Id<T>)
    requires
        a.wf(),
        b.wf(),
        a.spec_index() == b.spec_index(),
        a.spec_epoch() == b.spec_epoch(),
        a.spec_backend() == b.spec_backend(),
    ensures
        a.raw == b.raw,
{
    lemma_part_bounds(a.raw);
    lemma_part_bounds(b.raw);
    assert(a.spec_tag() == b.spec_tag());
    lemma_parts_determine_raw(a.raw, b.raw);
}

} // verus!
