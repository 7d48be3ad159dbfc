//! Device capability sets.
//!
//! A capability set is a bitset of optional features a device may or may
//! not support. A texture format may require one of these features; a
//! device create request is validated against the owning device's enabled
//! set before any native resource would be touched.

use vstd::prelude::*;

verus! {

/// Creating depth 32-bit float textures with an extra stencil plane.
pub const DEPTH32FLOAT_STENCIL8: u64 = 1u64 << 24;

/// Block-compressed (BC) texture formats.
pub const TEXTURE_COMPRESSION_BC: u64 = 1u64 << 25;

/// ETC2 compressed texture formats.
pub const TEXTURE_COMPRESSION_ETC2: u64 = 1u64 << 26;

/// ASTC compressed texture formats with low-dynamic-range channels.
pub const TEXTURE_COMPRESSION_ASTC: u64 = 1u64 << 27;

/// 16-bit normalized texture formats.
pub const TEXTURE_FORMAT_16BIT_NORM: u64 = 1u64 << 29;

/// ASTC compressed texture formats with high-dynamic-range channels.
pub const TEXTURE_COMPRESSION_ASTC_HDR: u64 = 1u64 << 30;

/// Format capabilities beyond the guaranteed baseline, specific to the
/// adapter the device was created from.
pub const TEXTURE_ADAPTER_SPECIFIC_FORMAT_FEATURES: u64 = 1u64 << 31;

/// A set of optional device capabilities, one bit per feature.
#[derive(Clone, Copy, PartialEq, Eq, Structural, Debug, Default)]
pub struct Features {
    pub bits: u64,
}

impl Features {
    /// Whether every feature of `other` is enabled in `self`.
    pub open spec fn spec_contains(self, other: Features) -> bool {
        self.bits & other.bits == other.bits
    }

    /// The empty capability set.
    pub fn empty() -> (r: Features)
        ensures
            r.bits == 0,
    {
        Features { bits: 0 }
    }

    /// The capability set with exactly the features of `bits` set.
    pub fn from_bits(bits: u64) -> (r: Features)
        ensures
            r.bits == bits,
    {
        Features { bits }
    }

    pub fn contains(self, other: Features) -> (r: bool)
        ensures
            r == self.spec_contains(other),
    {
        self.bits & other.bits == other.bits
    }

    /// The set of features enabled in `self` or in `other`.
    pub fn union(self, other: Features) -> (r: Features)
        ensures
            r.bits == self.bits | other.bits,
    {
        Features { bits: self.bits | other.bits }
    }
}

} // verus!
