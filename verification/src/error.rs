//! The error taxonomy of the registry layer.
//!
//! Public operations return a pre-reserved handle *paired with* an
//! optional error rather than an error alone: the handle stays resolvable
//! (bound to a diagnostic placeholder) even when construction fails, so
//! later introspection by handle still works. Bookkeeping violations
//! (double insert, vacant-slot read, out-of-budget epoch) are fatal
//! allocator bugs, not typed results: verified code excludes them by
//! precondition instead of returning them.

use vstd::prelude::*;

use crate::features::Features;

verus! {

/// A lookup failed: the handle's index was never issued by the registry
/// it was presented to, or its epoch is stale because the slot has been
/// reused since the handle was minted.
#[derive(Clone, Copy, PartialEq, Eq, Structural, Debug)]
pub struct InvalidHandle;

/// Why no adapter handle could be minted.
#[derive(Clone, Copy, PartialEq, Eq, Structural, Debug)]
pub enum RequestAdapterError {
    /// No backend exposed by this process satisfies the selection mask.
    NotFound,
}

/// Why a device request was bound to an error placeholder.
#[derive(Clone, Copy, PartialEq, Eq, Structural, Debug)]
pub enum RequestDeviceError {
    /// The adapter handle does not resolve to a live adapter.
    InvalidAdapter,
}

/// Why a texture request was bound to an error placeholder.
#[derive(Clone, Copy, PartialEq, Eq, Structural, Debug)]
pub enum CreateTextureError {
    /// The device handle does not resolve to a live device.
    DeviceInvalid,
    /// The texture's format requires the carried capability set, and the
    /// device does not have all of it enabled.
    MissingCapability(Features),
}

} // verus!
