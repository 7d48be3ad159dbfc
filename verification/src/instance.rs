//! Surfaces, adapters, and adapter selection inputs.

use vstd::prelude::*;

use crate::backend::Backend;
use crate::backend::Backends;
use crate::device::Device;
use crate::device::DeviceDescriptor;

verus! {

/// A presentation surface. Backend-independent: its registry belongs to
/// the global object, not to any backend's hub.
#[derive(Clone, Copy, PartialEq, Eq, Structural, Debug)]
pub struct Surface {

}

/// A registered adapter: the entry point for creating devices on one
/// backend.
#[derive(Clone, Copy, PartialEq, Eq, Structural, Debug)]
pub struct Adapter {

}

impl Adapter {
    pub fn new() -> (r: Adapter)
        ensures
            r == (Adapter {  }),
    {
        Adapter {  }
    }

    /// Constructs a device from its descriptor. The native instantiation
    /// hook is out of scope here; this core records the validated
    /// capability set the device is created with.
    pub fn create_device(&self, desc: &DeviceDescriptor) -> (r: Device)
        ensures
            r.features == desc.features,
    {
        Device::new(desc)
    }
}

/// How the caller selects the backends an adapter may come from.
#[derive(Clone, Copy, PartialEq, Eq, Structural, Debug)]
pub enum AdapterInputs {
    /// A mask of acceptable backends.
    Mask(Backends),
}

impl AdapterInputs {
    /// Whether the selection accepts backend `b`.
    pub open spec fn spec_includes(self, b: Backend) -> bool {
        match self {
            AdapterInputs::Mask(mask) => mask.spec_contains_backend(b),
        }
    }

    pub fn find(&self, b: Backend) -> (r: bool)
        ensures
            r == self.spec_includes(b),
    {
        match self {
            AdapterInputs::Mask(mask) => mask.contains_backend(b),
        }
    }
}

} // verus!
