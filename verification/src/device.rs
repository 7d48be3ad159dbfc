//! Devices and the texture validation pipeline.
//!
//! A device holds the capability set it was created with. Creating a
//! texture on it validates the descriptor's format against that set as a
//! pure function — before any native resource would be touched — and
//! either constructs the texture placeholder or reports exactly the
//! missing capability set.

use vstd::prelude::*;

use crate::error::CreateTextureError;
use crate::features::Features;
use crate::format::spec_guaranteed_features;
use crate::format::spec_required_features;
use crate::resource::Texture;
use crate::resource::TextureDescriptor;

verus! {

/// The caller-supplied description of a device to create.
#[derive(Clone, Copy, PartialEq, Eq, Structural, Debug, Default)]
pub struct DeviceDescriptor {
    /// The capability set the device is to be created with.
    pub features: Features,
}

/// A registered device: the validator of everything created on it.
#[derive(Clone, Copy, PartialEq, Eq, Structural, Debug)]
pub struct Device {
    /// The capability set enabled on this device.
    pub features: Features,
}

/// What creating a texture described by `desc` on `dev` returns: the
/// validated placeholder when the device has every capability the format
/// requires, and otherwise exactly the missing requirement.
pub open spec fn spec_create_texture(dev: Device, desc: TextureDescriptor) -> Result<
    Texture,
    CreateTextureError,
> {
    let required = spec_required_features(desc.format);
    if dev.features.spec_contains(required) {
        Ok(
            Texture {
                format: desc.format,
                features: spec_guaranteed_features(desc.format, dev.features),
            },
        )
    } else {
        Err(CreateTextureError::MissingCapability(required))
    }
}

/// A texture whose format requires a capability the device lacks is
/// rejected with exactly the format's required capability set — never
/// with success, and never with some other requirement.
pub proof fn lemma_missing_capability_rejected(dev: Device, desc: TextureDescriptor)
    requires
        !dev.features.spec_contains(spec_required_features(desc.format)),
    ensures
        spec_create_texture(dev, desc) == Err::<Texture, CreateTextureError>(
            CreateTextureError::MissingCapability(spec_required_features(desc.format)),
        ),
{
}

/// A texture whose format requires no capability beyond the baseline is
/// accepted on every device, whatever its enabled set.
pub proof fn lemma_no_requirement_always_accepted(dev: Device, desc: TextureDescriptor)
    requires
        spec_required_features(desc.format).bits == 0,
    ensures
        spec_create_texture(dev, desc) matches Ok(tex) && tex.format == desc.format,
{
    let bits = dev.features.bits;
    assert(bits & 0u64 == 0u64) by (bit_vector);
}

impl Device {
    /// Constructs a device from its descriptor. Construction itself is
    /// infallible in this core: only registration can bind the result.
    pub fn new(desc: &DeviceDescriptor) -> (r: Device)
        ensures
            r.features == desc.features,
    {
        Device { features: desc.features }
    }

    /// Validates `desc.format` against this device's capability set and
    /// constructs the texture placeholder, or returns the required
    /// capability set the device lacks. No native construction is modeled
    /// here, and none would be performed on the error path.
    pub fn create_texture(&self, desc: &TextureDescriptor) -> (r: Result<
        Texture,
        CreateTextureError,
    >)
        ensures
            r == spec_create_texture(*self, *desc),
    {
        let required = desc.format.required_features();
        if self.features.contains(required) {
            Ok(
                Texture {
                    format: desc.format,
                    features: desc.format.guaranteed_format_features(self.features),
                },
            )
        } else {
            Err(CreateTextureError::MissingCapability(required))
        }
    }
}

} // verus!
