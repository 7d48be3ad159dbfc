//! Texture descriptors and texture placeholders.

use vstd::prelude::*;

use crate::features::Features;
use crate::format::TextureFormat;

verus! {

/// Intended usage: copy source.
pub const COPY_SRC: u32 = 1u32 << 0;

/// Intended usage: copy destination.
pub const COPY_DST: u32 = 1u32 << 1;

/// Intended usage: sampled texture binding.
pub const TEXTURE_BINDING: u32 = 1u32 << 2;

/// Intended usage: storage texture binding.
pub const STORAGE_BINDING: u32 = 1u32 << 3;

/// Intended usage: render attachment.
pub const RENDER_ATTACHMENT: u32 = 1u32 << 4;

/// The usages a texture is created for, one bit per usage.
#[derive(Clone, Copy, PartialEq, Eq, Structural, Debug)]
pub struct TextureUsages {
    pub bits: u32,
}

/// The caller-supplied description of a texture to create. A plain value
/// object: it is validated against the owning device's capability set and
/// never stored past construction.
#[derive(Clone, Copy, PartialEq, Eq, Structural, Debug)]
pub struct TextureDescriptor {
    /// The texel format; the one field capability validation reads.
    pub format: TextureFormat,
    /// Width in texels.
    pub width: u32,
    /// Height in texels.
    pub height: u32,
    /// Depth, or number of array layers.
    pub depth_or_array_layers: u32,
    /// The usages the texture is created for.
    pub usage: TextureUsages,
}

/// The placeholder registered for a successfully validated texture. The
/// native object itself is out of scope here: this core only reserves
/// identity and records what the texture was validated as.
#[derive(Clone, Copy, PartialEq, Eq, Structural, Debug)]
pub struct Texture {
    /// The format the texture was created with.
    pub format: TextureFormat,
    /// The capability set guaranteed of this texture on its device.
    pub features: Features,
}

} // verus!
