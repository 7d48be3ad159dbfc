//! Texture formats and their capability requirements.
//!
//! Which optional feature a format requires, and which capabilities a
//! validated format is guaranteed, are pure functions of the format (and
//! of the device's enabled set); both are stated here as spec functions
//! and computed by verified table lookups.

use vstd::prelude::*;

use crate::features;
use crate::features::Features;

verus! {

/// Block footprint of an ASTC compressed format.
#[derive(Clone, Copy, PartialEq, Eq, Structural, Debug)]
pub enum AstcBlock {
    /// 12x12 texel block.
    B12x12,
}

/// Channel layout of an ASTC compressed format.
#[derive(Clone, Copy, PartialEq, Eq, Structural, Debug)]
pub enum AstcChannel {
    /// Low-dynamic-range, normalized.
    Unorm,
    /// High dynamic range.
    Hdr,
}

/// The texel format of a texture.
#[derive(Clone, Copy, PartialEq, Eq, Structural, Debug)]
pub enum TextureFormat {
    Rgba8UnormSrgb,
    Rgba8Snorm,
    Rgba8Uint,
    Rgba8Sint,
    Bgra8Unorm,
    Bgra8UnormSrgb,
    Rgb9e5Ufloat,
    Rgb10a2Unorm,
    Rg11b10Float,
    Rg32Uint,
    Rg32Sint,
    Rg32Float,
    Rgba16Uint,
    Rgba16Sint,
    Rgba16Unorm,
    Rgba16Snorm,
    Rgba16Float,
    Rgba32Uint,
    Rgba32Sint,
    Rgba32Float,
    Stencil8,
    Depth16Unorm,
    Depth24Plus,
    Depth24PlusStencil8,
    Depth32Float,
    Depth32FloatStencil8,
    Bc1RgbaUnorm,
    Bc1RgbaUnormSrgb,
    Bc2RgbaUnorm,
    Bc2RgbaUnormSrgb,
    Bc3RgbaUnorm,
    Bc3RgbaUnormSrgb,
    Bc4RUnorm,
    Bc4RSnorm,
    Bc5RgUnorm,
    Bc5RgSnorm,
    Bc6hRgbUfloat,
    Bc6hRgbFloat,
    Bc7RgbaUnorm,
    Bc7RgbaUnormSrgb,
    Etc2Rgb8Unorm,
    Etc2Rgb8UnormSrgb,
    Etc2Rgb8A1Unorm,
    Etc2Rgb8A1UnormSrgb,
    Etc2Rgba8Unorm,
    Etc2Rgba8UnormSrgb,
    EacR11Unorm,
    EacR11Snorm,
    EacRg11Unorm,
    EacRg11Snorm,
    Astc { block: AstcBlock, channel: AstcChannel },
}

/// The capability set a device must have enabled before a texture of
/// format `f` may be created on it. Most formats require nothing beyond
/// the baseline, which is the empty set.
pub open spec fn spec_required_features(f: TextureFormat) -> Features {
    match f {
        TextureFormat::Rgba8UnormSrgb
        | TextureFormat::Rgba8Snorm
        | TextureFormat::Rgba8Uint
        | TextureFormat::Rgba8Sint
        | TextureFormat::Bgra8Unorm
        | TextureFormat::Bgra8UnormSrgb
        | TextureFormat::Rgb9e5Ufloat
        | TextureFormat::Rgb10a2Unorm
        | TextureFormat::Rg11b10Float
        | TextureFormat::Rg32Uint
        | TextureFormat::Rg32Sint
        | TextureFormat::Rg32Float
        | TextureFormat::Rgba16Uint
        | TextureFormat::Rgba16Sint
        | TextureFormat::Rgba16Float
        | TextureFormat::Rgba32Uint
        | TextureFormat::Rgba32Sint
        | TextureFormat::Rgba32Float
        | TextureFormat::Stencil8
        | TextureFormat::Depth16Unorm
        | TextureFormat::Depth24Plus
        | TextureFormat::Depth24PlusStencil8
        | TextureFormat::Depth32Float => Features { bits: 0 },
        TextureFormat::Depth32FloatStencil8 => Features {
            bits: features::DEPTH32FLOAT_STENCIL8,
        },
        TextureFormat::Rgba16Unorm | TextureFormat::Rgba16Snorm => Features {
            bits: features::TEXTURE_FORMAT_16BIT_NORM,
        },
        TextureFormat::Bc1RgbaUnorm
        | TextureFormat::Bc1RgbaUnormSrgb
        | TextureFormat::Bc2RgbaUnorm
        | TextureFormat::Bc2RgbaUnormSrgb
        | TextureFormat::Bc3RgbaUnorm
        | TextureFormat::Bc3RgbaUnormSrgb
        | TextureFormat::Bc4RUnorm
        | TextureFormat::Bc4RSnorm
        | TextureFormat::Bc5RgUnorm
        | TextureFormat::Bc5RgSnorm
        | TextureFormat::Bc6hRgbUfloat
        | TextureFormat::Bc6hRgbFloat
        | TextureFormat::Bc7RgbaUnorm
        | TextureFormat::Bc7RgbaUnormSrgb => Features {
            bits: features::TEXTURE_COMPRESSION_BC,
        },
        TextureFormat::Etc2Rgb8Unorm
        | TextureFormat::Etc2Rgb8UnormSrgb
        | TextureFormat::Etc2Rgb8A1Unorm
        | TextureFormat::Etc2Rgb8A1UnormSrgb
        | TextureFormat::Etc2Rgba8Unorm
        | TextureFormat::Etc2Rgba8UnormSrgb
        | TextureFormat::EacR11Unorm
        | TextureFormat::EacR11Snorm
        | TextureFormat::EacRg11Unorm
        | TextureFormat::EacRg11Snorm => Features {
            bits: features::TEXTURE_COMPRESSION_ETC2,
        },
        TextureFormat::Astc { block: _, channel } => match channel {
            AstcChannel::Hdr => Features { bits: features::TEXTURE_COMPRESSION_ASTC_HDR },
            AstcChannel::Unorm => Features { bits: features::TEXTURE_COMPRESSION_ASTC },
        },
    }
}

/// The capability set guaranteed of a texture of a validated format `f` on
/// a device whose enabled set is `enabled`: the format's own requirements,
/// extended with the device's full enabled set when the device exposes
/// adapter-specific format features.
pub open spec fn spec_guaranteed_features(f: TextureFormat, enabled: Features) -> Features {
    Features {
        bits: spec_required_features(f).bits | (
        if enabled.bits & features::TEXTURE_ADAPTER_SPECIFIC_FORMAT_FEATURES != 0 {
            enabled.bits
        } else {
            0
        }),
    }
}

impl TextureFormat {
    /// The capability set a device must have enabled before a texture of
    /// this format may be created on it.
    pub fn required_features(&self) -> (r: Features)
        ensures
            r == spec_required_features(*self),
    {
        match *self {
            TextureFormat::Rgba8UnormSrgb
            | TextureFormat::Rgba8Snorm
            | TextureFormat::Rgba8Uint
            | TextureFormat::Rgba8Sint
            | TextureFormat::Bgra8Unorm
            | TextureFormat::Bgra8UnormSrgb
            | TextureFormat::Rgb9e5Ufloat
            | TextureFormat::Rgb10a2Unorm
            | TextureFormat::Rg11b10Float
            | TextureFormat::Rg32Uint
            | TextureFormat::Rg32Sint
            | TextureFormat::Rg32Float
            | TextureFormat::Rgba16Uint
            | TextureFormat::Rgba16Sint
            | TextureFormat::Rgba16Float
            | TextureFormat::Rgba32Uint
            | TextureFormat::Rgba32Sint
            | TextureFormat::Rgba32Float
            | TextureFormat::Stencil8
            | TextureFormat::Depth16Unorm
            | TextureFormat::Depth24Plus
            | TextureFormat::Depth24PlusStencil8
            | TextureFormat::Depth32Float => Features { bits: 0 },
            TextureFormat::Depth32FloatStencil8 => Features {
                bits: features::DEPTH32FLOAT_STENCIL8,
            },
            TextureFormat::Rgba16Unorm | TextureFormat::Rgba16Snorm => Features {
                bits: features::TEXTURE_FORMAT_16BIT_NORM,
            },
            TextureFormat::Bc1RgbaUnorm
            | TextureFormat::Bc1RgbaUnormSrgb
            | TextureFormat::Bc2RgbaUnorm
            | TextureFormat::Bc2RgbaUnormSrgb
            | TextureFormat::Bc3RgbaUnorm
            | TextureFormat::Bc3RgbaUnormSrgb
            | TextureFormat::Bc4RUnorm
            | TextureFormat::Bc4RSnorm
            | TextureFormat::Bc5RgUnorm
            | TextureFormat::Bc5RgSnorm
            | TextureFormat::Bc6hRgbUfloat
            | TextureFormat::Bc6hRgbFloat
            | TextureFormat::Bc7RgbaUnorm
            | TextureFormat::Bc7RgbaUnormSrgb => Features {
                bits: features::TEXTURE_COMPRESSION_BC,
            },
            TextureFormat::Etc2Rgb8Unorm
            | TextureFormat::Etc2Rgb8UnormSrgb
            | TextureFormat::Etc2Rgb8A1Unorm
            | TextureFormat::Etc2Rgb8A1UnormSrgb
            | TextureFormat::Etc2Rgba8Unorm
            | TextureFormat::Etc2Rgba8UnormSrgb
            | TextureFormat::EacR11Unorm
            | TextureFormat::EacR11Snorm
            | TextureFormat::EacRg11Unorm
            | TextureFormat::EacRg11Snorm => Features {
                bits: features::TEXTURE_COMPRESSION_ETC2,
            },
            TextureFormat::Astc { block: _, channel } => match channel {
                AstcChannel::Hdr => Features { bits: features::TEXTURE_COMPRESSION_ASTC_HDR },
                AstcChannel::Unorm => Features { bits: features::TEXTURE_COMPRESSION_ASTC },
            },
        }
    }

    /// The capability set guaranteed of a texture of this format on a
    /// device whose enabled set is `device_features`, once the format's
    /// requirements have been validated against that device.
    pub fn guaranteed_format_features(&self, device_features: Features) -> (r: Features)
        ensures
            r == spec_guaranteed_features(*self, device_features),
    {
        let extra = if device_features.bits & features::TEXTURE_ADAPTER_SPECIFIC_FORMAT_FEATURES
            != 0 {
            device_features.bits
        } else {
            0
        };
        Features { bits: self.required_features().bits | extra }
    }
}

} // verus!
