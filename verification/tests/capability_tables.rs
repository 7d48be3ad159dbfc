//! The pure capability tables: required and guaranteed features.

use wgpu_core::backend::{Backend, Backends};
use wgpu_core::features::{self, Features};
use wgpu_core::format::{AstcBlock, AstcChannel, TextureFormat};
use wgpu_core::instance::AdapterInputs;

#[test]
fn baseline_formats_require_nothing() {
    assert_eq!(TextureFormat::Rgba8UnormSrgb.required_features(), Features::empty());
    assert_eq!(TextureFormat::Depth32Float.required_features(), Features::empty());
    assert_eq!(TextureFormat::Rg11b10Float.required_features(), Features::empty());
}

#[test]
fn each_format_band_requires_its_feature() {
    assert_eq!(
        TextureFormat::Depth32FloatStencil8.required_features(),
        Features::from_bits(features::DEPTH32FLOAT_STENCIL8)
    );
    assert_eq!(
        TextureFormat::Rgba16Unorm.required_features(),
        Features::from_bits(features::TEXTURE_FORMAT_16BIT_NORM)
    );
    assert_eq!(
        TextureFormat::Bc3RgbaUnormSrgb.required_features(),
        Features::from_bits(features::TEXTURE_COMPRESSION_BC)
    );
    assert_eq!(
        TextureFormat::EacRg11Snorm.required_features(),
        Features::from_bits(features::TEXTURE_COMPRESSION_ETC2)
    );
    assert_eq!(
        TextureFormat::Astc { block: AstcBlock::B12x12, channel: AstcChannel::Unorm }
            .required_features(),
        Features::from_bits(features::TEXTURE_COMPRESSION_ASTC)
    );
    assert_eq!(
        TextureFormat::Astc { block: AstcBlock::B12x12, channel: AstcChannel::Hdr }
            .required_features(),
        Features::from_bits(features::TEXTURE_COMPRESSION_ASTC_HDR)
    );
}

#[test]
fn guaranteed_features_default_to_the_requirement() {
    let enabled = Features::from_bits(features::TEXTURE_COMPRESSION_BC);
    let guaranteed = TextureFormat::Bc1RgbaUnorm.guaranteed_format_features(enabled);
    assert_eq!(guaranteed, Features::from_bits(features::TEXTURE_COMPRESSION_BC));
}

#[test]
fn adapter_specific_features_extend_the_guarantee() {
    let enabled = Features::from_bits(
        features::TEXTURE_COMPRESSION_BC | features::TEXTURE_ADAPTER_SPECIFIC_FORMAT_FEATURES,
    );
    let guaranteed = TextureFormat::Bc1RgbaUnorm.guaranteed_format_features(enabled);
    assert_eq!(
        guaranteed,
        Features::from_bits(
            features::TEXTURE_COMPRESSION_BC
                | features::TEXTURE_ADAPTER_SPECIFIC_FORMAT_FEATURES
        )
    );
}

#[test]
fn feature_set_operations() {
    let bc = Features::from_bits(features::TEXTURE_COMPRESSION_BC);
    let both = bc.union(Features::from_bits(features::TEXTURE_COMPRESSION_ETC2));
    assert!(both.contains(bc));
    assert!(!bc.contains(both));
    assert!(bc.contains(Features::empty()));
    assert!(Features::empty().contains(Features::empty()));
}

#[test]
fn backend_masks_select_backends() {
    assert!(Backends::all().contains_backend(Backend::Metal));
    assert!(!Backends::all().contains_backend(Backend::Gl));
    assert!(!Backends::empty().contains_backend(Backend::Metal));
    let inputs = AdapterInputs::Mask(Backends::all());
    assert!(inputs.find(Backend::Metal));
    assert!(!inputs.find(Backend::Gl));
}
