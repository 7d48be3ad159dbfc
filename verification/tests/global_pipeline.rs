//! The full pipeline through the root object: adapter, device, texture.

use wgpu_core::backend::{Backend, Backends};
use wgpu_core::device::DeviceDescriptor;
use wgpu_core::error::{CreateTextureError, RequestAdapterError, RequestDeviceError};
use wgpu_core::features::{self, Features};
use wgpu_core::format::TextureFormat;
use wgpu_core::global::{device_create_texture, Global};
use wgpu_core::id::{AdapterId, DeviceId, Id};
use wgpu_core::instance::AdapterInputs;
use wgpu_core::resource::{TextureDescriptor, TextureUsages};
use wgpu_core::storage::Element;

fn texture_descriptor(format: TextureFormat) -> TextureDescriptor {
    TextureDescriptor {
        format,
        width: 4,
        height: 4,
        depth_or_array_layers: 1,
        usage: TextureUsages { bits: 0 },
    }
}

#[test]
fn single_backend_scenario() {
    // A process exposing only the Metal backend, asked for any backend at
    // all, hands out a Metal adapter; a device on it; one texture whose
    // format needs nothing; and a second, distinct handle bound to the
    // missing-capability error.
    let mut global = Global::new();
    let a1 = global
        .request_adapter(AdapterInputs::Mask(Backends::all()))
        .expect("one backend is exposed");
    assert_eq!(a1.backend(), Backend::Metal);

    let (d1, device_error) = global
        .adapter_request_device(a1, &DeviceDescriptor { features: Features::empty() });
    assert_eq!(device_error, None);
    assert_eq!(d1.backend(), Backend::Metal);

    let (t1, texture_error) =
        global.device_create_texture(d1, &texture_descriptor(TextureFormat::Rgba8UnormSrgb));
    assert_eq!(texture_error, None);

    let (t2, missing) =
        global.device_create_texture(d1, &texture_descriptor(TextureFormat::Bc1RgbaUnorm));
    assert_ne!(t2, t1);
    assert_eq!(
        missing,
        Some(CreateTextureError::MissingCapability(Features::from_bits(
            features::TEXTURE_COMPRESSION_BC
        )))
    );
}

#[test]
fn adapter_not_found_for_an_empty_mask() {
    let mut global = Global::new();
    let refused = global.request_adapter(AdapterInputs::Mask(Backends::empty()));
    assert_eq!(refused, Err(RequestAdapterError::NotFound));
}

#[test]
fn unissued_adapter_yields_invalid_adapter_and_a_resolvable_handle() {
    let mut global = Global::new();
    let forged: AdapterId = Id::zip(9, 1, Backend::Metal);
    let (device, err) = global
        .adapter_request_device(forged, &DeviceDescriptor { features: Features::empty() });
    assert_eq!(err, Some(RequestDeviceError::InvalidAdapter));
    // The pre-reserved handle still resolves, to a diagnostic
    // placeholder, in the hub the forged handle routed to.
    assert!(global.hubs.metal.devices.data.is_resolvable(device));
    let (index, epoch, _) = device.unzip();
    assert!(matches!(
        global.hubs.metal.devices.data.map[index as usize],
        Element::Error(e) if e == epoch
    ));
}

#[test]
fn wrong_backend_tag_routes_to_its_own_hub() {
    let mut global = Global::new();
    let forged: AdapterId = Id::zip(0, 1, Backend::Gl);
    let (device, err) = global
        .adapter_request_device(forged, &DeviceDescriptor { features: Features::empty() });
    assert_eq!(err, Some(RequestDeviceError::InvalidAdapter));
    assert_eq!(device.backend(), Backend::Gl);
    assert!(global.hubs.gl.devices.data.is_resolvable(device));
}

#[test]
fn unissued_device_yields_device_invalid() {
    let mut global = Global::new();
    let forged: DeviceId = Id::zip(3, 1, Backend::Metal);
    let (texture, err) =
        global.device_create_texture(forged, &texture_descriptor(TextureFormat::Rgba8Uint));
    assert_eq!(err, Some(CreateTextureError::DeviceInvalid));
    assert!(global.hubs.metal.textures.data.is_resolvable(texture));
}

#[test]
fn missing_capability_constructs_no_texture() {
    let mut global = Global::new();
    let adapter = global
        .request_adapter(AdapterInputs::Mask(Backends::all()))
        .expect("one backend is exposed");
    let (device, _) = global
        .adapter_request_device(adapter, &DeviceDescriptor { features: Features::empty() });
    let (texture, err) =
        global.device_create_texture(device, &texture_descriptor(TextureFormat::Rgba16Unorm));
    assert_eq!(
        err,
        Some(CreateTextureError::MissingCapability(Features::from_bits(
            features::TEXTURE_FORMAT_16BIT_NORM
        )))
    );
    // The slot holds an error placeholder, not a texture.
    let (index, epoch, _) = texture.unzip();
    assert!(matches!(
        global.hubs.metal.textures.data.map[index as usize],
        Element::Error(e) if e == epoch
    ));
}

#[test]
fn enabled_capability_lets_the_texture_through() {
    let mut global = Global::new();
    let adapter = global
        .request_adapter(AdapterInputs::Mask(Backends::all()))
        .expect("one backend is exposed");
    let enabled = Features::from_bits(features::TEXTURE_FORMAT_16BIT_NORM);
    let (device, err) =
        global.adapter_request_device(adapter, &DeviceDescriptor { features: enabled });
    assert_eq!(err, None);
    let (texture, texture_error) =
        global.device_create_texture(device, &texture_descriptor(TextureFormat::Rgba16Unorm));
    assert_eq!(texture_error, None);
    let (index, epoch, _) = texture.unzip();
    match &global.hubs.metal.textures.data.map[index as usize] {
        Element::Occupied(placeholder, e) => {
            assert_eq!(*e, epoch);
            assert_eq!(placeholder.format, TextureFormat::Rgba16Unorm);
            assert_eq!(placeholder.features, enabled);
        },
        _ => panic!("expected a registered texture"),
    }
}

#[test]
fn texture_handles_on_one_device_never_repeat() {
    let mut global = Global::new();
    let adapter = global
        .request_adapter(AdapterInputs::Mask(Backends::all()))
        .expect("one backend is exposed");
    let (device, _) = global
        .adapter_request_device(adapter, &DeviceDescriptor { features: Features::empty() });
    let mut seen: Vec<u64> = Vec::new();
    for _ in 0..5 {
        let (texture, err) = device_create_texture(
            &mut global,
            &device,
            &texture_descriptor(TextureFormat::Bgra8Unorm),
        );
        assert_eq!(err, None);
        assert!(!seen.contains(&texture.raw));
        seen.push(texture.raw);
    }
}
