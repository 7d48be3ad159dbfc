//! Per-backend hubs and the compile-time lock-acquisition hierarchy.
//!
//! A [`Hub`] owns one registry per resource kind, all tagged with one
//! backend; state is never shared across backends, so operations against
//! different backends never contend. Access to a registry requires a
//! [`Token`] for its parent resource kind — surfaces and adapters at the
//! root, devices beneath adapters, textures beneath devices — which turns
//! a lock-ordering violation into a compile-time type error instead of a
//! runtime deadlock risk.

use std::marker::PhantomData;
use vstd::prelude::*;

use crate::backend::Backend;
use crate::device::spec_create_texture;
use crate::device::Device;
use crate::device::DeviceDescriptor;
use crate::error::CreateTextureError;
use crate::error::RequestDeviceError;
use crate::id::Id;
use crate::instance::Adapter;
use crate::instance::Surface;
use crate::registry::Registry;
use crate::resource::Texture;
use crate::resource::TextureDescriptor;
use crate::storage::Element;

verus! {

/// The root level of the acquisition hierarchy: no lock held yet.
pub struct Root;

/// Evidence that holding read access at level `A` permits touching the
/// registry of `T`s: the fixed parent-before-child acquisition order,
/// written as trait implementations so the compiler enforces it.
pub trait Access<T> {

}

impl Access<Surface> for Root {

}

impl Access<Adapter> for Root {

}

impl Access<Device> for Adapter {

}

impl Access<Texture> for Device {

}

/// A zero-sized token naming the deepest level acquired so far. Holding
/// `&mut Token<A>` with `A: Access<T>` is what lets a caller open the
/// registry of `T`s, and doing so hands back a `Token<T>` for the level
/// below.
pub struct Token<T> {
    level: PhantomData<T>,
}

impl<T> Token<T> {
    pub(crate) fn new() -> (r: Token<T>) {
        Token { level: PhantomData }
    }
}

impl Token<Root> {
    /// The token every operation starts from: nothing acquired yet.
    pub fn root() -> (r: Token<Root>) {
        Token { level: PhantomData }
    }
}

/// All registries of one backend: one per resource kind.
pub struct Hub {
    pub adapters: Registry<Adapter>,
    pub devices: Registry<Device>,
    pub textures: Registry<Texture>,
}

/// What registering a device on a hub guarantees. The device handle is
/// fresh — distinct from every handle the hub's device registry ever
/// resolved — and is always finalized: to the constructed device when the
/// adapter handle resolves, and to a diagnostic error placeholder (paired
/// with `InvalidAdapter`) when it does not.
pub open spec fn request_device_post(
    hub0: Hub,
    hub1: Hub,
    adapter_id: Id<Adapter>,
    desc: DeviceDescriptor,
    r: (Id<Device>, Option<RequestDeviceError>),
) -> bool {
    &&& hub1.wf()
    &&& hub1.adapters == hub0.adapters
    &&& hub1.textures == hub0.textures
    &&& hub1.devices.backend == hub0.devices.backend
    &&& hub1.devices.identity.epochs@ == hub0.devices.identity.epochs@.push(1u32)
    &&& r.0.wf()
    &&& r.0.spec_backend() == hub0.backend_of()
    &&& r.0.spec_index() == hub0.devices.data.map@.len()
    &&& r.0.spec_epoch() == 1
    &&& hub1.devices.resolvable(r.0)
    &&& forall|t: Id<Device>| #[trigger] hub0.devices.resolvable(t) ==> t.raw != r.0.raw
    &&& match hub0.adapters.spec_get(adapter_id) {
        Some(_) => r.1 is None && hub1.devices.data.map@ == hub0.devices.data.map@.push(
            Element::Occupied(Device { features: desc.features }, 1u32),
        ),
        None => r.1 == Some(RequestDeviceError::InvalidAdapter)
            && hub1.devices.data.map@ == hub0.devices.data.map@.push(
            Element::<Device>::Error(1u32),
        ),
    }
}

/// What creating a texture on a hub guarantees. The texture handle is
/// fresh and always finalized. When the device handle resolves, the
/// descriptor's format is validated as a pure function against the
/// device's capability set: a missing requirement yields exactly
/// `MissingCapability(required)` bound to an error placeholder — no
/// texture value is constructed — and a satisfied requirement yields the
/// validated placeholder and no error.
pub open spec fn create_texture_post(
    hub0: Hub,
    hub1: Hub,
    device_id: Id<Device>,
    desc: TextureDescriptor,
    r: (Id<Texture>, Option<CreateTextureError>),
) -> bool {
    &&& hub1.wf()
    &&& hub1.adapters == hub0.adapters
    &&& hub1.devices == hub0.devices
    &&& hub1.textures.backend == hub0.textures.backend
    &&& hub1.textures.identity.epochs@ == hub0.textures.identity.epochs@.push(1u32)
    &&& r.0.wf()
    &&& r.0.spec_backend() == hub0.backend_of()
    &&& r.0.spec_index() == hub0.textures.data.map@.len()
    &&& r.0.spec_epoch() == 1
    &&& hub1.textures.resolvable(r.0)
    &&& forall|t: Id<Texture>| #[trigger] hub0.textures.resolvable(t) ==> t.raw != r.0.raw
    &&& match hub0.devices.spec_get(device_id) {
        Some(dev) => match spec_create_texture(dev, desc) {
            Ok(tex) => r.1 is None && hub1.textures.data.map@ == hub0.textures.data.map@.push(
                Element::Occupied(tex, 1u32),
            ),
            Err(e) => r.1 == Some(e) && hub1.textures.data.map@ == hub0.textures.data.map@.push(
                Element::<Texture>::Error(1u32),
            ),
        },
        None => r.1 == Some(CreateTextureError::DeviceInvalid)
            && hub1.textures.data.map@ == hub0.textures.data.map@.push(
            Element::<Texture>::Error(1u32),
        ),
    }
}

impl Hub {
    /// The backend all of this hub's registries are tagged with.
    pub open spec fn backend_of(self) -> Backend {
        self.adapters.backend
    }

    pub open spec fn wf(self) -> bool {
        &&& self.adapters.wf()
        &&& self.devices.wf()
        &&& self.textures.wf()
        &&& self.devices.backend == self.adapters.backend
        &&& self.textures.backend == self.adapters.backend
    }

    pub open spec fn is_empty(self) -> bool {
        self.adapters.is_empty() && self.devices.is_empty() && self.textures.is_empty()
    }

    /// An empty hub for `backend`.
    pub fn new(backend: Backend) -> (r: Hub)
        ensures
            r.wf(),
            r.is_empty(),
            r.backend_of() == backend,
    {
        Hub {
            adapters: Registry::new(backend),
            devices: Registry::new(backend),
            textures: Registry::new(backend),
        }
    }

    /// Mints and registers a fresh adapter on this hub.
    pub fn select_adapter(&mut self, token: &mut Token<Root>) -> (r: Id<Adapter>)
        requires
            old(self).wf(),
            old(self).adapters.can_reserve(),
        ensures
            final(self).wf(),
            final(self).devices == old(self).devices,
            final(self).textures == old(self).textures,
            final(self).adapters.backend == old(self).adapters.backend,
            final(self).adapters.data.map@ == old(self).adapters.data.map@.push(
                Element::Occupied(Adapter {  }, 1u32),
            ),
            final(self).adapters.identity.epochs@ == old(self).adapters.identity.epochs@.push(
                1u32,
            ),
            r.wf(),
            r.spec_backend() == old(self).backend_of(),
            r.spec_index() == old(self).adapters.data.map@.len(),
            r.spec_epoch() == 1,
            final(self).adapters.spec_get(r) == Some(Adapter {  }),
            final(self).adapters.live_handle(r),
    {
        let fid = self.adapters.prepare();
        let adapter = Adapter::new();
        fid.assign(&mut self.adapters, adapter, token)
    }

    /// Resolves the adapter, constructs a device from the descriptor and
    /// registers it; an unresolvable adapter still yields a resolvable
    /// device handle, bound to an error placeholder.
    pub fn request_device(
        &mut self,
        adapter_id: Id<Adapter>,
        desc: &DeviceDescriptor,
        token: &mut Token<Root>,
    ) -> (r: (Id<Device>, Option<RequestDeviceError>))
        requires
            old(self).wf(),
            adapter_id.wf(),
            old(self).devices.can_reserve(),
        ensures
            request_device_post(*old(self), *final(self), adapter_id, *desc, r),
    {
        let fid = self.devices.prepare();
        let (adapter_guard, mut adapter_token) = self.adapters.read(token);
        proof {
            if adapter_id.spec_index() < self.adapters.data.map@.len() {
                assert(self.adapters.slot_current(adapter_id.spec_index()));
            }
        }
        match adapter_guard.get(adapter_id) {
            Ok(adapter) => {
                let device = adapter.create_device(desc);
                let id = fid.assign(&mut self.devices, device, &mut adapter_token);
                (id, None)
            },
            Err(_) => {
                let id = fid.assign_error(&mut self.devices, &mut adapter_token);
                (id, Some(RequestDeviceError::InvalidAdapter))
            },
        }
    }

    /// Resolves the device, validates the descriptor's format against its
    /// capability set and registers the texture placeholder; a failed
    /// resolution or validation still yields a resolvable texture handle,
    /// bound to an error placeholder.
    pub fn create_texture(
        &mut self,
        device_id: Id<Device>,
        desc: &TextureDescriptor,
        token: &mut Token<Root>,
    ) -> (r: (Id<Texture>, Option<CreateTextureError>))
        requires
            old(self).wf(),
            device_id.wf(),
            old(self).textures.can_reserve(),
        ensures
            create_texture_post(*old(self), *final(self), device_id, *desc, r),
    {
        let fid = self.textures.prepare();
        let (_adapter_guard, mut adapter_token) = self.adapters.read(token);
        let (device_guard, mut device_token) = self.devices.read(&mut adapter_token);
        proof {
            if device_id.spec_index() < self.devices.data.map@.len() {
                assert(self.devices.slot_current(device_id.spec_index()));
            }
        }
        match device_guard.get(device_id) {
            Ok(device) => match device.create_texture(desc) {
                Ok(texture) => {
                    let id = fid.assign(&mut self.textures, texture, &mut device_token);
                    (id, None)
                },
                Err(e) => {
                    let id = fid.assign_error(&mut self.textures, &mut device_token);
                    (id, Some(e))
                },
            },
            Err(_) => {
                let id = fid.assign_error(&mut self.textures, &mut device_token);
                (id, Some(CreateTextureError::DeviceInvalid))
            },
        }
    }
}

/// One hub per supported backend. Keeping the hubs physically separate
/// keeps their lock domains independent: adding a backend means adding
/// one field here and one dispatch arm per operation.
pub struct Hubs {
    pub empty: Hub,
    pub metal: Hub,
    pub gl: Hub,
}

impl Hubs {
    pub open spec fn wf(self) -> bool {
        &&& self.empty.wf() && self.empty.backend_of() == Backend::Empty
        &&& self.metal.wf() && self.metal.backend_of() == Backend::Metal
        &&& self.gl.wf() && self.gl.backend_of() == Backend::Gl
    }

    pub open spec fn is_empty(self) -> bool {
        self.empty.is_empty() && self.metal.is_empty() && self.gl.is_empty()
    }

    pub fn new() -> (r: Hubs)
        ensures
            r.wf(),
            r.is_empty(),
    {
        Hubs {
            empty: Hub::new(Backend::Empty),
            metal: Hub::new(Backend::Metal),
            gl: Hub::new(Backend::Gl),
        }
    }
}

} // verus!
