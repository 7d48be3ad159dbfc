//! The root object of the API.
//!
//! A [`Global`] owns one [`Hub`] per backend plus the backend-independent
//! surface registry. Every public operation decodes the backend tag of
//! the incoming handle (or reads the caller's selection mask), dispatches
//! to that backend's hub, and returns a handle paired with an optional
//! error; the handle stays resolvable even when the operation fails.

use vstd::prelude::*;
use vstd::pervasive::unreached;

use crate::backend::Backend;
use crate::device::DeviceDescriptor;
use crate::error::CreateTextureError;
use crate::error::RequestAdapterError;
use crate::error::RequestDeviceError;
use crate::hub::create_texture_post;
use crate::hub::request_device_post;
use crate::hub::Hub;
use crate::hub::Hubs;
use crate::hub::Token;
use crate::id::AdapterId;
use crate::id::DeviceId;
use crate::id::TextureId;
use crate::instance::Adapter;
use crate::instance::AdapterInputs;
use crate::instance::Surface;
use crate::registry::Registry;
use crate::resource::TextureDescriptor;
use crate::storage::Element;

verus! {

/// The root object: one hub per backend, and the surface registry they
/// all share.
pub struct Global {
    pub surfaces: Registry<Surface>,
    pub hubs: Hubs,
}

impl Global {
    pub open spec fn wf(self) -> bool {
        &&& self.surfaces.wf()
        &&& self.surfaces.backend == Backend::Empty
        &&& self.hubs.wf()
    }

    /// The hub the backend tag `b` routes to.
    pub open spec fn spec_hub(self, b: Backend) -> Hub {
        match b {
            Backend::Empty => self.hubs.empty,
            Backend::Metal => self.hubs.metal,
            Backend::Gl => self.hubs.gl,
        }
    }

    /// Everything of `other` besides backend `b`'s hub is as in `self`.
    pub open spec fn only_hub_changed(self, other: Global, b: Backend) -> bool {
        &&& other.surfaces == self.surfaces
        &&& (b != Backend::Empty ==> other.hubs.empty == self.hubs.empty)
        &&& (b != Backend::Metal ==> other.hubs.metal == self.hubs.metal)
        &&& (b != Backend::Gl ==> other.hubs.gl == self.hubs.gl)
    }

    /// A fresh session: every registry of every hub is empty.
    pub fn new() -> (r: Global)
        ensures
            r.wf(),
            r.surfaces.is_empty(),
            r.hubs.is_empty(),
    {
        Global { surfaces: Registry::without_backend(), hubs: Hubs::new() }
    }

    /// Mints an adapter on `backend`'s hub, or reports that the process
    /// exposes no adapter for it. Only the Metal backend yields adapters
    /// in this build.
    fn select(&mut self, backend: Backend) -> (r: Option<AdapterId>)
        requires
            old(self).wf(),
            backend == Backend::Metal ==> old(self).hubs.metal.adapters.can_reserve(),
        ensures
            final(self).wf(),
            backend != Backend::Metal ==> r is None && *final(self) == *old(self),
            backend == Backend::Metal ==> (r matches Some(id) && {
                &&& old(self).only_hub_changed(*final(self), Backend::Metal)
                &&& id.wf()
                &&& id.spec_backend() == Backend::Metal
                &&& id.spec_index() == old(self).hubs.metal.adapters.data.map@.len()
                &&& id.spec_epoch() == 1
                &&& final(self).hubs.metal.adapters.data.map@ == old(
                    self,
                ).hubs.metal.adapters.data.map@.push(Element::Occupied(Adapter {  }, 1u32))
                &&& final(self).hubs.metal.adapters.identity.epochs@ == old(
                    self,
                ).hubs.metal.adapters.identity.epochs@.push(1u32)
                &&& final(self).hubs.metal.adapters.spec_get(id) == Some(Adapter {  })
                &&& final(self).hubs.metal.devices == old(self).hubs.metal.devices
                &&& final(self).hubs.metal.textures == old(self).hubs.metal.textures
            }),
    {
        match backend {
            Backend::Metal => {
                let mut token = Token::root();
                let id = self.hubs.metal.select_adapter(&mut token);
                Some(id)
            },
            _ => None,
        }
    }

    /// Picks a backend accepted by `inputs` among those the process
    /// exposes and mints a fresh adapter handle on its hub; reports
    /// `NotFound` when the selection excludes every exposed backend.
    pub fn request_adapter(&mut self, inputs: AdapterInputs) -> (r: Result<
        AdapterId,
        RequestAdapterError,
    >)
        requires
            old(self).wf(),
            old(self).hubs.metal.adapters.can_reserve(),
        ensures
            final(self).wf(),
            !inputs.spec_includes(Backend::Metal) ==> r == Err::<AdapterId, RequestAdapterError>(
                RequestAdapterError::NotFound,
            ) && *final(self) == *old(self),
            inputs.spec_includes(Backend::Metal) ==> (r matches Ok(id) && {
                &&& old(self).only_hub_changed(*final(self), Backend::Metal)
                &&& id.wf()
                &&& id.spec_backend() == Backend::Metal
                &&& id.spec_index() == old(self).hubs.metal.adapters.data.map@.len()
                &&& id.spec_epoch() == 1
                &&& final(self).hubs.metal.adapters.data.map@ == old(
                    self,
                ).hubs.metal.adapters.data.map@.push(Element::Occupied(Adapter {  }, 1u32))
                &&& final(self).hubs.metal.adapters.identity.epochs@ == old(
                    self,
                ).hubs.metal.adapters.identity.epochs@.push(1u32)
                &&& final(self).hubs.metal.adapters.spec_get(id) == Some(Adapter {  })
                &&& final(self).hubs.metal.devices == old(self).hubs.metal.devices
                &&& final(self).hubs.metal.textures == old(self).hubs.metal.textures
            }),
    {
        let mut token = Token::root();
        // Surfaces sit at the root of the acquisition hierarchy: they are
        // read before any hub is touched, in the same order every
        // operation uses.
        let (_surface_guard, _surface_token) = self.surfaces.read(&mut token);
        if inputs.find(Backend::Metal) {
            match self.select(Backend::Metal) {
                Some(id) => Ok(id),
                None => unreached(),
            }
        } else {
            Err(RequestAdapterError::NotFound)
        }
    }

    /// Resolves the adapter handle on the hub its tag routes to,
    /// constructs a device from the descriptor and registers it. The
    /// returned device handle is fresh and always resolvable; an
    /// unresolvable adapter pairs it with `InvalidAdapter` and binds it
    /// to a diagnostic placeholder instead of a device.
    pub fn adapter_request_device(&mut self, adapter_id: AdapterId, desc: &DeviceDescriptor) -> (r:
        (DeviceId, Option<RequestDeviceError>))
        requires
            old(self).wf(),
            adapter_id.wf(),
            old(self).spec_hub(adapter_id.spec_backend()).devices.can_reserve(),
        ensures
            final(self).wf(),
            old(self).only_hub_changed(*final(self), adapter_id.spec_backend()),
            request_device_post(
                old(self).spec_hub(adapter_id.spec_backend()),
                final(self).spec_hub(adapter_id.spec_backend()),
                adapter_id,
                *desc,
                r,
            ),
    {
        let mut token = Token::root();
        match adapter_id.backend() {
            Backend::Empty => self.hubs.empty.request_device(adapter_id, desc, &mut token),
            Backend::Metal => self.hubs.metal.request_device(adapter_id, desc, &mut token),
            Backend::Gl => self.hubs.gl.request_device(adapter_id, desc, &mut token),
        }
    }

    /// Resolves the device handle on the hub its tag routes to,
    /// validates the descriptor's format against the device's capability
    /// set, and registers the texture placeholder. The returned texture
    /// handle is fresh and always resolvable; a missing capability pairs
    /// it with exactly `MissingCapability(required)` and binds it to a
    /// diagnostic placeholder, constructing no texture.
    pub fn device_create_texture(&mut self, device_id: DeviceId, desc: &TextureDescriptor) -> (r: (
        TextureId,
        Option<CreateTextureError>,
    ))
        requires
            old(self).wf(),
            device_id.wf(),
            old(self).spec_hub(device_id.spec_backend()).textures.can_reserve(),
        ensures
            final(self).wf(),
            old(self).only_hub_changed(*final(self), device_id.spec_backend()),
            create_texture_post(
                old(self).spec_hub(device_id.spec_backend()),
                final(self).spec_hub(device_id.spec_backend()),
                device_id,
                *desc,
                r,
            ),
    {
        let mut token = Token::root();
        match device_id.backend() {
            Backend::Empty => self.hubs.empty.create_texture(device_id, desc, &mut token),
            Backend::Metal => self.hubs.metal.create_texture(device_id, desc, &mut token),
            Backend::Gl => self.hubs.gl.create_texture(device_id, desc, &mut token),
        }
    }
}

/// Requesting a device against an adapter handle whose index the routed
/// hub never issued is rejected with `InvalidAdapter` — and still pairs
/// the rejection with a handle that resolves, to a diagnostic
/// placeholder, in that hub's device registry.
pub proof fn lemma_unissued_adapter_rejected(
    g0: Global,
    g1: Global,
    adapter_id: AdapterId,
    desc: DeviceDescriptor,
    r: (DeviceId, Option<RequestDeviceError>),
)
    requires
        g0.wf(),
        adapter_id.wf(),
        adapter_id.spec_index() >= g0.spec_hub(adapter_id.spec_backend()).adapters.identity
            .n_slots(),
        request_device_post(
            g0.spec_hub(adapter_id.spec_backend()),
            g1.spec_hub(adapter_id.spec_backend()),
            adapter_id,
            desc,
            r,
        ),
    ensures
        r.1 == Some(RequestDeviceError::InvalidAdapter),
        g1.spec_hub(adapter_id.spec_backend()).devices.resolvable(r.0),
{
    crate::registry::lemma_unissued_index_unresolvable(
        g0.spec_hub(adapter_id.spec_backend()).adapters,
        adapter_id,
    );
}

/// Creates a texture on the device's hub; a convenience entry point with
/// the same contract as [`Global::device_create_texture`].
pub fn device_create_texture(
    global: &mut Global,
    device: &DeviceId,
    desc: &TextureDescriptor,
) -> (r: (TextureId, Option<CreateTextureError>))
    requires
        old(global).wf(),
        device.wf(),
        old(global).spec_hub(device.spec_backend()).textures.can_reserve(),
    ensures
        final(global).wf(),
        old(global).only_hub_changed(*final(global), device.spec_backend()),
        create_texture_post(
            old(global).spec_hub(device.spec_backend()),
            final(global).spec_hub(device.spec_backend()),
            *device,
            *desc,
            r,
        ),
{
    global.device_create_texture(*device, desc)
}

} // verus!
