//! A resource-identity and registry layer for a multi-backend graphics API.
//!
//! The crate mints, validates and resolves opaque generational handles to
//! GPU-side objects (adapters, devices, textures, surfaces) across several
//! isolated native backends, and gates every object's construction behind
//! capability validation before any native resource would be touched.
//!
//! * [`identity::IdentityManager`] allocates generational indices.
//! * [`storage::Storage`] maps an index to a vacant slot, a value, or an
//!   error placeholder, each stamped with the epoch that minted it.
//! * [`registry::Registry`] couples one identity manager and one storage
//!   with a fixed backend tag for one resource kind.
//! * [`hub::Hub`] owns one registry per resource kind for one backend, and
//!   [`global::Global`] owns one hub per backend plus a backend-independent
//!   surface registry.

pub mod backend;
pub mod device;
pub mod error;
pub mod features;
pub mod format;
pub mod global;
pub mod hub;
pub mod id;
pub mod identity;
pub mod instance;
pub mod registry;
pub mod resource;
pub mod storage;

pub use backend::Backend;
pub use backend::Backends;
pub use device::Device;
pub use device::DeviceDescriptor;
pub use error::CreateTextureError;
pub use error::InvalidHandle;
pub use error::RequestAdapterError;
pub use error::RequestDeviceError;
pub use features::Features;
pub use format::AstcBlock;
pub use format::AstcChannel;
pub use format::TextureFormat;
pub use global::device_create_texture;
pub use global::Global;
pub use id::AdapterId;
pub use id::DeviceId;
pub use id::Id;
pub use id::SurfaceId;
pub use id::TextureId;
pub use instance::Adapter;
pub use instance::AdapterInputs;
pub use instance::Surface;
pub use resource::Texture;
pub use resource::TextureDescriptor;
pub use resource::TextureUsages;
