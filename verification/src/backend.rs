//! Backend tags and backend selection masks.

use vstd::prelude::*;

verus! {

/// A native graphics backend. State is never shared across backends: each
/// backend gets its own hub of registries, and every handle records the
/// backend that minted it in a three-bit tag, so a handle can route itself
/// to the right hub without an extra lookup table.
#[derive(Clone, Copy, PartialEq, Eq, Structural, Debug)]
pub enum Backend {
    /// The dummy backend; it also tags the backend-independent surface
    /// registry, which belongs to no real backend.
    Empty,
    /// The Metal backend, the only one this build exposes adapters for.
    Metal,
    /// The OpenGL ES backend.
    Gl,
}

impl Backend {
    /// The three-bit tag a handle minted for this backend carries.
    pub open spec fn spec_tag(self) -> u32 {
        match self {
            Backend::Empty => 0,
            Backend::Metal => 2,
            Backend::Gl => 5,
        }
    }

    pub fn tag(self) -> (t: u32)
        ensures
            t == self.spec_tag(),
    {
        match self {
            Backend::Empty => 0,
            Backend::Metal => 2,
            Backend::Gl => 5,
        }
    }
}

/// The backend whose tag is `t`. Only the three tags of `Backend::spec_tag`
/// appear in well-formed handles; any other tag would be a forged handle,
/// which every decoding operation excludes by precondition.
pub open spec fn backend_of_tag(t: u32) -> Backend {
    if t == 0 {
        Backend::Empty
    } else if t == 2 {
        Backend::Metal
    } else {
        Backend::Gl
    }
}

/// The selection-mask bit for the Metal backend: bit number
/// `Backend::Metal.spec_tag()`.
pub const METAL: u32 = 1u32 << 2;

/// A set of backends, with one bit per backend tag, used to select which
/// backends an adapter may be requested from.
#[derive(Clone, Copy, PartialEq, Eq, Structural, Debug)]
pub struct Backends {
    pub bits: u32,
}

impl Backends {
    /// Whether the mask selects backend `b`.
    pub open spec fn spec_contains_backend(self, b: Backend) -> bool {
        self.bits & (1u32 << b.spec_tag()) != 0
    }

    /// The empty mask, selecting no backend.
    pub fn empty() -> (r: Backends)
        ensures
            r.bits == 0,
    {
        Backends { bits: 0 }
    }

    /// The mask of every backend this build exposes adapters for.
    pub fn all() -> (r: Backends)
        ensures
            r.bits == METAL,
    {
        Backends { bits: METAL }
    }

    pub fn contains_backend(self, b: Backend) -> (r: bool)
        ensures
            r == self.spec_contains_backend(b),
    {
        let t = b.tag();
        self.bits & (1u32 << t) != 0
    }
}

} // verus!
