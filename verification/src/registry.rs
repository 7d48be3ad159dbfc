//! One resource kind's registry: an identity manager plus a storage,
//! tagged with one backend.
//!
//! Registration is two-phase. `prepare` mints a handle before the object
//! exists, so that even failed construction can later be bound to a
//! resolvable handle; `assign` (or `assign_error`) finalizes the slot.
//! The split also keeps identity minting and content insertion separate
//! critical sections: no content access spans a possibly expensive
//! construction. In a concurrent deployment the identity manager and the
//! storage would sit behind their own locks; here exclusive access is
//! carried by `&mut` borrows, and the parent-before-child ordering of
//! those accesses stays compile-time through the [`Token`] hierarchy.

use vstd::prelude::*;

use crate::backend::Backend;
use crate::hub::Access;
use crate::hub::Token;
use crate::id::Id;
use crate::identity::IdentityManager;
use crate::storage::Element;
use crate::storage::Storage;

verus! {

/// The registry of one resource kind for one backend.
pub struct Registry<T> {
    /// Mints the registry's handles.
    pub identity: IdentityManager,
    /// Maps a minted handle to the object it was finalized with.
    pub data: Storage<T>,
    /// The tag every handle minted here carries.
    pub backend: Backend,
}

/// A handle minted by `prepare`, waiting to be finalized by `assign` or
/// `assign_error`. Its handle is already fixed, but not yet resolvable.
#[must_use]
pub struct FutureId<T> {
    /// The handle that will be returned once the slot is finalized.
    pub id: Id<T>,
}

impl<T> Registry<T> {
    /// The slot at `i` is finalized and stamped with the epoch the
    /// identity manager holds for `i`.
    pub open spec fn slot_current(self, i: int) -> bool {
        match self.data.map@[i] {
            Element::Occupied(_, e) => e == self.identity.epochs@[i],
            Element::Error(e) => e == self.identity.epochs@[i],
            Element::Vacant => false,
        }
    }

    /// The registry invariant: the identity manager is well-formed and
    /// has retired nothing (this layer never frees), every minted index
    /// has been finalized, and every slot carries its index's current
    /// epoch.
    pub open spec fn wf(self) -> bool {
        &&& self.identity.wf()
        &&& self.identity.free@.len() == 0
        &&& self.data.map@.len() == self.identity.epochs@.len()
        &&& forall|i: int| 0 <= i < self.data.map@.len() ==> #[trigger] self.slot_current(i)
    }

    /// No handle has been minted here yet.
    pub open spec fn is_empty(self) -> bool {
        self.identity.n_slots() == 0 && self.data.map@.len() == 0
    }

    /// The handle is simultaneously live in this registry: its index is
    /// allocated, its epoch is the index's current epoch, and it carries
    /// this registry's backend tag.
    pub open spec fn live_handle(self, id: Id<T>) -> bool {
        &&& id.wf()
        &&& self.identity.live(id.spec_index())
        &&& id.spec_epoch() == self.identity.epochs@[id.spec_index()]
        &&& id.spec_backend() == self.backend
    }

    /// What the handle resolves to.
    pub open spec fn spec_get(self, id: Id<T>) -> Option<T> {
        self.data.spec_get(id)
    }

    /// Whether the handle still resolves, to a value or to an error
    /// placeholder.
    pub open spec fn resolvable(self, id: Id<T>) -> bool {
        self.data.resolvable(id)
    }

    /// The index bit budget leaves room for one more reservation.
    pub open spec fn can_reserve(self) -> bool {
        self.identity.n_slots() < 0xFFFF_FFFF
    }

    /// An empty registry whose handles will carry `backend`.
    pub fn new(backend: Backend) -> (r: Registry<T>)
        ensures
            r.wf(),
            r.is_empty(),
            r.backend == backend,
    {
        let identity: IdentityManager = Default::default();
        Registry { identity, data: Storage { map: Vec::new() }, backend }
    }

    /// An empty registry for a backend-independent resource kind; its
    /// handles carry the dummy backend tag.
    pub fn without_backend() -> (r: Registry<T>)
        ensures
            r.wf(),
            r.is_empty(),
            r.backend == Backend::Empty,
    {
        Registry::new(Backend::Empty)
    }

    /// The state between `prepare` and `assign`: one handle is minted
    /// but its slot is not written yet.
    pub open spec fn pending(self, fid: FutureId<T>) -> bool {
        &&& self.identity.wf()
        &&& self.identity.free@.len() == 0
        &&& self.data.map@.len() + 1 == self.identity.epochs@.len()
        &&& forall|i: int| 0 <= i < self.data.map@.len() ==> #[trigger] self.slot_current(i)
        &&& fid.id.wf()
        &&& fid.id.spec_index() == self.data.map@.len()
        &&& fid.id.spec_epoch() == self.identity.epochs@[fid.id.spec_index()]
        &&& fid.id.spec_backend() == self.backend
    }

    /// Mints the handle for an object that does not exist yet. The slot
    /// is finalized later by [`FutureId::assign`] or
    /// [`FutureId::assign_error`]; until then the handle is not
    /// resolvable by lookup.
    pub fn prepare(&mut self) -> (r: FutureId<T>)
        requires
            old(self).wf(),
            old(self).can_reserve(),
        ensures
            final(self).pending(r),
            final(self).backend == old(self).backend,
            final(self).data == old(self).data,
            final(self).identity.epochs@ == old(self).identity.epochs@.push(1u32),
            r.id.spec_index() == old(self).data.map@.len(),
            r.id.spec_epoch() == 1,
            !final(self).resolvable(r.id),
    {
        let id = self.identity.allocate(self.backend);
        proof {
            assert forall|i: int| 0 <= i < self.data.map@.len() implies #[trigger] self
                .slot_current(i) by {
                assert(old(self).slot_current(i));
            }
        }
        FutureId { id }
    }

    /// Shared access to the registry's contents for lookups. The token
    /// witnesses that every lock above this registry in the hierarchy is
    /// already held; the returned token unlocks the level below.
    pub fn read<'a, A: Access<T>>(&'a self, _token: &'a mut Token<A>) -> (r: (
        &'a Storage<T>,
        Token<T>,
    ))
        ensures
            *r.0 == self.data,
    {
        (&self.data, Token::new())
    }
}

impl<T> FutureId<T> {
    /// Finalizes the reserved slot with a constructed value. The handle
    /// becomes resolvable — to exactly this value — only now.
    pub fn assign<A: Access<T>>(
        self,
        registry: &mut Registry<T>,
        value: T,
        _token: &mut Token<A>,
    ) -> (r: Id<T>)
        requires
            old(registry).pending(self),
        ensures
            final(registry).wf(),
            r == self.id,
            final(registry).backend == old(registry).backend,
            final(registry).identity == old(registry).identity,
            final(registry).data.map@ == old(registry).data.map@.push(
                Element::Occupied(value, self.id.spec_epoch()),
            ),
            final(registry).spec_get(r) == Some(value),
            final(registry).resolvable(r),
            final(registry).live_handle(r),
    {
        registry.data.insert(self.id, value);
        proof {
            assert(registry.data.map@ =~= old(registry).data.map@.push(
                Element::Occupied(value, self.id.spec_epoch()),
            ));
            assert forall|i: int| 0 <= i < registry.data.map@.len() implies #[trigger] registry
                .slot_current(i) by {
                if i < old(registry).data.map@.len() {
                    assert(old(registry).slot_current(i));
                }
            }
        }
        self.id
    }

    /// Finalizes the reserved slot with an error placeholder, so the
    /// handle still resolves for diagnostics even though construction
    /// failed.
    pub fn assign_error<A: Access<T>>(
        self,
        registry: &mut Registry<T>,
        _token: &mut Token<A>,
    ) -> (r: Id<T>)
        requires
            old(registry).pending(self),
        ensures
            final(registry).wf(),
            r == self.id,
            final(registry).backend == old(registry).backend,
            final(registry).identity == old(registry).identity,
            final(registry).data.map@ == old(registry).data.map@.push(
                Element::<T>::Error(self.id.spec_epoch()),
            ),
            final(registry).spec_get(r) is None,
            final(registry).resolvable(r),
            final(registry).live_handle(r),
    {
        registry.data.insert_error(self.id);
        proof {
            assert(registry.data.map@ =~= old(registry).data.map@.push(
                Element::<T>::Error(self.id.spec_epoch()),
            ));
            assert forall|i: int| 0 <= i < registry.data.map@.len() implies #[trigger] registry
                .slot_current(i) by {
                if i < old(registry).data.map@.len() {
                    assert(old(registry).slot_current(i));
                }
            }
        }
        self.id
    }
}

/// No two distinct simultaneously live handles of one registry share
/// `(index, epoch)`: distinct live handles differ already in their index,
/// because at any time one index carries exactly one current epoch and
/// one backend tag, and the handle encoding is injective.
pub proof fn lemma_live_handles_distinct<T>(reg: Registry<T>, a: Id<T>, b: Id<T>)
    requires
        reg.wf(),
        reg.live_handle(a),
        reg.live_handle(b),
        a.raw != b.raw,
    ensures
        a.spec_index() != b.spec_index(),
        !(a.spec_index() == b.spec_index() && a.spec_epoch() == b.spec_epoch()),
{
    if a.spec_index() == b.spec_index() {
        crate::id::lemma_id_encoding_injective(a, b);
    }
}

/// A handle whose index was never issued by the registry does not
/// resolve at all — lookups report `InvalidHandle`, never some other
/// object present in the registry.
pub proof fn lemma_unissued_index_unresolvable<T>(reg: Registry<T>, id: Id<T>)
    requires
        reg.wf(),
        id.spec_index() >= reg.identity.n_slots(),
    ensures
        reg.spec_get(id) is None,
        !reg.resolvable(id),
{
}

/// A stale handle — one whose epoch is no longer its slot's current
/// epoch — does not resolve to the slot's present occupant.
pub proof fn lemma_stale_epoch_unresolvable<T>(reg: Registry<T>, id: Id<T>)
    requires
        reg.wf(),
        0 <= id.spec_index() < reg.identity.n_slots(),
        id.spec_epoch() != reg.identity.epochs@[id.spec_index()],
    ensures
        reg.spec_get(id) is None,
        !reg.resolvable(id),
{
    assert(reg.slot_current(id.spec_index()));
}

} // verus!
