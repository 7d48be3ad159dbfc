//! Per-resource-kind allocation of generational indices.
//!
//! An [`IdentityManager`] owns a free list and an epoch table. Allocation
//! pops a retired index from the free list (reusing its stored epoch) if
//! one exists, and otherwise appends a new slot with epoch one. Freeing a
//! handle retires its index and bumps the slot's epoch, so every stale
//! handle to the slot is detectable on its next lookup and the next
//! allocation of the index mints a never-before-issued `(index, epoch)`
//! pair.

use vstd::prelude::*;

use crate::backend::Backend;
use crate::id::Epoch;
use crate::id::Id;
use crate::id::Index;
use crate::id::EPOCH_MASK;

verus! {

/// Allocator of generational indices for one resource kind.
pub struct IdentityManager {
    /// Indices that have been freed and may be reused.
    pub free: Vec<Index>,
    /// The current epoch of every index ever issued; the table's length is
    /// the number of distinct indices issued so far.
    pub epochs: Vec<Epoch>,
}

impl IdentityManager {
    /// How many distinct indices have ever been issued.
    pub open spec fn n_slots(self) -> int {
        self.epochs@.len() as int
    }

    /// Whether index `i` is currently allocated: issued at some point and
    /// not since freed. The handle live at `i` carries epoch
    /// `self.epochs@[i]`.
    pub open spec fn live(self, i: int) -> bool {
        0 <= i < self.n_slots() && !self.free@.contains(i as u32)
    }

    /// Every epoch is nonzero and within its bit budget, every free index
    /// was issued, and no index is in the free list twice.
    pub open spec fn wf(self) -> bool {
        &&& self.epochs@.len() <= 0xFFFF_FFFF
        &&& forall|i: int|
            0 <= i < self.epochs@.len() ==> 1 <= #[trigger] self.epochs@[i] <= EPOCH_MASK
        &&& forall|k: int|
            0 <= k < self.free@.len() ==> (#[trigger] self.free@[k] as int) < self.epochs@.len()
        &&& forall|k1: int, k2: int|
            0 <= k1 < k2 < self.free@.len() ==> self.free@[k1] != self.free@[k2]
    }

    /// Mints a handle for `backend` whose `(index, epoch)` pair is not
    /// live anywhere else: the index is either fresh or a freed one whose
    /// epoch was bumped when it was retired. Infallible; it only needs the
    /// number of issued indices to stay within the index bit budget, which
    /// the bit budget of a handle forces.
    pub fn allocate<T>(&mut self, backend: Backend) -> (r: Id<T>)
        requires
            old(self).wf(),
            old(self).n_slots() < 0xFFFF_FFFF,
        ensures
            final(self).wf(),
            r.wf(),
            r.spec_backend() == backend,
            0 <= r.spec_index() < final(self).n_slots(),
            !old(self).live(r.spec_index()),
            final(self).live(r.spec_index()),
            r.spec_epoch() == final(self).epochs@[r.spec_index()],
            old(self).n_slots() <= final(self).n_slots() <= old(self).n_slots() + 1,
            forall|i: int|
                0 <= i < old(self).n_slots() ==> final(self).epochs@[i] == old(self).epochs@[i],
            forall|i: int|
                0 <= i < final(self).n_slots() && i != r.spec_index() ==> (final(self).live(i)
                    <==> old(self).live(i)),
            old(self).free@.len() == 0 ==> {
                &&& r.spec_index() == old(self).n_slots()
                &&& r.spec_epoch() == 1
                &&& final(self).n_slots() == old(self).n_slots() + 1
                &&& final(self).epochs@ == old(self).epochs@.push(1u32)
                &&& final(self).free@ == old(self).free@
            },
    {
        match self.free.pop() {
            Some(index) => {
                let epoch = self.epochs[index as usize];
                let r = Id::zip(index, epoch, backend);
                proof {
                    let prior = old(self).free@;
                    assert(prior[prior.len() - 1] == index);
                    assert(prior.contains(index));
                    assert forall|j: u32| j != index implies (self.free@.contains(j) <==> prior.contains(
                        j,
                    )) by {
                        if self.free@.contains(j) {
                            let k = choose|k: int|
                                0 <= k < self.free@.len() && self.free@[k] == j;
                            assert(prior[k] == j);
                        }
                        if prior.contains(j) {
                            let k = choose|k: int| 0 <= k < prior.len() && prior[k] == j;
                            assert(k != prior.len() - 1);
                            assert(self.free@[k] == j);
                        }
                    }
                    assert(!self.free@.contains(index)) by {
                        if self.free@.contains(index) {
                            let k = choose|k: int|
                                0 <= k < self.free@.len() && self.free@[k] == index;
                            assert(prior[k] == prior[prior.len() - 1]);
                        }
                    }
                }
                r
            },
            None => {
                let epoch: Epoch = 1;
                let index = self.epochs.len() as u32;
                let r = Id::zip(index, epoch, backend);
                self.epochs.push(epoch);
                proof {
                    assert(!old(self).free@.contains(index));
                    assert(!self.free@.contains(index));
                }
                r
            },
        }
    }

    /// Retires the one handle currently live at its index. The slot's
    /// epoch is bumped at once, so the retired handle (and every older one
    /// for the slot) stays detectably stale forever. A slot whose epoch
    /// has reached its bit budget cannot be retired again: bumping it
    /// would overflow the budget, which is a fatal allocator fault, so the
    /// precondition excludes it.
    pub fn free<T>(&mut self, id: Id<T>)
        requires
            old(self).wf(),
            id.wf(),
            old(self).live(id.spec_index()),
            id.spec_epoch() == old(self).epochs@[id.spec_index()],
            old(self).epochs@[id.spec_index()] < EPOCH_MASK,
        ensures
            final(self).wf(),
            final(self).n_slots() == old(self).n_slots(),
            !final(self).live(id.spec_index()),
            final(self).epochs@ == old(self).epochs@.update(
                id.spec_index(),
                (old(self).epochs@[id.spec_index()] + 1) as u32,
            ),
            final(self).free@ == old(self).free@.push(id.spec_index() as u32),
            forall|i: int|
                0 <= i < old(self).n_slots() && i != id.spec_index() ==> (final(self).live(i)
                    <==> old(self).live(i)),
    {
        let (index, _, _) = id.unzip();
        let epoch = self.epochs[index as usize];
        self.epochs[index as usize] = epoch + 1;
        self.free.push(index);
        proof {
            let now = self.free@;
            let prior = old(self).free@;
            assert(now[now.len() - 1] == index);
            assert(now.contains(index));
            assert forall|j: u32| j != index implies (now.contains(j) <==> prior.contains(j)) by {
                if now.contains(j) {
                    let k = choose|k: int| 0 <= k < now.len() && now[k] == j;
                    assert(k != now.len() - 1);
                    assert(prior[k] == j);
                }
                if prior.contains(j) {
                    let k = choose|k: int| 0 <= k < prior.len() && prior[k] == j;
                    assert(now[k] == j);
                }
            }
            assert forall|k1: int, k2: int| 0 <= k1 < k2 < now.len() implies now[k1] != now[k2] by {
                if k2 == now.len() - 1 {
                    assert(!prior.contains(index));
                    assert(prior[k1] == now[k1]);
                }
            }
        }
    }
}

impl Default for IdentityManager {
    /// A manager that has issued no index yet.
    fn default() -> (r: IdentityManager)
        ensures
            r.wf(),
            r.n_slots() == 0,
            r.free@.len() == 0,
    {
        IdentityManager { free: Vec::new(), epochs: Vec::new() }
    }
}

} // verus!
