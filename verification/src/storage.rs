//! The generational slot map backing one registry.
//!
//! A slot is either vacant, occupied by a value, or an error placeholder
//! recording that construction for the slot's handle failed; occupied and
//! placeholder slots are stamped with the epoch of the handle that was
//! finalized into them. A handle resolves to a value only if its embedded
//! epoch equals the slot's stored epoch.

use vstd::prelude::*;
use vstd::pervasive::unreached;

use crate::error::InvalidHandle;
use crate::id::Id;
use crate::id::Epoch;

verus! {

/// One slot of the map.
pub enum Element<T> {
    /// No handle has been finalized at this index (it may be reserved).
    Vacant,
    /// A constructed value, stamped with the epoch that registered it.
    Occupied(T, Epoch),
    /// A diagnostic placeholder: the handle at this index was finalized,
    /// but its construction failed. The handle still resolves — to this
    /// placeholder — so introspection by handle keeps working.
    Error(Epoch),
}

/// A slot map from the index packed in a handle to the object (or error
/// placeholder) the handle was finalized with.
pub struct Storage<T> {
    pub map: Vec<Element<T>>,
}

impl<T> Storage<T> {
    /// The value the handle resolves to: the slot's value when the
    /// handle's index is in bounds and its epoch matches the slot's.
    pub open spec fn spec_get(self, id: Id<T>) -> Option<T> {
        if id.spec_index() < self.map@.len() {
            match self.map@[id.spec_index()] {
                Element::Occupied(v, e) => if e == id.spec_epoch() {
                    Some(v)
                } else {
                    None
                },
                _ => None,
            }
        } else {
            None
        }
    }

    /// Whether the handle was finalized here — with a value or with an
    /// error placeholder — and is still current, so that introspection by
    /// this handle reaches the slot.
    pub open spec fn resolvable(self, id: Id<T>) -> bool {
        id.spec_index() < self.map@.len() && match self.map@[id.spec_index()] {
            Element::Occupied(_, e) => e == id.spec_epoch(),
            Element::Error(e) => e == id.spec_epoch(),
            Element::Vacant => false,
        }
    }

    /// Looks the handle up. An index out of bounds or an epoch differing
    /// from the slot's is the caller's mistake and reports
    /// [`InvalidHandle`]; an in-bounds *vacant* slot would mean a handle
    /// was looked up whose reservation was never finalized — a bug of the
    /// allocator's caller, not of the handle's holder — and is excluded as
    /// a fatal inconsistency rather than reported as a miss.
    pub fn get<'a>(&'a self, id: Id<T>) -> (r: Result<&'a T, InvalidHandle>)
        requires
            id.wf(),
            id.spec_index() < self.map@.len() ==> !(self.map@[id.spec_index()] is Vacant),
        ensures
            match r {
                Ok(v) => self.spec_get(id) == Some(*v),
                Err(e) => self.spec_get(id) is None && e == InvalidHandle,
            },
    {
        let (index, epoch, _) = id.unzip();
        if (index as usize) < self.map.len() {
            match &self.map[index as usize] {
                Element::Occupied(v, e) => if *e == epoch {
                    Ok(v)
                } else {
                    Err(InvalidHandle)
                },
                Element::Error(_) => Err(InvalidHandle),
                Element::Vacant => unreached(),
            }
        } else {
            Err(InvalidHandle)
        }
    }

    /// Whether the handle still resolves, to a value or to an error
    /// placeholder.
    pub fn is_resolvable(&self, id: Id<T>) -> (r: bool)
        requires
            id.wf(),
        ensures
            r == self.resolvable(id),
    {
        let (index, epoch, _) = id.unzip();
        if (index as usize) < self.map.len() {
            match &self.map[index as usize] {
                Element::Occupied(_, e) => *e == epoch,
                Element::Error(e) => *e == epoch,
                Element::Vacant => false,
            }
        } else {
            false
        }
    }

    /// Grows the map to cover `index` (filling any gap with vacant slots)
    /// and writes `element` there. Overwriting a non-vacant slot would be
    /// a double registration at one `(index, epoch)` — a fatal
    /// inconsistency — and is excluded by precondition.
    fn insert_impl(&mut self, index: usize, element: Element<T>)
        requires
            index < old(self).map@.len() ==> old(self).map@[index as int] is Vacant,
            index < usize::MAX,
        ensures
            final(self).map@.len() == (if index < old(self).map@.len() {
                old(self).map@.len() as int
            } else {
                index + 1
            }),
            final(self).map@[index as int] == element,
            forall|j: int|
                0 <= j < old(self).map@.len() && j != index
                    ==> final(self).map@[j] == old(self).map@[j],
            forall|j: int|
                old(self).map@.len() <= j < final(self).map@.len() && j != index
                    ==> final(self).map@[j] is Vacant,
    {
        if index >= self.map.len() {
            while self.map.len() < index
                invariant
                    old(self).map@.len() <= self.map@.len() <= index,
                    index < usize::MAX,
                    forall|j: int|
                        0 <= j < old(self).map@.len() ==> self.map@[j] == old(self).map@[j],
                    forall|j: int|
                        old(self).map@.len() <= j < self.map@.len() ==> self.map@[j] is Vacant,
                decreases index - self.map@.len(),
            {
                self.map.push(Element::Vacant);
            }
            self.map.push(element);
        } else {
            self.map[index] = element;
        }
    }

    /// Finalizes the handle's slot with a constructed value.
    pub fn insert(&mut self, id: Id<T>, value: T)
        requires
            id.wf(),
            id.spec_index() < 0xFFFF_FFFF,
            id.spec_index() < old(self).map@.len() ==> old(self).map@[id.spec_index()] is Vacant,
        ensures
            final(self).map@.len() == (if id.spec_index() < old(self).map@.len() {
                old(self).map@.len() as int
            } else {
                id.spec_index() + 1
            }),
            final(self).map@[id.spec_index()] == Element::Occupied(value, id.spec_epoch()),
            final(self).spec_get(id) == Some(value),
            final(self).resolvable(id),
            forall|j: int|
                0 <= j < old(self).map@.len() && j != id.spec_index() ==> final(self).map@[j]
                    == old(self).map@[j],
            forall|j: int|
                old(self).map@.len() <= j < final(self).map@.len() && j != id.spec_index()
                    ==> final(self).map@[j] is Vacant,
    {
        let (index, epoch, _) = id.unzip();
        self.insert_impl(index as usize, Element::Occupied(value, epoch));
    }

    /// Finalizes the handle's slot with an error placeholder, keeping the
    /// handle resolvable for diagnostics even though construction failed.
    pub fn insert_error(&mut self, id: Id<T>)
        requires
            id.wf(),
            id.spec_index() < 0xFFFF_FFFF,
            id.spec_index() < old(self).map@.len() ==> old(self).map@[id.spec_index()] is Vacant,
        ensures
            final(self).map@.len() == (if id.spec_index() < old(self).map@.len() {
                old(self).map@.len() as int
            } else {
                id.spec_index() + 1
            }),
            final(self).map@[id.spec_index()] == Element::<T>::Error(id.spec_epoch()),
            final(self).spec_get(id) is None,
            final(self).resolvable(id),
            forall|j: int|
                0 <= j < old(self).map@.len() && j != id.spec_index() ==> final(self).map@[j]
                    == old(self).map@[j],
            forall|j: int|
                old(self).map@.len() <= j < final(self).map@.len() && j != id.spec_index()
                    ==> final(self).map@[j] is Vacant,
    {
        let (index, epoch, _) = id.unzip();
        self.insert_impl(index as usize, Element::Error(epoch));
    }
}

} // verus!
