//! The strong handle.
//!
//! A `Pointer` keeps its component alive: its creation journalled (or
//! directly recorded) one add-ref, cloning it journals another, and dropping
//! it journals a sub-ref. None of these touch the storage, so handles can be
//! cloned and dropped while the storage is borrowed elsewhere; the next
//! `sync_pending` settles the counts.

use vstd::prelude::*;

use crate::bitfield::{PointerData, INDEX_MASK};
use crate::journal::{journal_push_add, journal_push_sub, journal_share, PendingRef};
use core::marker::PhantomData;

verus! {

/// The error returned when upgrading a weak handle whose component has been
/// replaced or destroyed.
#[derive(Debug, PartialEq, Eq, Structural)]
pub struct DeadComponentError;

/// A reference-counted handle to a component of type `T` in some storage.
///
/// The handle is the packed `(storage_id, epoch, index)` word plus a shared
/// reference to the journal of its storage. Equality, ordering and hashing
/// go by the packed word alone. The handle deliberately does not implement
/// the standard `Hash` trait, which cannot carry a contract here: to hash a
/// handle or key a map by it, use the word that [`Pointer::hash_value`]
/// returns.
#[derive(Debug)]
pub struct Pointer<T> {
    pub(crate) data: PointerData,
    pub(crate) pending: PendingRef,
    pub(crate) marker: PhantomData<T>,
}

impl<T> View for Pointer<T> {
    type V = PointerData;

    open(crate) spec fn view(&self) -> PointerData {
        self.data
    }
}

impl<T> Pointer<T> {
    /// Creates a new `WeakPointer` to this component.
    pub fn downgrade(&self) -> (r: crate::weak::WeakPointer<T>)
        ensures
            r@ == self@,
    {
        crate::weak::from_pointer(self)
    }

    /// The packed word as a hash: equal handles hash equally.
    pub fn hash_value(&self) -> (r: u64)
        ensures
            r == self@.0,
    {
        self.data.0
    }
}

impl<T> Clone for Pointer<T> {
    /// Cloning journals one add-ref for the slot and hands back a handle
    /// with the same packed word, sharing the same journal.
    fn clone(&self) -> (r: Pointer<T>)
        ensures
            r@ == self@,
    {
        journal_push_add(&self.pending, self.data.get_index());
        Pointer { data: self.data, pending: journal_share(&self.pending), marker: PhantomData }
    }
}

impl<T> Drop for Pointer<T> {
    /// Dropping journals one sub-ref for the slot.
    fn drop(&mut self)
        opens_invariants none
        no_unwind
    {
        journal_push_sub(&self.pending, (self.data.0 & INDEX_MASK) as usize);
    }
}

impl<T> PartialEq for Pointer<T> {
    fn eq(&self, other: &Pointer<T>) -> (r: bool) {
        self.data == other.data
    }
}

impl<T> Eq for Pointer<T> {}

impl<T> vstd::std_specs::cmp::PartialEqSpecImpl for Pointer<T> {
    open spec fn obeys_eq_spec() -> bool {
        true
    }

    open spec fn eq_spec(&self, other: &Pointer<T>) -> bool {
        self@ == other@
    }
}

/// The ordering of two handles: by index within one storage, incomparable
/// across storages.
pub open spec fn spec_handle_cmp(a: PointerData, b: PointerData) -> Option<core::cmp::Ordering> {
    if a.spec_storage_id() == b.spec_storage_id() {
        if a.spec_index() < b.spec_index() {
            Some(core::cmp::Ordering::Less)
        } else if a.spec_index() == b.spec_index() {
            Some(core::cmp::Ordering::Equal)
        } else {
            Some(core::cmp::Ordering::Greater)
        }
    } else {
        None
    }
}

impl<T> PartialOrd for Pointer<T> {
    /// Handles from one storage order by slot index; handles from different
    /// storages are incomparable.
    fn partial_cmp(&self, other: &Pointer<T>) -> (r: Option<core::cmp::Ordering>) {
        if self.data.get_storage_id() == other.data.get_storage_id() {
            if self.data.get_index() < other.data.get_index() {
                Some(core::cmp::Ordering::Less)
            } else if self.data.get_index() == other.data.get_index() {
                Some(core::cmp::Ordering::Equal)
            } else {
                Some(core::cmp::Ordering::Greater)
            }
        } else {
            None
        }
    }
}

impl<T> vstd::std_specs::cmp::PartialOrdSpecImpl for Pointer<T> {
    open spec fn obeys_partial_cmp_spec() -> bool {
        true
    }

    open spec fn partial_cmp_spec(&self, other: &Pointer<T>) -> Option<core::cmp::Ordering> {
        spec_handle_cmp(self@, other@)
    }
}

} // verus!
