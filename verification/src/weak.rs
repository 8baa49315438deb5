//! The weak handle.
//!
//! A `WeakPointer` carries the same packed word as the strong handle it came
//! from, but does not retain the component: cloning and dropping it journal
//! nothing. Upgrading compares the stored epoch with the live epoch of the
//! slot; only the same incarnation upgrades.

use vstd::prelude::*;

use crate::bitfield::PointerData;
use crate::journal::{journal_share, journal_try_upgrade, PendingRef};
use crate::pointer::{DeadComponentError, Pointer};
use core::marker::PhantomData;

verus! {

/// Weak variant of [`Pointer`]: does not keep the component alive, and is
/// the tool for breaking reference cycles.
#[derive(Debug)]
pub struct WeakPointer<T> {
    pub(crate) data: PointerData,
    pub(crate) pending: PendingRef,
    pub(crate) marker: PhantomData<T>,
}

impl<T> View for WeakPointer<T> {
    type V = PointerData;

    open(crate) spec fn view(&self) -> PointerData {
        self.data
    }
}

impl<T> WeakPointer<T> {
    /// Upgrades the `WeakPointer` to a `Pointer`, if possible.
    ///
    /// The journal decides under its lock, by `Pending::try_upgrade`: the
    /// upgrade succeeds exactly when the stored epoch equals the live epoch
    /// of the slot, and then one add-ref is journalled for the new strong
    /// handle.
    ///
    /// # Errors
    /// Returns [`DeadComponentError`] if the component was destroyed or
    /// replaced since this weak handle was stamped.
    pub fn upgrade(&self) -> (r: Result<Pointer<T>, DeadComponentError>)
        ensures
            r matches Ok(p) ==> p@ == self@,
            r matches Err(e) ==> e == DeadComponentError,
    {
        if journal_try_upgrade(&self.pending, self.data.get_index(), self.data.get_epoch()) {
            Ok(
                Pointer {
                    data: self.data,
                    pending: journal_share(&self.pending),
                    marker: PhantomData,
                },
            )
        } else {
            Err(DeadComponentError)
        }
    }
}

/// Creates a new `WeakPointer` from the `Pointer`: same packed word, same
/// shared journal, no add-ref.
pub fn from_pointer<T>(pointer: &Pointer<T>) -> (r: WeakPointer<T>)
    ensures
        r@ == pointer@,
{
    WeakPointer {
        data: pointer.data,
        pending: journal_share(&pointer.pending),
        marker: PhantomData,
    }
}

impl<T> Clone for WeakPointer<T> {
    /// Cloning a weak handle journals nothing.
    fn clone(&self) -> (r: WeakPointer<T>)
        ensures
            r@ == self@,
    {
        WeakPointer { data: self.data, pending: journal_share(&self.pending), marker: PhantomData }
    }
}

impl<T> PartialEq for WeakPointer<T> {
    fn eq(&self, other: &WeakPointer<T>) -> (r: bool) {
        self.data == other.data
    }
}

impl<T> Eq for WeakPointer<T> {}

impl<T> vstd::std_specs::cmp::PartialEqSpecImpl for WeakPointer<T> {
    open spec fn obeys_eq_spec() -> bool {
        true
    }

    open spec fn eq_spec(&self, other: &WeakPointer<T>) -> bool {
        self@ == other@
    }
}

} // verus!
