//! The shared journal reference and the trusted items around it.
//!
//! A storage and every handle into it share one `Pending` journal behind a
//! spin mutex. Critical sections are single list pushes or one drain, so a
//! spin lock fits. Verus does not reason about the lock itself: the trusted
//! items below take the lock and hand out the locked journal, promising
//! nothing about its contents, and the verified functions after them work
//! on that journal through the exact contracts of [`Pending`]. The one
//! exception is the sub-ref push, which handle drops call and which must
//! not unwind; it stays behind one trusted wrapper.

use vstd::prelude::*;

use crate::bitfield::INDEX_LIMIT;
use crate::pending::{Pending, PendingView};
use crate::storage::StorageInner;
use crate::sync::drains_to;
use std::sync::Arc;

verus! {

#[verifier::external_type_specification]
#[verifier::external_body]
#[verifier::reject_recursive_types(T)]
#[verifier::reject_recursive_types(R)]
pub struct ExMutex<T: ?Sized, R>(spin::mutex::Mutex<T, R>);

#[verifier::external_type_specification]
#[verifier::external_body]
#[verifier::reject_recursive_types(T)]
#[verifier::reject_recursive_types(R)]
pub struct ExMutexGuard<'a, T: 'a + ?Sized, R>(spin::mutex::MutexGuard<'a, T, R>);

#[verifier::external_type_specification]
#[verifier::external_body]
pub struct ExSpin(spin::relax::Spin);

/// A shared, mutex-protected journal.
pub type PendingRef = Arc<spin::Mutex<Pending>>;

/// Relies on `spin::Mutex::new` and `Arc::new`: wraps a fresh journal for
/// sharing.
#[verifier::external_body]
pub(crate) fn journal_new(pending: Pending) -> PendingRef {
    Arc::new(spin::Mutex::new(pending))
}

/// Relies on `Arc::clone`: the returned reference shares the same journal.
#[verifier::external_body]
pub(crate) fn journal_share(pending: &PendingRef) -> (r: PendingRef)
    ensures
        r == *pending,
{
    Arc::clone(pending)
}

/// Relies on `Box::new` and `Box::leak`: the returned value is the address
/// of a private one-byte allocation that stays live for the rest of the
/// process, so no two calls ever return the same value. Addresses are
/// machine-chosen, so nothing is promised of the value.
#[verifier::external_body]
pub(crate) fn fresh_addr() -> usize {
    core::ptr::from_mut(Box::leak(Box::new(0u8))) as usize
}

/// Relies on `spin::Mutex::lock`: takes the lock and returns the guard,
/// which releases it when dropped. What journal state the guard protects
/// depends on every other handle, so nothing is promised of it.
#[verifier::external_body]
pub(crate) fn journal_lock<'a>(pending: &'a PendingRef) -> spin::MutexGuard<'a, Pending> {
    pending.lock()
}

/// Relies on `spin::MutexGuard::deref_mut`: hands out the locked journal.
/// Its contents are untracked, so nothing is promised of the value.
#[verifier::external_body]
pub(crate) fn guard_pending<'a, 'b>(
    guard: &'b mut spin::MutexGuard<'a, Pending>,
) -> &'b mut Pending {
    &mut **guard
}

/// Journal one add-ref for slot `index`, under the journal lock.
pub(crate) fn journal_push_add(pending: &PendingRef, index: usize) {
    let mut guard = journal_lock(pending);
    guard_pending(&mut guard).push_add(index);
}

/// Relies on `spin::Mutex::lock` and on `Vec::push` not panicking for any
/// list a machine can hold: journals one sub-ref under the lock, by
/// `Pending::push_sub`. Dropping a handle calls this, so it must not
/// unwind; an allocation failure while growing the journal aborts rather
/// than panics. This one stays a trusted wrapper because that no-unwind
/// claim about the push is not provable here.
#[verifier::external_body]
pub(crate) fn journal_push_sub(pending: &PendingRef, index: usize)
    opens_invariants none
    no_unwind
{
    pending.lock().push_sub(index);
}

/// Decide a weak handle's upgrade under the journal lock, by
/// `Pending::try_upgrade`: success exactly when `epoch` is the live epoch
/// of the slot, and then one add-ref is journalled. Which way it goes
/// depends on the shared journal, so the result is unconstrained here.
pub(crate) fn journal_try_upgrade(pending: &PendingRef, index: usize, epoch: u16) -> bool {
    let mut guard = journal_lock(pending);
    guard_pending(&mut guard).try_upgrade(index, epoch)
}

/// Journal one add-ref for slot `index` and read its live epoch, under one
/// journal lock, by `Pending::pin_epoch`. The epoch depends on the shared
/// journal, so the result is unconstrained here.
pub(crate) fn journal_pin(pending: &PendingRef, index: usize) -> u16 {
    let mut guard = journal_lock(pending);
    guard_pending(&mut guard).pin_epoch(index)
}

/// Drain a locked journal into the storage's tables, by
/// `Pending::drain_into`: exactly one sync of what the journal held.
fn drain_locked<T>(journal: &mut Pending, inner: &mut StorageInner<T>, id: u8)
    requires
        old(inner)@.meta.len() <= INDEX_LIMIT,
    ensures
        final(inner)@.data == old(inner)@.data,
        drains_to(
            old(inner)@.meta,
            old(inner)@.free,
            old(journal)@,
            id,
            final(inner)@.meta,
            final(inner)@.free,
        ),
{
    journal.drain_into(&mut inner.meta, &mut inner.free_list, id);
}

/// Drain the journal into the storage's tables under one journal lock:
/// exactly one sync, of journal contents that are untracked here, so the
/// contract promises one sync of *some* journal.
pub(crate) fn journal_drain<T>(pending: &PendingRef, inner: &mut StorageInner<T>, id: u8)
    requires
        old(inner)@.meta.len() <= INDEX_LIMIT,
    ensures
        final(inner)@.data == old(inner)@.data,
        exists|ops: PendingView|
            #[trigger] drains_to(
                old(inner)@.meta,
                old(inner)@.free,
                ops,
                id,
                final(inner)@.meta,
                final(inner)@.free,
            ),
{
    let mut guard = journal_lock(pending);
    let journal = guard_pending(&mut guard);
    drain_locked(journal, inner, id);
}

} // verus!
