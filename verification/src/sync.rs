//! The mathematical model of draining the journal into a storage.
//!
//! `sync_spec` says exactly what one sync does to the refcount table, the
//! epoch table and the free list, for any journal contents: first the epoch
//! table is padded with zeros up to the refcount table's length, then every
//! journalled add-ref bumps its slot, then every journalled sub-ref drops its
//! slot, and a slot whose count reaches zero gets its epoch bumped and is
//! pushed onto the free list. Entries naming a slot outside the table, adds
//! on a saturated count and subs on a zero count are ignored, so the model is
//! total in the journal.

use vstd::prelude::*;

use crate::bitfield::{spec_pack, PointerData, INDEX_LIMIT};
use crate::pending::PendingView;

verus! {

/// The parts of a storage that a sync changes, as mathematical sequences.
pub struct SyncView {
    /// Per-slot reference counts.
    pub meta: Seq<u16>,
    /// Per-slot generation counters.
    pub epoch: Seq<u16>,
    /// Slots free for reuse, oldest first; reuse pops from the back.
    pub free: Seq<PointerData>,
}

/// `epoch` extended with zeros to at least `n` entries.
pub open spec fn pad_epoch(epoch: Seq<u16>, n: int) -> Seq<u16> {
    if epoch.len() >= n {
        epoch
    } else {
        epoch + Seq::new((n - epoch.len()) as nat, |k: int| 0u16)
    }
}

/// The epoch counter after one death of the slot; the 16-bit lane wraps.
pub open spec fn next_epoch(e: u16) -> u16 {
    if e == 0xffff {
        0
    } else {
        (e + 1) as u16
    }
}

/// One journalled add-ref applied to the refcount table: slot `i` gains a
/// reference. A slot outside the table or at the saturated count is left as
/// it is.
pub open spec fn apply_add(meta: Seq<u16>, i: usize) -> Seq<u16> {
    if i < meta.len() && meta[i as int] < 0xffff {
        meta.update(i as int, (meta[i as int] + 1) as u16)
    } else {
        meta
    }
}

/// All journalled add-refs applied in order.
pub open spec fn apply_adds(meta: Seq<u16>, adds: Seq<usize>) -> Seq<u16>
    decreases adds.len(),
{
    if adds.len() == 0 {
        meta
    } else {
        apply_add(apply_adds(meta, adds.drop_last()), adds.last())
    }
}

/// One journalled sub-ref applied to the whole sync state: slot `i` loses a
/// reference, and on the transition to zero its epoch is bumped and the slot
/// goes to the free list, stamped with the new epoch and the storage id. A
/// slot outside the table or already at zero is left as it is.
pub open spec fn apply_sub(s: SyncView, i: usize, id: u8) -> SyncView {
    if i < s.meta.len() && s.meta[i as int] > 0 {
        let m = s.meta.update(i as int, (s.meta[i as int] - 1) as u16);
        if s.meta[i as int] == 1 && i < s.epoch.len() {
            let e = next_epoch(s.epoch[i as int]);
            SyncView {
                meta: m,
                epoch: s.epoch.update(i as int, e),
                free: s.free.push(PointerData(spec_pack(i, e, id))),
            }
        } else {
            SyncView { meta: m, epoch: s.epoch, free: s.free }
        }
    } else {
        s
    }
}

/// All journalled sub-refs applied in order.
pub open spec fn apply_subs(s: SyncView, subs: Seq<usize>, id: u8) -> SyncView
    decreases subs.len(),
{
    if subs.len() == 0 {
        s
    } else {
        apply_sub(apply_subs(s, subs.drop_last(), id), subs.last(), id)
    }
}

/// One whole sync: pad the epoch table, apply the add-refs, then the
/// sub-refs.
pub open spec fn sync_spec(s: SyncView, adds: Seq<usize>, subs: Seq<usize>, id: u8) -> SyncView {
    let padded = SyncView { meta: s.meta, epoch: pad_epoch(s.epoch, s.meta.len() as int), free: s.free };
    let added = SyncView { meta: apply_adds(padded.meta, adds), epoch: padded.epoch, free: padded.free };
    apply_subs(added, subs, id)
}

/// Holds when refcount table `meta1` and free list `free1` are the outcome
/// of one sync that drained journal contents `ops` into a storage whose
/// refcount table was `meta0` and whose free list was `free0`.
pub open spec fn drains_to(
    meta0: Seq<u16>,
    free0: Seq<PointerData>,
    ops: PendingView,
    id: u8,
    meta1: Seq<u16>,
    free1: Seq<PointerData>,
) -> bool {
    let out = sync_spec(
        (SyncView { meta: meta0, epoch: ops.epoch, free: free0 }),
        ops.add_ref,
        ops.sub_ref,
        id,
    );
    meta1 == out.meta && free1 == out.free
}

/// Applying the adds never changes the table's length.
pub proof fn lemma_apply_adds_len(meta: Seq<u16>, adds: Seq<usize>)
    ensures
        apply_adds(meta, adds).len() == meta.len(),
    decreases adds.len(),
{
    if adds.len() != 0 {
        lemma_apply_adds_len(meta, adds.drop_last());
    }
}

/// Applying the subs keeps the lengths of both tables.
pub proof fn lemma_apply_subs_len(s: SyncView, subs: Seq<usize>, id: u8)
    ensures
        apply_subs(s, subs, id).meta.len() == s.meta.len(),
        apply_subs(s, subs, id).epoch.len() == s.epoch.len(),
    decreases subs.len(),
{
    if subs.len() != 0 {
        lemma_apply_subs_len(s, subs.drop_last(), id);
    }
}

/// Applying the subs keeps the table lengths, only appends to the free list,
/// and every appended entry names a slot inside the table, stamped with the
/// given storage id.
pub proof fn lemma_apply_subs_shape(s: SyncView, subs: Seq<usize>, id: u8)
    requires
        s.meta.len() <= INDEX_LIMIT,
    ensures
        apply_subs(s, subs, id).meta.len() == s.meta.len(),
        apply_subs(s, subs, id).epoch.len() == s.epoch.len(),
        apply_subs(s, subs, id).free.len() >= s.free.len(),
        forall|k: int|
            0 <= k < s.free.len() ==> apply_subs(s, subs, id).free[k] == s.free[k],
        forall|k: int|
            s.free.len() <= k < apply_subs(s, subs, id).free.len()
                ==> (#[trigger] apply_subs(s, subs, id).free[k]).spec_index() < s.meta.len()
                && apply_subs(s, subs, id).free[k].spec_storage_id() == id,
    decreases subs.len(),
{
    if subs.len() != 0 {
        lemma_apply_subs_shape(s, subs.drop_last(), id);
        let prev = apply_subs(s, subs.drop_last(), id);
        let i = subs.last();
        if i < prev.meta.len() && prev.meta[i as int] > 0 && prev.meta[i as int] == 1 && i
            < prev.epoch.len() {
            let e = next_epoch(prev.epoch[i as int]);
            crate::bitfield::lemma_pack_fields(i, e, id);
        }
    }
}

} // verus!
