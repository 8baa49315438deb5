//! The pending-operations journal.
//!
//! Handle clones and drops may not touch the storage, so they record their
//! intent here: slot indices to add a reference to, slot indices to drop a
//! reference from, and the per-slot epoch table that weak handles consult.
//! The storage drains the journal during `sync_pending`.

use vstd::prelude::*;

use crate::bitfield::{PointerData, INDEX_LIMIT};
use crate::sync::{apply_adds, apply_subs, pad_epoch, sync_spec, SyncView};

verus! {

/// The journal contents as three mathematical sequences.
pub struct PendingView {
    /// Slot indices owed one more reference at the next sync, oldest first.
    pub add_ref: Seq<usize>,
    /// Slot indices owed one less reference at the next sync, oldest first.
    pub sub_ref: Seq<usize>,
    /// Per-slot generation counters; a slot beyond this table has epoch 0.
    pub epoch: Seq<u16>,
}

impl PendingView {
    /// The epoch recorded for slot `index`, taking slots beyond the table as 0.
    pub open spec fn epoch_at(self, index: usize) -> u16 {
        if index < self.epoch.len() {
            self.epoch[index as int]
        } else {
            0
        }
    }
}

/// Reference-count updates and epochs not yet applied to a storage.
#[derive(Debug)]
pub struct Pending {
    add_ref: Vec<usize>,
    sub_ref: Vec<usize>,
    epoch: Vec<u16>,
}

impl View for Pending {
    type V = PendingView;

    closed spec fn view(&self) -> PendingView {
        PendingView { add_ref: self.add_ref@, sub_ref: self.sub_ref@, epoch: self.epoch@ }
    }
}

impl Pending {
    /// An empty journal with the given epoch table.
    pub fn from_epoch(epoch: Vec<u16>) -> (r: Pending)
        ensures
            r@.add_ref == Seq::<usize>::empty(),
            r@.sub_ref == Seq::<usize>::empty(),
            r@.epoch == epoch@,
    {
        Pending { add_ref: Vec::new(), sub_ref: Vec::new(), epoch }
    }

    /// Record that slot `index` gains one reference at the next sync.
    pub fn push_add(&mut self, index: usize)
        ensures
            final(self)@.add_ref == old(self)@.add_ref.push(index),
            final(self)@.sub_ref == old(self)@.sub_ref,
            final(self)@.epoch == old(self)@.epoch,
    {
        self.add_ref.push(index);
    }

    /// Record that slot `index` loses one reference at the next sync.
    pub fn push_sub(&mut self, index: usize)
        ensures
            final(self)@.add_ref == old(self)@.add_ref,
            final(self)@.sub_ref == old(self)@.sub_ref.push(index),
            final(self)@.epoch == old(self)@.epoch,
    {
        self.sub_ref.push(index);
    }

    /// The live epoch of slot `index`; slots beyond the epoch table have
    /// never died, so their epoch is 0.
    pub fn get_epoch(&self, index: usize) -> (r: u16)
        ensures
            r == self@.epoch_at(index),
    {
        if index < self.epoch.len() {
            self.epoch[index]
        } else {
            0
        }
    }

    /// The upgrade decision for a weak handle on slot `index` whose stored
    /// epoch is `epoch`: exactly when the stored epoch is the live epoch, the
    /// slot still holds the same incarnation, and one add-ref is journalled
    /// for the strong handle the caller is about to produce.
    pub fn try_upgrade(&mut self, index: usize, epoch: u16) -> (ok: bool)
        ensures
            ok == (old(self)@.epoch_at(index) == epoch),
            ok ==> final(self)@.add_ref == old(self)@.add_ref.push(index),
            !ok ==> final(self)@.add_ref == old(self)@.add_ref,
            final(self)@.sub_ref == old(self)@.sub_ref,
            final(self)@.epoch == old(self)@.epoch,
    {
        if self.get_epoch(index) != epoch {
            return false;
        }
        self.add_ref.push(index);
        true
    }

    /// Journal one add-ref for slot `index` and report its live epoch, as one
    /// step: pinning an iterated item both retains the slot and stamps the
    /// new handle with the current incarnation.
    pub fn pin_epoch(&mut self, index: usize) -> (r: u16)
        ensures
            r == old(self)@.epoch_at(index),
            final(self)@.add_ref == old(self)@.add_ref.push(index),
            final(self)@.sub_ref == old(self)@.sub_ref,
            final(self)@.epoch == old(self)@.epoch,
    {
        self.add_ref.push(index);
        self.get_epoch(index)
    }

    /// Drain this journal into a storage's refcount table and free list:
    /// exactly one sync, as `sync_spec` describes it. The journal keeps its
    /// (padded, bumped) epoch table and comes out with empty add and sub
    /// lists.
    pub fn drain_into(&mut self, meta: &mut Vec<u16>, free_list: &mut Vec<PointerData>, id: u8)
        requires
            old(meta)@.len() <= INDEX_LIMIT,
        ensures
            ({
                let out = sync_spec(
                    (SyncView {
                        meta: old(meta)@,
                        epoch: old(self)@.epoch,
                        free: old(free_list)@,
                    }),
                    old(self)@.add_ref,
                    old(self)@.sub_ref,
                    id,
                );
                final(meta)@ == out.meta && final(free_list)@ == out.free
                    && final(self)@.epoch == out.epoch
                    && final(self)@.add_ref == Seq::<usize>::empty()
                    && final(self)@.sub_ref == Seq::<usize>::empty()
            }),
    {
        let ghost ep0 = self.epoch@;
        let ghost meta0 = meta@;
        let ghost free0 = free_list@;
        let ghost adds = self.add_ref@;
        let ghost subs = self.sub_ref@;
        // Grow the epoch table to cover every slot of the storage.
        while self.epoch.len() < meta.len()
            invariant
                self.epoch@.len() >= ep0.len(),
                self.epoch@ == pad_epoch(ep0, self.epoch@.len() as int),
                self.epoch@.len() <= meta@.len() || self.epoch@ == ep0,
                meta@ == meta0,
                self.add_ref@ == adds,
                self.sub_ref@ == subs,
                free_list@ == free0,
            decreases meta@.len() - self.epoch@.len(),
        {
            proof {
                lemma_pad_step(ep0, self.epoch@.len() as int);
            }
            self.epoch.push(0);
        }
        proof {
            assert(self.epoch@ == pad_epoch(ep0, meta0.len() as int));
        }
        let ghost ep1 = self.epoch@;
        // Apply the journalled add-refs in order.
        let n = self.add_ref.len();
        let mut k: usize = 0;
        while k < n
            invariant
                k <= n,
                n == adds.len(),
                self.add_ref@ == adds,
                self.sub_ref@ == subs,
                self.epoch@ == ep1,
                free_list@ == free0,
                meta@ == apply_adds(meta0, adds.take(k as int)),
                meta@.len() == meta0.len(),
            decreases n - k,
        {
            proof {
                assert(adds.take(k as int + 1).drop_last() =~= adds.take(k as int));
            }
            let i = self.add_ref[k];
            if i < meta.len() {
                let m = meta[i];
                if m < 0xffff {
                    meta[i] = m + 1;
                }
            }
            k = k + 1;
        }
        proof {
            assert(adds.take(n as int) =~= adds);
        }
        self.add_ref.clear();
        let ghost mid = (SyncView { meta: meta@, epoch: self.epoch@, free: free_list@ });
        // Apply the journalled sub-refs in order, bumping epochs and freeing
        // slots whose count reaches zero.
        let n = self.sub_ref.len();
        let mut k: usize = 0;
        while k < n
            invariant
                k <= n,
                n == subs.len(),
                self.sub_ref@ == subs,
                self.add_ref@ == Seq::<usize>::empty(),
                ({
                    let cur = apply_subs(mid, subs.take(k as int), id);
                    meta@ == cur.meta && self.epoch@ == cur.epoch && free_list@ == cur.free
                }),
                meta@.len() == mid.meta.len(),
                mid.meta.len() <= INDEX_LIMIT,
                self.epoch@.len() >= meta@.len(),
            decreases n - k,
        {
            proof {
                assert(subs.take(k as int + 1).drop_last() =~= subs.take(k as int));
            }
            let i = self.sub_ref[k];
            if i < meta.len() {
                let m = meta[i];
                if m > 0 {
                    meta[i] = m - 1;
                    if m == 1 {
                        let e0 = self.epoch[i];
                        let e = if e0 == 0xffff {
                            0
                        } else {
                            e0 + 1
                        };
                        self.epoch[i] = e;
                        free_list.push(PointerData::new(i, e, id));
                    }
                }
            }
            k = k + 1;
        }
        proof {
            assert(subs.take(n as int) =~= subs);
        }
        self.sub_ref.clear();
    }
}

/// Padding one more zero onto an epoch table already padded to `n` pads it
/// to `n + 1`.
proof fn lemma_pad_step(epoch: Seq<u16>, n: int)
    requires
        n >= epoch.len(),
    ensures
        pad_epoch(epoch, n).push(0u16) == pad_epoch(epoch, n + 1),
{
    assert(pad_epoch(epoch, n).push(0u16) =~= pad_epoch(epoch, n + 1));
}

} // verus!
