//! The component storage.
//!
//! Components live in a densely packed, insertion-ordered vector. In
//! parallel, a refcount table tracks per-slot liveness and a free list holds
//! recently vacated slots for reuse, newest first. The storage shares a
//! journal with every handle into it; `sync_pending` drains that journal.

use vstd::prelude::*;

use crate::bitfield::{PointerData, INDEX_LIMIT, INDEX_MASK};
use crate::cursor::{Cursor, Slice};
use crate::iter::{Item, Iter, IterMut};
use crate::journal::{fresh_addr, journal_drain, journal_new, journal_pin, journal_share, PendingRef};
use crate::pending::{Pending, PendingView};
use crate::pointer::Pointer;
use crate::sync::{
    apply_adds,
    apply_subs,
    drains_to,
    lemma_apply_adds_len,
    lemma_apply_subs_shape,
    pad_epoch,
    SyncView,
};
use core::marker::PhantomData;

verus! {

/// A storage's owned state as mathematical sequences.
pub struct StoreView<T> {
    /// The component values, in insertion order, vacant slots included.
    pub data: Seq<T>,
    /// Per-slot reference counts; a slot is live exactly when its count is
    /// positive.
    pub meta: Seq<u16>,
    /// Slots free for reuse, each stamped with its next epoch and the
    /// storage id; reuse pops from the back.
    pub free: Seq<PointerData>,
}

/// Well-formedness of a storage's owned state: the refcount table is as long
/// as the data, the data fits the index lane of the packed handle with room
/// for a one-past-the-end slice base, and every free-list entry names a slot
/// of this storage.
pub open spec fn store_wf<T>(v: StoreView<T>, id: u8) -> bool {
    &&& v.data.len() == v.meta.len()
    &&& v.data.len() <= INDEX_MASK
    &&& forall|k: int|
        0 <= k < v.free.len() ==> (#[trigger] v.free[k]).spec_index() < v.data.len()
            && v.free[k].spec_storage_id() == id
}

/// The storage's owned tables: data, refcounts and the free list.
#[derive(Debug)]
pub struct StorageInner<T> {
    pub(crate) data: Vec<T>,
    pub(crate) meta: Vec<u16>,
    pub(crate) free_list: Vec<PointerData>,
}

impl<T> View for StorageInner<T> {
    type V = StoreView<T>;

    open(crate) spec fn view(&self) -> StoreView<T> {
        StoreView { data: self.data@, meta: self.meta@, free: self.free_list@ }
    }
}

impl<T> StorageInner<T> {
    /// Partition the data array at the slot `offset` names into the slice
    /// before it, the component in it, and the slice after it: three
    /// disjoint borrows of one array, tagged with their base offsets and
    /// the storage id carried in `offset`.
    pub(crate) fn split(&mut self, offset: PointerData) -> (r: (Slice<'_, T>, &mut T, Slice<'_, T>))
        requires
            offset.spec_index() < old(self)@.data.len(),
            old(self)@.data.len() <= INDEX_MASK,
        ensures
            r.0.contents() == old(self)@.data.subrange(0, offset.spec_index() as int),
            r.0.base() == 0,
            r.0.sid() == offset.spec_storage_id(),
            *r.1 == old(self)@.data[offset.spec_index() as int],
            r.2.contents() == old(self)@.data.subrange(
                offset.spec_index() as int + 1,
                old(self)@.data.len() as int,
            ),
            r.2.base() == offset.spec_index() + 1,
            r.2.sid() == offset.spec_storage_id(),
            final(self)@.data == final(r.0.slice)@ + seq![*final(r.1)] + final(r.2.slice)@,
            final(self)@.meta == old(self)@.meta,
            final(self)@.free == old(self)@.free,
    {
        let index = offset.get_index();
        let sid = offset.get_storage_id();
        let n = self.data.len();
        proof {
            assert(index < n);
        }
        let (left, rest) = self.data.as_mut_slice().split_at_mut(index);
        let (cur, right) = rest.split_at_mut(1);
        let c = match cur.first_mut() {
            Some(c) => c,
            None => vstd::pervasive::unreached(),
        };
        (
            Slice { slice: left, offset: PointerData::new(0, 0, sid) },
            c,
            Slice { slice: right, offset: PointerData::new(index + 1, 0, sid) },
        )
    }
}

/// Component storage: manages the components and allows for efficient bulk
/// processing.
#[derive(Debug)]
pub struct Storage<T> {
    pub(crate) inner: StorageInner<T>,
    pub(crate) pending: PendingRef,
    pub(crate) id: u8,
}

impl<T> View for Storage<T> {
    type V = StoreView<T>;

    open(crate) spec fn view(&self) -> StoreView<T> {
        self.inner@
    }
}

/// Mutable access to one slot of a component vector.
fn vec_entry_mut<T>(data: &mut Vec<T>, i: usize) -> (r: &mut T)
    requires
        i < old(data).len(),
    ensures
        *r == old(data)@[i as int],
        final(data)@ == old(data)@.update(i as int, *final(r)),
        final(data)@.len() == old(data)@.len(),
{
    &mut data[i]
}

/// The id folded into the storage-id lane from a fresh allocation's
/// address. The per-storage allocations are kept for the life of the
/// process, so their addresses never repeat; the lane holds only eight
/// bits of the fold, so ids can repeat once more storages are created than
/// the lane can tell apart.
fn next_storage_id() -> u8 {
    let a = fresh_addr();
    let f = (a >> 4) ^ (a >> 12) ^ (a >> 20) ^ (a >> 28);
    proof {
        assert(f & 0xff < 256) by (bit_vector);
    }
    (f & 0xff) as u8
}

impl<T> Storage<T> {
    /// The id all handles of this storage carry in their storage-id lane.
    pub open(crate) spec fn spec_id(self) -> u8 {
        self.id
    }

    /// Well-formedness: established by every constructor and preserved by
    /// every operation.
    pub open spec fn wf(self) -> bool {
        store_wf(self@, self.spec_id())
    }

    fn new_impl(data: Vec<T>, meta: Vec<u16>, epoch: Vec<u16>) -> (r: Storage<T>)
        requires
            data@.len() == meta@.len(),
            epoch@.len() <= meta@.len(),
            data@.len() <= INDEX_MASK,
        ensures
            r@.data == data@,
            r@.meta == meta@,
            r@.free == Seq::<PointerData>::empty(),
            r.wf(),
    {
        let id = next_storage_id();
        Storage {
            inner: StorageInner { data, meta, free_list: Vec::new() },
            pending: journal_new(Pending::from_epoch(epoch)),
            id,
        }
    }

    /// Create a new empty storage.
    pub fn new() -> (r: Storage<T>)
        ensures
            r@.data == Seq::<T>::empty(),
            r@.meta == Seq::<u16>::empty(),
            r@.free == Seq::<PointerData>::empty(),
            r.wf(),
    {
        Self::new_impl(Vec::new(), Vec::new(), Vec::new())
    }

    /// Create a new empty storage with the given capacity reserved.
    pub fn with_capacity(capacity: usize) -> (r: Storage<T>)
        ensures
            r@.data == Seq::<T>::empty(),
            r@.meta == Seq::<u16>::empty(),
            r@.free == Seq::<PointerData>::empty(),
            r.wf(),
    {
        Self::new_impl(
            Vec::with_capacity(capacity),
            Vec::with_capacity(capacity),
            Vec::with_capacity(capacity),
        )
    }

    /// Build a storage holding `values` with every refcount zero: the values
    /// are reachable only through `iter_all` until a handle is pinned onto
    /// one.
    pub fn from_iterator(values: Vec<T>) -> (r: Storage<T>)
        requires
            values@.len() <= INDEX_MASK,
        ensures
            r@.data == values@,
            r@.meta == Seq::new(values@.len(), |k: int| 0u16),
            r@.free == Seq::<PointerData>::empty(),
            r.wf(),
    {
        let n = values.len();
        let mut meta: Vec<u16> = Vec::new();
        let mut epoch: Vec<u16> = Vec::new();
        while meta.len() < n
            invariant
                meta@.len() <= n,
                meta@ == Seq::new(meta@.len() as nat, |k: int| 0u16),
                epoch@ == meta@,
            decreases n - meta@.len(),
        {
            meta.push(0);
            epoch.push(0);
            proof {
                assert(meta@ =~= Seq::new(meta@.len() as nat, |k: int| 0u16));
            }
        }
        Self::new_impl(values, meta, epoch)
    }

    /// Add a new component, returning the `Pointer` to it. The newest free
    /// slot is reused if there is one, keeping the epoch it was stamped with
    /// at its last death; otherwise the component takes a fresh slot at the
    /// end, at epoch 0. Either way the slot's refcount is set to 1 directly,
    /// bypassing the journal.
    pub fn create(&mut self, value: T) -> (r: Pointer<T>)
        requires
            old(self).wf(),
            old(self)@.free.len() > 0 || old(self)@.data.len() < INDEX_MASK,
        ensures
            final(self).wf(),
            final(self).spec_id() == old(self).spec_id(),
            r@.spec_storage_id() == old(self).spec_id(),
            old(self)@.free.len() > 0 ==> r@ == old(self)@.free.last()
                && final(self)@.free == old(self)@.free.drop_last()
                && final(self)@.data == old(self)@.data.update(
                old(self)@.free.last().spec_index() as int,
                value,
            )
                && final(self)@.meta == old(self)@.meta.update(
                old(self)@.free.last().spec_index() as int,
                1u16,
            ),
            old(self)@.free.len() == 0 ==> r@.spec_index() == old(self)@.data.len()
                && r@.spec_epoch() == 0
                && final(self)@.free == old(self)@.free
                && final(self)@.data == old(self)@.data.push(value)
                && final(self)@.meta == old(self)@.meta.push(1u16),
    {
        let data = match self.inner.free_list.pop() {
            Some(pd) => {
                let i = pd.get_index();
                self.inner.data[i] = value;
                self.inner.meta[i] = 1;
                pd
            },
            None => {
                let i = self.inner.meta.len();
                self.inner.data.push(value);
                self.inner.meta.push(1);
                PointerData::new(i, 0, self.id)
            },
        };
        Pointer { data, pending: journal_share(&self.pending), marker: PhantomData }
    }

    /// Synchronize all pending updates: drain the journal, apply its add-refs
    /// and sub-refs to the refcount table, bump the epoch of every slot whose
    /// count reached zero, and push those slots onto the free list. What was
    /// in the shared journal is not tracked, so the contract promises one
    /// sync of some journal contents; `drains_to` says exactly what one sync
    /// does.
    pub fn sync_pending(&mut self)
        requires
            old(self).wf(),
        ensures
            final(self).wf(),
            final(self).spec_id() == old(self).spec_id(),
            final(self)@.data == old(self)@.data,
            exists|ops: PendingView|
                #[trigger] drains_to(
                    old(self)@.meta,
                    old(self)@.free,
                    ops,
                    old(self).spec_id(),
                    final(self)@.meta,
                    final(self)@.free,
                ),
    {
        journal_drain(&self.pending, &mut self.inner, self.id);
        proof {
            lemma_drain_keeps_wf(
                old(self)@.meta,
                old(self)@.free,
                self@.meta,
                self@.free,
                self.spec_id(),
            );
        }
    }

    /// Iterate all components that are still referenced (`meta > 0`). This
    /// is accurate only after the last `sync_pending`: refcount changes
    /// journalled since then are not yet visible.
    pub fn iter(&self) -> (r: Iter<'_, T>)
        requires
            self.wf(),
        ensures
            r.store() == self@,
            r.skips() == true,
            r.pos() == 0,
            r.wf(),
    {
        Iter { storage: &self.inner, skip_lost: true, index: 0 }
    }

    /// Iterate all components that are stored, even unreferenced ones.
    pub fn iter_all(&self) -> (r: Iter<'_, T>)
        requires
            self.wf(),
        ensures
            r.store() == self@,
            r.skips() == false,
            r.pos() == 0,
            r.wf(),
    {
        Iter { storage: &self.inner, skip_lost: false, index: 0 }
    }

    /// Iterate all still-referenced components mutably, as a streaming
    /// iterator. Liveness is as accurate as the last `sync_pending`.
    pub fn iter_mut(&mut self) -> (r: IterMut<'_, T>)
        requires
            old(self).wf(),
        ensures
            r.datav() == old(self)@.data,
            r.metav() == old(self)@.meta,
            r.skips() == true,
            r.front_pos() == 0,
            r.back_pos() == old(self)@.meta.len(),
            r.wf(),
            final(self)@.data == final(r.data)@,
            final(self)@.meta == old(self)@.meta,
            final(self)@.free == old(self)@.free,
            final(self).spec_id() == old(self).spec_id(),
    {
        let back = self.inner.meta.len();
        IterMut {
            data: &mut self.inner.data,
            meta: &self.inner.meta,
            skip_lost: true,
            front: 0,
            back,
        }
    }

    /// Iterate every stored component mutably, vacant slots included.
    pub fn iter_all_mut(&mut self) -> (r: IterMut<'_, T>)
        requires
            old(self).wf(),
        ensures
            r.datav() == old(self)@.data,
            r.metav() == old(self)@.meta,
            r.skips() == false,
            r.front_pos() == 0,
            r.back_pos() == old(self)@.meta.len(),
            r.wf(),
            final(self)@.data == final(r.data)@,
            final(self)@.meta == old(self)@.meta,
            final(self)@.free == old(self)@.free,
            final(self).spec_id() == old(self).spec_id(),
    {
        let back = self.inner.meta.len();
        IterMut {
            data: &mut self.inner.data,
            meta: &self.inner.meta,
            skip_lost: false,
            front: 0,
            back,
        }
    }

    /// Pin an iterated item with a newly created `Pointer`: journal one
    /// add-ref for its slot and stamp the new handle with the slot's live
    /// epoch, under one journal lock.
    pub fn pin(&self, item: &Item<'_, T>) -> (r: Pointer<T>)
        requires
            item.spec_index() < INDEX_LIMIT,
        ensures
            r@.spec_index() == item.spec_index(),
            r@.spec_storage_id() == self.spec_id(),
    {
        let epoch = journal_pin(&self.pending, item.index);
        Pointer {
            data: PointerData::new(item.index, epoch, self.id),
            pending: journal_share(&self.pending),
            marker: PhantomData,
        }
    }

    /// Split the storage at the slot a handle points at, returning the
    /// slice of every component before it, the component itself, and the
    /// slice of every component after it. The three borrows are disjoint
    /// ranges of the backing array, so all three are usable at once.
    pub fn split(&mut self, pointer: &Pointer<T>) -> (r: (Slice<'_, T>, &mut T, Slice<'_, T>))
        requires
            old(self).wf(),
            pointer@.spec_storage_id() == old(self).spec_id(),
            pointer@.spec_index() < old(self)@.data.len(),
        ensures
            r.0.contents() == old(self)@.data.subrange(0, pointer@.spec_index() as int),
            r.0.base() == 0,
            r.0.sid() == old(self).spec_id(),
            *r.1 == old(self)@.data[pointer@.spec_index() as int],
            r.2.contents() == old(self)@.data.subrange(
                pointer@.spec_index() as int + 1,
                old(self)@.data.len() as int,
            ),
            r.2.base() == pointer@.spec_index() + 1,
            r.2.sid() == old(self).spec_id(),
            final(self)@.data == final(r.0.slice)@ + seq![*final(r.1)] + final(r.2.slice)@,
            final(self)@.meta == old(self)@.meta,
            final(self)@.free == old(self)@.free,
            final(self).spec_id() == old(self).spec_id(),
    {
        self.inner.split(pointer.data)
    }

    /// Produce a streaming cursor over the still-referenced components,
    /// starting before the first slot. Liveness is as accurate as the last
    /// `sync_pending`.
    pub fn cursor(&mut self) -> (r: Cursor<'_, T>)
        requires
            old(self).wf(),
        ensures
            r.storev() == old(self)@,
            r.pos() == 0,
            r.sid() == old(self).spec_id(),
            r.wf(),
            final(self)@ == final(r.storage)@,
            final(self).spec_id() == old(self).spec_id(),
    {
        Cursor { storage: &mut self.inner, pending: &self.pending, index: 0, storage_id: self.id }
    }

    /// A cursor standing past the last slot, for backwards iteration.
    pub fn cursor_end(&mut self) -> (r: Cursor<'_, T>)
        requires
            old(self).wf(),
        ensures
            r.storev() == old(self)@,
            r.pos() == old(self)@.data.len(),
            r.sid() == old(self).spec_id(),
            r.wf(),
            final(self)@ == final(r.storage)@,
            final(self).spec_id() == old(self).spec_id(),
    {
        let total = self.inner.data.len();
        Cursor {
            storage: &mut self.inner,
            pending: &self.pending,
            index: total,
            storage_id: self.id,
        }
    }

    /// Read the component a handle points at. The handle must come from this
    /// storage and name a slot of it; indexing with a foreign or stale
    /// handle is a caller error, which these preconditions encode.
    pub fn get(&self, pointer: &Pointer<T>) -> (r: &T)
        requires
            self.wf(),
            pointer@.spec_storage_id() == self.spec_id(),
            pointer@.spec_index() < self@.data.len(),
        ensures
            *r == self@.data[pointer@.spec_index() as int],
    {
        &self.inner.data[pointer.data.get_index()]
    }

    /// Write access to the component a handle points at.
    #[verifier::spinoff_prover]
    #[verifier::rlimit(60)]
    pub fn get_mut(&mut self, pointer: &Pointer<T>) -> (r: &mut T)
        requires
            old(self).wf(),
            pointer@.spec_storage_id() == old(self).spec_id(),
            pointer@.spec_index() < old(self)@.data.len(),
        ensures
            *r == old(self)@.data[pointer@.spec_index() as int],
            final(self)@.data == old(self)@.data.update(
                pointer@.spec_index() as int,
                *final(r),
            ),
            final(self)@.meta == old(self)@.meta,
            final(self)@.free == old(self)@.free,
            final(self).spec_id() == old(self).spec_id(),
            final(self).wf(),
    {
        vec_entry_mut(&mut self.inner.data, pointer.data.get_index())
    }
}

/// One sync of any journal keeps a well-formed storage well formed: the
/// refcount table keeps its length, and every entry the sync pushed onto the
/// free list names a slot of this storage.
proof fn lemma_drain_keeps_wf(
    m0: Seq<u16>,
    f0: Seq<PointerData>,
    m1: Seq<u16>,
    f1: Seq<PointerData>,
    id: u8,
)
    requires
        m0.len() <= INDEX_LIMIT,
        forall|k: int|
            0 <= k < f0.len() ==> (#[trigger] f0[k]).spec_index() < m0.len()
                && f0[k].spec_storage_id() == id,
        exists|ops: PendingView| #[trigger] drains_to(m0, f0, ops, id, m1, f1),
    ensures
        m1.len() == m0.len(),
        forall|k: int|
            0 <= k < f1.len() ==> (#[trigger] f1[k]).spec_index() < m0.len()
                && f1[k].spec_storage_id() == id,
{
    let ops = choose|ops: PendingView| drains_to(m0, f0, ops, id, m1, f1);
    lemma_apply_adds_len(m0, ops.add_ref);
    let added = SyncView {
        meta: apply_adds(m0, ops.add_ref),
        epoch: pad_epoch(ops.epoch, m0.len() as int),
        free: f0,
    };
    lemma_apply_subs_shape(added, ops.sub_ref, id);
    let out = apply_subs(added, ops.sub_ref, id);
    assert(f1 == out.free);
    assert forall|k: int|
        0 <= k < f1.len() implies (#[trigger] f1[k]).spec_index() < m0.len()
        && f1[k].spec_storage_id() == id by {
        if k < f0.len() {
            assert(out.free[k] == f0[k]);
        } else {
            assert(out.free[k].spec_index() < added.meta.len());
        }
    }
}

impl<T> Default for Storage<T> {
    /// The default storage is the new empty storage.
    fn default() -> (r: Storage<T>)
        ensures
            r@.data == Seq::<T>::empty(),
            r@.meta == Seq::<u16>::empty(),
            r@.free == Seq::<PointerData>::empty(),
            r.wf(),
    {
        Self::new()
    }
}

} // verus!
