//! The streaming cursor and its slice views.
//!
//! While a cursor stands on one slot, the rest of the backing array is still
//! reachable: each step yields the component under the cursor together with
//! a [`Slice`] of everything before it and a [`Slice`] of everything after
//! it. The three borrows cover disjoint ranges of one array, so all three
//! are usable at once, for reads and writes, and a handle can be re-homed
//! into either slice by subtracting the slice's base offset.

use vstd::prelude::*;

use crate::bitfield::{PointerData, INDEX_LIMIT};
use crate::iter::{next_live, prev_live};
use crate::journal::{journal_pin, journal_share, PendingRef};
use crate::pointer::Pointer;
use crate::storage::{StorageInner, StoreView};
use core::marker::PhantomData;

verus! {

/// A view of part of a storage's backing array, starting at a base offset.
/// A handle whose index falls inside the range can be read and written
/// through it.
#[derive(Debug)]
pub struct Slice<'a, T> {
    /// The components in the slice's range.
    pub slice: &'a mut [T],
    /// The slice's base offset in its index lane and the storage id in its
    /// storage-id lane.
    pub offset: PointerData,
}

/// Mutable access to one element of a slice.
fn entry_mut<T>(s: &mut [T], k: usize) -> (r: &mut T)
    requires
        k < old(s).len(),
    ensures
        *r == old(s)@[k as int],
        final(s)@ == old(s)@.update(k as int, *final(r)),
{
    let (_, rest) = s.split_at_mut(k);
    let (cur, _) = rest.split_at_mut(1);
    match cur.first_mut() {
        Some(r) => r,
        None => vstd::pervasive::unreached(),
    }
}

impl<'a, T> Slice<'a, T> {
    /// The components in the slice's range.
    pub open spec fn contents(self) -> Seq<T> {
        self.slice@
    }

    /// The index of the first slot the slice covers.
    pub open spec fn base(self) -> usize {
        self.offset.spec_index()
    }

    /// The id of the storage the slice is part of.
    pub open spec fn sid(self) -> u8 {
        self.offset.spec_storage_id()
    }

    /// Check if the slice contains no elements.
    pub fn is_empty(&self) -> (r: bool)
        ensures
            r == (self.contents().len() == 0),
    {
        self.slice.len() == 0
    }

    /// Get a reference by handle. Returns `None` if the handle's slot is
    /// outside of the slice; a handle from another storage is a caller
    /// error.
    pub fn get(&self, pointer: &Pointer<T>) -> (r: Option<&T>)
        requires
            pointer@.spec_storage_id() == self.sid(),
        ensures
            self.base() <= pointer@.spec_index() && pointer@.spec_index() - self.base()
                < self.contents().len() ==> (r matches Some(v) && *v
                == self.contents()[pointer@.spec_index() - self.base()]),
            !(self.base() <= pointer@.spec_index() && pointer@.spec_index() - self.base()
                < self.contents().len()) ==> r is None,
    {
        let index = pointer.data.get_index();
        let base = self.offset.get_index();
        if index >= base {
            let k = index - base;
            if k < self.slice.len() {
                return Some(&self.slice[k]);
            }
        }
        None
    }

    /// Get a mutable reference by handle. Returns `None` if the handle's
    /// slot is outside of the slice; a handle from another storage is a
    /// caller error.
    pub fn get_mut(&mut self, pointer: &Pointer<T>) -> (r: Option<&mut T>)
        requires
            pointer@.spec_storage_id() == old(self).sid(),
        ensures
            final(self).base() == old(self).base(),
            final(self).sid() == old(self).sid(),
            old(self).base() <= pointer@.spec_index() && pointer@.spec_index() - old(self).base()
                < old(self).contents().len() ==> (r matches Some(v) && *v
                == old(self).contents()[pointer@.spec_index() - old(self).base()]
                && final(self).contents() == old(self).contents().update(
                pointer@.spec_index() - old(self).base(),
                *final(v),
            )),
            !(old(self).base() <= pointer@.spec_index() && pointer@.spec_index() - old(self).base()
                < old(self).contents().len()) ==> r is None && final(self).contents() == old(
                self,
            ).contents(),
    {
        let index = pointer.data.get_index();
        let base = self.offset.get_index();
        if index >= base {
            let k = index - base;
            if k < self.slice.len() {
                return Some(entry_mut(self.slice, k));
            }
        }
        None
    }
}

/// Item of the streaming cursor: the component under the cursor, plus what
/// is needed to pin it.
#[derive(Debug)]
pub struct CursorItem<'a, T> {
    /// The component under the cursor.
    pub item: &'a mut T,
    /// The journal of the storage being walked.
    pub pending: &'a PendingRef,
    /// The packed word naming the cursor's slot (epoch lane unset).
    pub data: PointerData,
}

impl<'a, T> CursorItem<'a, T> {
    /// The component under the cursor.
    pub open(crate) spec fn spec_value(self) -> T {
        *self.item
    }

    /// The packed word naming the cursor's slot: its index and storage id;
    /// the epoch lane is filled in only when the item is pinned.
    pub open(crate) spec fn spec_bits(self) -> PointerData {
        self.data
    }

    /// Pin the item with a strong pointer: journal one add-ref for the slot
    /// and stamp the new handle with the slot's live epoch, under one
    /// journal lock, so a later weak upgrade through the same slot
    /// identifies this incarnation.
    pub fn pin(&self) -> (r: Pointer<T>)
        ensures
            r@.spec_index() == self.spec_bits().spec_index(),
            r@.spec_storage_id() == self.spec_bits().spec_storage_id(),
    {
        let epoch = journal_pin(self.pending, self.data.get_index());
        Pointer {
            data: self.data.with_epoch(epoch),
            pending: journal_share(self.pending),
            marker: PhantomData,
        }
    }
}

impl<'a, T> core::ops::Deref for CursorItem<'a, T> {
    type Target = T;

    fn deref(&self) -> (r: &T)
        ensures
            *r == self.spec_value(),
    {
        &*self.item
    }
}

impl<'a, T> core::ops::DerefMut for CursorItem<'a, T> {
    fn deref_mut(&mut self) -> (r: &mut T)
        ensures
            *r == old(self).spec_value(),
            final(self).spec_value() == *final(r),
            final(self).spec_bits() == old(self).spec_bits(),
    {
        &mut *self.item
    }
}

/// Streaming iterator providing mutable components and the capability to
/// look back and ahead while standing on one of them.
#[derive(Debug)]
pub struct Cursor<'a, T> {
    /// The storage being walked.
    pub storage: &'a mut StorageInner<T>,
    /// The journal of that storage.
    pub pending: &'a PendingRef,
    /// The slot the next forward step looks at first.
    pub index: usize,
    /// The id of the storage being walked.
    pub storage_id: u8,
}

impl<'a, T> Cursor<'a, T> {
    /// The storage state the cursor walks.
    pub open(crate) spec fn storev(self) -> StoreView<T> {
        self.storage@
    }

    /// The slot the next forward step looks at first.
    pub open(crate) spec fn pos(self) -> usize {
        self.index
    }

    /// The id of the storage the cursor walks.
    pub open(crate) spec fn sid(self) -> u8 {
        self.storage_id
    }

    /// Validity: holds for every cursor a storage hands out, and every step
    /// keeps it.
    pub open spec fn wf(self) -> bool {
        self.storev().data.len() == self.storev().meta.len() && self.storev().data.len()
            < INDEX_LIMIT && self.pos() <= self.storev().meta.len()
    }

    /// Advance to the next live slot and stand on it, yielding the slices
    /// before and after it; `None` past the last live slot.
    pub fn next(&mut self) -> (r: Option<(Slice<'_, T>, CursorItem<'_, T>, Slice<'_, T>)>)
        requires
            old(self).wf(),
        ensures
            final(self).sid() == old(self).sid(),
            ({
                let hit = next_live(
                    old(self).storev().meta,
                    true,
                    old(self).pos() as int,
                    old(self).storev().meta.len() as int,
                );
                match hit {
                    Some(j) => r matches Some(t) && t.0.contents() == old(
                        self,
                    ).storev().data.subrange(0, j) && t.0.base() == 0 && t.0.sid() == old(
                        self,
                    ).sid() && t.1.spec_value() == old(self).storev().data[j]
                        && t.1.spec_bits().spec_index() == j && t.1.spec_bits().spec_storage_id()
                        == old(self).sid() && t.2.contents() == old(self).storev().data.subrange(
                        j + 1,
                        old(self).storev().data.len() as int,
                    ) && t.2.base() == j + 1 && t.2.sid() == old(self).sid() && final(self).pos()
                        == j + 1 && final(self).storev().meta == old(self).storev().meta
                        && final(self).storev().free == old(self).storev().free
                        && final(self).storev().data == final(t.0.slice)@ + seq![*final(t.1.item)]
                        + final(t.2.slice)@,
                    None => r is None && final(self).pos() == old(self).storev().meta.len()
                        && final(self).storev() == old(self).storev() && final(self).wf(),
                }
            }),
    {
        loop
            invariant
                self.wf(),
                self.storev() == old(self).storev(),
                self.storage_id == old(self).sid(),
                old(self).pos() as int <= self.index as int,
                next_live(
                    self.storev().meta,
                    true,
                    old(self).pos() as int,
                    self.storev().meta.len() as int,
                ) == next_live(
                    self.storev().meta,
                    true,
                    self.index as int,
                    self.storev().meta.len() as int,
                ),
            decreases self.storev().meta.len() - self.index,
        {
            let id = self.index;
            if id >= self.storage.meta.len() {
                return None;
            }
            if self.storage.meta[id] != 0 {
                self.index = id + 1;
                let bits = PointerData::new(id, 0, self.storage_id);
                let (left, cur, right) = self.storage.split(bits);
                return Some(
                    (left, CursorItem { item: cur, pending: self.pending, data: bits }, right),
                );
            }
            self.index = id + 1;
        }
    }

    /// Step back to the previous live slot and stand on it, yielding the
    /// slices before and after it; `None` before the first live slot.
    pub fn prev(&mut self) -> (r: Option<(Slice<'_, T>, CursorItem<'_, T>, Slice<'_, T>)>)
        requires
            old(self).wf(),
        ensures
            final(self).sid() == old(self).sid(),
            ({
                let hit = prev_live(old(self).storev().meta, true, 0, old(self).pos() as int);
                match hit {
                    Some(j) => r matches Some(t) && t.0.contents() == old(
                        self,
                    ).storev().data.subrange(0, j) && t.0.base() == 0 && t.0.sid() == old(
                        self,
                    ).sid() && t.1.spec_value() == old(self).storev().data[j]
                        && t.1.spec_bits().spec_index() == j && t.1.spec_bits().spec_storage_id()
                        == old(self).sid() && t.2.contents() == old(self).storev().data.subrange(
                        j + 1,
                        old(self).storev().data.len() as int,
                    ) && t.2.base() == j + 1 && t.2.sid() == old(self).sid() && final(self).pos()
                        == j && final(self).storev().meta == old(self).storev().meta
                        && final(self).storev().free == old(self).storev().free
                        && final(self).storev().data == final(t.0.slice)@ + seq![*final(t.1.item)]
                        + final(t.2.slice)@,
                    None => r is None && final(self).pos() == 0 && final(self).storev() == old(
                        self,
                    ).storev() && final(self).wf(),
                }
            }),
    {
        loop
            invariant
                self.wf(),
                self.storev() == old(self).storev(),
                self.storage_id == old(self).sid(),
                self.index as int <= old(self).pos() as int,
                prev_live(self.storev().meta, true, 0, old(self).pos() as int) == prev_live(
                    self.storev().meta,
                    true,
                    0,
                    self.index as int,
                ),
            decreases self.index,
        {
            if self.index == 0 {
                return None;
            }
            let id = self.index - 1;
            self.index = id;
            if self.storage.meta[id] != 0 {
                let bits = PointerData::new(id, 0, self.storage_id);
                let (left, cur, right) = self.storage.split(bits);
                return Some(
                    (left, CursorItem { item: cur, pending: self.pending, data: bits }, right),
                );
            }
        }
    }
}

} // verus!
