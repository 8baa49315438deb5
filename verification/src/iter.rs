//! Iteration over a storage.
//!
//! [`Iter`] reads components in slot order; with its skip flag set it visits
//! only referenced slots (`meta > 0`), which is accurate after the last
//! `sync_pending`. [`IterMut`] is its streaming mutable counterpart: each
//! call to `next` or `next_back` lends out one component. [`Item`] wraps a
//! reference together with its slot index, so the item can be pinned.

use vstd::prelude::*;

use crate::storage::{StorageInner, StoreView};

verus! {

/// The first slot at or after `i` and before `end` that the iteration
/// visits: any slot if `skip` is false, else the first live one.
pub open spec fn next_live(meta: Seq<u16>, skip: bool, i: int, end: int) -> Option<int>
    decreases end - i,
{
    if i < 0 || i >= end || end > meta.len() {
        None
    } else if !skip || meta[i] != 0 {
        Some(i)
    } else {
        next_live(meta, skip, i + 1, end)
    }
}

/// The last slot before `end` and at or after `front` that a backward
/// iteration visits.
pub open spec fn prev_live(meta: Seq<u16>, skip: bool, front: int, end: int) -> Option<int>
    decreases end,
{
    if end <= front || front < 0 || end > meta.len() {
        None
    } else if !skip || meta[end - 1] != 0 {
        Some(end - 1)
    } else {
        prev_live(meta, skip, front, end - 1)
    }
}

/// The slots in `[i, end)` that the iteration visits, in order.
pub open spec fn visited(meta: Seq<u16>, skip: bool, i: int, end: int) -> Seq<int>
    decreases end - i,
{
    if i < 0 || i >= end || end > meta.len() {
        Seq::empty()
    } else if !skip || meta[i] != 0 {
        seq![i] + visited(meta, skip, i + 1, end)
    } else {
        visited(meta, skip, i + 1, end)
    }
}

/// The visited slots decompose at the first visited one, and there are never
/// more of them than slots in the range.
pub proof fn lemma_visited_head(meta: Seq<u16>, skip: bool, i: int, end: int)
    requires
        0 <= i <= end <= meta.len(),
    ensures
        visited(meta, skip, i, end).len() <= end - i,
        next_live(meta, skip, i, end) is None ==> visited(meta, skip, i, end) == Seq::<
            int,
        >::empty(),
        next_live(meta, skip, i, end) matches Some(j) ==> i <= j < end <= meta.len() && (skip
            ==> meta[j] != 0) && visited(meta, skip, i, end) == seq![j] + visited(
            meta,
            skip,
            j + 1,
            end,
        ),
    decreases end - i,
{
    if !(i < 0 || i >= end || end > meta.len()) {
        lemma_visited_head(meta, skip, i + 1, end);
    }
}

/// The item of `Iter`: a reference to a component and the index of its slot.
#[derive(Debug, Clone, Copy)]
pub struct Item<'a, T> {
    pub(crate) value: &'a T,
    pub(crate) index: usize,
}

impl<'a, T> Item<'a, T> {
    /// The component value this item refers to.
    pub open(crate) spec fn spec_value(self) -> T {
        *self.value
    }

    /// The index of the slot this item refers to.
    pub open(crate) spec fn spec_index(self) -> usize {
        self.index
    }
}

impl<'a, T> core::ops::Deref for Item<'a, T> {
    type Target = T;

    fn deref(&self) -> (r: &T)
        ensures
            *r == self.spec_value(),
    {
        self.value
    }
}

/// Iterator for reading components.
#[derive(Debug)]
pub struct Iter<'a, T> {
    pub(crate) storage: &'a StorageInner<T>,
    pub(crate) skip_lost: bool,
    pub(crate) index: usize,
}

impl<'a, T> Iter<'a, T> {
    /// The storage state this iterator walks.
    pub open(crate) spec fn store(self) -> StoreView<T> {
        self.storage@
    }

    /// Whether unreferenced slots are skipped.
    pub open(crate) spec fn skips(self) -> bool {
        self.skip_lost
    }

    /// The next slot the iterator will look at.
    pub open(crate) spec fn pos(self) -> usize {
        self.index
    }

    /// Validity: holds for every iterator a storage hands out, and every
    /// step keeps it.
    pub open spec fn wf(self) -> bool {
        self.store().data.len() == self.store().meta.len() && self.pos()
            <= self.store().meta.len()
    }

    /// The next visited component: the first (live, if skipping) slot at or
    /// after the current position, wrapped with its index, or `None` at the
    /// end.
    pub fn next(&mut self) -> (r: Option<Item<'a, T>>)
        requires
            old(self).wf(),
        ensures
            final(self).wf(),
            final(self).store() == old(self).store(),
            final(self).skips() == old(self).skips(),
            ({
                let hit = next_live(
                    old(self).store().meta,
                    old(self).skips(),
                    old(self).pos() as int,
                    old(self).store().meta.len() as int,
                );
                match hit {
                    Some(j) => r matches Some(item) && item.spec_index() == j
                        && item.spec_value() == old(self).store().data[j] && final(self).pos() == j
                        + 1,
                    None => r is None && final(self).pos() == old(self).store().meta.len(),
                }
            }),
    {
        let ghost start = self.index as int;
        let ghost len = self.store().meta.len() as int;
        loop
            invariant
                self.wf(),
                self.store() == old(self).store(),
                self.skip_lost == old(self).skips(),
                start == old(self).pos() as int,
                len == old(self).store().meta.len() as int,
                start <= self.index as int <= len,
                next_live(self.store().meta, self.skip_lost, start, len) == next_live(
                    self.store().meta,
                    self.skip_lost,
                    self.index as int,
                    len,
                ),
            decreases len - self.index,
        {
            let id = self.index;
            if id >= self.storage.data.len() {
                return None;
            }
            if !self.skip_lost || self.storage.meta[id] != 0 {
                self.index = id + 1;
                return Some(Item { value: &self.storage.data[id], index: id });
            }
            self.index = id + 1;
        }
    }

    /// How many components a walk from the current position visits.
    pub fn count(self) -> (r: usize)
        requires
            self.wf(),
        ensures
            r == visited(
                self.store().meta,
                self.skips(),
                self.pos() as int,
                self.store().meta.len() as int,
            ).len(),
    {
        let exec_len = self.storage.meta.len();
        let ghost len = self.store().meta.len() as int;
        proof {
            lemma_visited_head(self.store().meta, self.skips(), self.pos() as int, len);
        }
        let mut it = self;
        let mut n: usize = 0;
        loop
            invariant
                it.wf(),
                it.store() == self.store(),
                it.skips() == self.skips(),
                len == self.store().meta.len() as int,
                len == exec_len as int,
                n + visited(it.store().meta, it.skips(), it.pos() as int, len).len() == visited(
                    self.store().meta,
                    self.skips(),
                    self.pos() as int,
                    len,
                ).len(),
                n + visited(it.store().meta, it.skips(), it.pos() as int, len).len() <= len,
            decreases len - it.pos() + 1,
        {
            proof {
                lemma_visited_head(it.store().meta, it.skips(), it.pos() as int, len);
            }
            let ghost before = it.pos() as int;
            match it.next() {
                None => {
                    return n;
                },
                Some(_) => {
                    n = n + 1;
                },
            }
            proof {
                lemma_visited_head(it.store().meta, it.skips(), it.pos() as int, len);
            }
        }
    }

    /// The component the walk visits `n` slots after skipping `n` visited
    /// ones, or `None` if fewer than `n + 1` remain.
    pub fn nth(&mut self, n: usize) -> (r: Option<Item<'a, T>>)
        requires
            old(self).wf(),
        ensures
            final(self).wf(),
            final(self).store() == old(self).store(),
            final(self).skips() == old(self).skips(),
            ({
                let vis = visited(
                    old(self).store().meta,
                    old(self).skips(),
                    old(self).pos() as int,
                    old(self).store().meta.len() as int,
                );
                if n < vis.len() {
                    r matches Some(item) && item.spec_index() == vis[n as int]
                        && item.spec_value() == old(self).store().data[vis[n as int]]
                        && final(self).pos() == vis[n as int] + 1
                } else {
                    r is None
                }
            }),
    {
        let ghost len = self.store().meta.len() as int;
        let ghost vis = visited(self.store().meta, self.skips(), self.pos() as int, len);
        let mut k: usize = 0;
        loop
            invariant
                self.wf(),
                self.store() == old(self).store(),
                self.skips() == old(self).skips(),
                len == old(self).store().meta.len() as int,
                vis == visited(
                    old(self).store().meta,
                    old(self).skips(),
                    old(self).pos() as int,
                    len,
                ),
                k <= n,
                k <= vis.len(),
                visited(self.store().meta, self.skips(), self.pos() as int, len) == vis.skip(
                    k as int,
                ),
            decreases n - k,
        {
            proof {
                lemma_visited_head(self.store().meta, self.skips(), self.pos() as int, len);
            }
            let ghost before = visited(self.store().meta, self.skips(), self.pos() as int, len);
            match self.next() {
                None => {
                    return None;
                },
                Some(item) => {
                    proof {
                        assert(before[0] == vis[k as int]);
                        assert(before.subrange(1, before.len() as int) =~= vis.skip(k as int + 1));
                    }
                    if k == n {
                        return Some(item);
                    }
                    k = k + 1;
                },
            }
        }
    }
}

/// Streaming iterator for writing components: each call to `next` or
/// `next_back` lends out one component for the duration of the borrow.
#[derive(Debug)]
pub struct IterMut<'a, T> {
    /// The components being walked.
    pub data: &'a mut Vec<T>,
    /// The refcount table gating the walk.
    pub meta: &'a Vec<u16>,
    /// Whether unreferenced slots are skipped.
    pub skip_lost: bool,
    /// The next slot a forward step looks at.
    pub front: usize,
    /// One past the next slot a backward step looks at.
    pub back: usize,
}

impl<'a, T> IterMut<'a, T> {
    /// The components this iterator walks.
    pub open(crate) spec fn datav(self) -> Seq<T> {
        self.data@
    }

    /// The refcount table gating the walk.
    pub open(crate) spec fn metav(self) -> Seq<u16> {
        self.meta@
    }

    /// Whether unreferenced slots are skipped.
    pub open(crate) spec fn skips(self) -> bool {
        self.skip_lost
    }

    /// The next slot a forward step looks at.
    pub open(crate) spec fn front_pos(self) -> usize {
        self.front
    }

    /// One past the next slot a backward step looks at.
    pub open(crate) spec fn back_pos(self) -> usize {
        self.back
    }

    /// Validity: holds for every iterator a storage hands out, and every
    /// step keeps it.
    pub open spec fn wf(self) -> bool {
        self.datav().len() == self.metav().len() && self.front_pos() <= self.back_pos()
            <= self.metav().len()
    }

    /// Lend out the next visited component, advancing the front of the
    /// walk past it.
    pub fn next(&mut self) -> (r: Option<&mut T>)
        requires
            old(self).wf(),
        ensures
            final(self).wf(),
            final(self).metav() == old(self).metav(),
            final(self).skips() == old(self).skips(),
            final(self).back_pos() == old(self).back_pos(),
            ({
                let hit = next_live(
                    old(self).metav(),
                    old(self).skips(),
                    old(self).front_pos() as int,
                    old(self).back_pos() as int,
                );
                match hit {
                    Some(j) => r matches Some(v) && *v == old(self).datav()[j]
                        && final(self).datav() == old(self).datav().update(j, *final(v))
                        && final(self).front_pos() == j + 1,
                    None => r is None && final(self).datav() == old(self).datav()
                        && final(self).front_pos() == old(self).back_pos(),
                }
            }),
    {
        let ghost start = self.front as int;
        let ghost stop = self.back as int;
        loop
            invariant
                self.wf(),
                self.datav() == old(self).datav(),
                self.metav() == old(self).metav(),
                self.skip_lost == old(self).skips(),
                self.back == old(self).back_pos(),
                start == old(self).front_pos() as int,
                start <= self.front as int <= stop,
                stop == self.back as int,
                next_live(self.metav(), self.skip_lost, start, stop) == next_live(
                    self.metav(),
                    self.skip_lost,
                    self.front as int,
                    stop,
                ),
            decreases stop - self.front,
        {
            let id = self.front;
            if id >= self.back {
                return None;
            }
            if !self.skip_lost || self.meta[id] != 0 {
                self.front = id + 1;
                return Some(&mut self.data[id]);
            }
            self.front = id + 1;
        }
    }

    /// Lend out the last not-yet-visited component, moving the back of the
    /// walk before it.
    pub fn next_back(&mut self) -> (r: Option<&mut T>)
        requires
            old(self).wf(),
        ensures
            final(self).wf(),
            final(self).metav() == old(self).metav(),
            final(self).skips() == old(self).skips(),
            final(self).front_pos() == old(self).front_pos(),
            ({
                let hit = prev_live(
                    old(self).metav(),
                    old(self).skips(),
                    old(self).front_pos() as int,
                    old(self).back_pos() as int,
                );
                match hit {
                    Some(j) => r matches Some(v) && *v == old(self).datav()[j]
                        && final(self).datav() == old(self).datav().update(j, *final(v))
                        && final(self).back_pos() == j,
                    None => r is None && final(self).datav() == old(self).datav()
                        && final(self).back_pos() == old(self).front_pos(),
                }
            }),
    {
        let ghost start = self.front as int;
        let ghost stop = self.back as int;
        loop
            invariant
                self.wf(),
                self.datav() == old(self).datav(),
                self.metav() == old(self).metav(),
                self.skip_lost == old(self).skips(),
                self.front == old(self).front_pos(),
                stop == old(self).back_pos() as int,
                start <= self.back as int <= stop,
                start == self.front as int,
                prev_live(self.metav(), self.skip_lost, start, stop) == prev_live(
                    self.metav(),
                    self.skip_lost,
                    start,
                    self.back as int,
                ),
            decreases self.back,
        {
            if self.back <= self.front {
                return None;
            }
            let id = self.back - 1;
            if !self.skip_lost || self.meta[id] != 0 {
                self.back = id;
                return Some(&mut self.data[id]);
            }
            self.back = id;
        }
    }

    /// How many components the remaining walk visits.
    pub fn count(self) -> (r: usize)
        requires
            self.wf(),
        ensures
            r == visited(
                self.metav(),
                self.skips(),
                self.front_pos() as int,
                self.back_pos() as int,
            ).len(),
    {
        let ghost stop = self.back as int;
        let mut k = self.front;
        let mut n: usize = 0;
        loop
            invariant
                self.wf(),
                self.front_pos() as int <= k as int <= stop,
                stop == self.back_pos() as int,
                n + visited(self.metav(), self.skips(), k as int, stop).len() == visited(
                    self.metav(),
                    self.skips(),
                    self.front_pos() as int,
                    stop,
                ).len(),
                n <= k,
            decreases stop - k,
        {
            proof {
                lemma_visited_head(self.metav(), self.skips(), k as int, stop);
            }
            if k >= self.back {
                return n;
            }
            if !self.skip_lost || self.meta[k] != 0 {
                n = n + 1;
            }
            k = k + 1;
        }
    }
}

impl<'a, T> Clone for Iter<'a, T> {
    /// A clone walks the same storage from the same position.
    fn clone(&self) -> (r: Iter<'a, T>)
        ensures
            r.store() == self.store(),
            r.skips() == self.skips(),
            r.pos() == self.pos(),
    {
        Iter { storage: self.storage, skip_lost: self.skip_lost, index: self.index }
    }
}

} // verus!
