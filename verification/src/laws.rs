//! Laws of the engine, stated and proved over its models.
//!
//! These connect the sync model of `sync_spec` with reference counting and
//! epoch-based liveness, and state the algebra of handle equality and
//! ordering.

use vstd::prelude::*;

use crate::cursor::Slice;
use crate::pending::PendingView;
use crate::pointer::{spec_handle_cmp, Pointer};
use crate::sync::{apply_adds, apply_subs, drains_to, next_epoch, pad_epoch, sync_spec, SyncView};
use vstd::std_specs::cmp::{PartialEqSpec, PartialOrdSpec};

verus! {

/// How many times slot `i` occurs in a journalled list.
pub open spec fn count_of(s: Seq<usize>, i: usize) -> nat
    decreases s.len(),
{
    if s.len() == 0 {
        0
    } else {
        count_of(s.drop_last(), i) + if s.last() == i {
            1nat
        } else {
            0nat
        }
    }
}

/// Applying the adds bumps slot `i` by its number of occurrences, as long
/// as the result fits the refcount type.
proof fn lemma_adds_at(meta: Seq<u16>, adds: Seq<usize>, i: usize)
    requires
        i < meta.len(),
        meta[i as int] + count_of(adds, i) <= 0xffff,
    ensures
        apply_adds(meta, adds)[i as int] == meta[i as int] + count_of(adds, i),
    decreases adds.len(),
{
    crate::sync::lemma_apply_adds_len(meta, adds);
    if adds.len() != 0 {
        lemma_adds_at(meta, adds.drop_last(), i);
        crate::sync::lemma_apply_adds_len(meta, adds.drop_last());
    }
}

/// Applying the subs drops slot `i` by its number of occurrences, as long
/// as they do not outnumber its count; exactly on the transition to zero of
/// a live slot, its epoch moves to the next one.
proof fn lemma_subs_at(s: SyncView, subs: Seq<usize>, id: u8, i: usize)
    requires
        i < s.meta.len(),
        i < s.epoch.len(),
        count_of(subs, i) <= s.meta[i as int],
    ensures
        apply_subs(s, subs, id).meta[i as int] == s.meta[i as int] - count_of(subs, i),
        apply_subs(s, subs, id).epoch[i as int] == if count_of(subs, i) == s.meta[i as int]
            && s.meta[i as int] > 0 {
            next_epoch(s.epoch[i as int])
        } else {
            s.epoch[i as int]
        },
    decreases subs.len(),
{
    crate::sync::lemma_apply_subs_len(s, subs, id);
    if subs.len() != 0 {
        lemma_subs_at(s, subs.drop_last(), id, i);
        crate::sync::lemma_apply_subs_len(s, subs.drop_last(), id);
    }
}

/// Reference counts after one sync. When the journal records every clone
/// (one add-ref) and every drop (one sub-ref) of the strong handles on slot
/// `i`, the slot's count after the sync is its count before plus the adds
/// minus the subs: with an accurate journal, exactly the number of strong
/// handles still alive.
pub proof fn lemma_sync_refcount(s: SyncView, adds: Seq<usize>, subs: Seq<usize>, id: u8, i: usize)
    requires
        i < s.meta.len(),
        s.meta[i as int] + count_of(adds, i) <= 0xffff,
        count_of(subs, i) <= s.meta[i as int] + count_of(adds, i),
    ensures
        sync_spec(s, adds, subs, id).meta[i as int] == s.meta[i as int] + count_of(adds, i)
            - count_of(subs, i),
{
    let padded = pad_epoch(s.epoch, s.meta.len() as int);
    assert(padded.len() >= s.meta.len());
    lemma_adds_at(s.meta, adds, i);
    let s2 = SyncView { meta: apply_adds(s.meta, adds), epoch: padded, free: s.free };
    crate::sync::lemma_apply_adds_len(s.meta, adds);
    lemma_subs_at(s2, subs, id, i);
}

/// The same refcount law in the language of `Storage::sync_pending`, whose
/// contract states that the refcount table and free list after a sync are
/// `drains_to`-related to the tables before it by the drained journal.
pub proof fn lemma_drains_to_refcount(
    m0: Seq<u16>,
    f0: Seq<crate::bitfield::PointerData>,
    ops: PendingView,
    id: u8,
    m1: Seq<u16>,
    f1: Seq<crate::bitfield::PointerData>,
    i: usize,
)
    requires
        drains_to(m0, f0, ops, id, m1, f1),
        i < m0.len(),
        m0[i as int] + count_of(ops.add_ref, i) <= 0xffff,
        count_of(ops.sub_ref, i) <= m0[i as int] + count_of(ops.add_ref, i),
    ensures
        m1[i as int] == m0[i as int] + count_of(ops.add_ref, i) - count_of(ops.sub_ref, i),
{
    lemma_sync_refcount(
        (SyncView { meta: m0, epoch: ops.epoch, free: f0 }),
        ops.add_ref,
        ops.sub_ref,
        id,
        i,
    );
}

/// Epochs after one sync. A live slot whose refcount the sync takes to
/// zero gets the next epoch, a strictly larger one while the epoch lane
/// does not wrap. A weak handle stamped with the old epoch therefore fails
/// the upgrade decision of `Pending::try_upgrade`, whose contract makes it
/// succeed exactly on the live epoch; one stamped after the transition
/// carries the new epoch and succeeds.
pub proof fn lemma_sync_epoch_bump(
    s: SyncView,
    adds: Seq<usize>,
    subs: Seq<usize>,
    id: u8,
    i: usize,
)
    requires
        i < s.meta.len(),
        s.meta[i as int] + count_of(adds, i) <= 0xffff,
        count_of(subs, i) == s.meta[i as int] + count_of(adds, i),
        s.meta[i as int] + count_of(adds, i) > 0,
        pad_epoch(s.epoch, s.meta.len() as int)[i as int] < 0xffff,
    ensures
        sync_spec(s, adds, subs, id).meta[i as int] == 0,
        sync_spec(s, adds, subs, id).epoch[i as int] == pad_epoch(
            s.epoch,
            s.meta.len() as int,
        )[i as int] + 1,
        sync_spec(s, adds, subs, id).epoch[i as int] != pad_epoch(
            s.epoch,
            s.meta.len() as int,
        )[i as int],
{
    let padded = pad_epoch(s.epoch, s.meta.len() as int);
    assert(padded.len() >= s.meta.len());
    lemma_adds_at(s.meta, adds, i);
    let s2 = SyncView { meta: apply_adds(s.meta, adds), epoch: padded, free: s.free };
    crate::sync::lemma_apply_adds_len(s.meta, adds);
    lemma_subs_at(s2, subs, id, i);
}

/// Handle equality is an equivalence: reflexive, symmetric and transitive;
/// and equal handles have equal hash words, the packed word that
/// `Pointer::hash_value` returns.
pub proof fn lemma_handle_eq_laws<T>(a: &Pointer<T>, b: &Pointer<T>, c: &Pointer<T>)
    ensures
        a.eq_spec(a),
        a.eq_spec(b) == b.eq_spec(a),
        a.eq_spec(b) && b.eq_spec(c) ==> a.eq_spec(c),
        a.eq_spec(b) ==> a@.0 == b@.0,
{
}

/// The partial order of handles: two handles of one storage order by slot
/// index, with `a < b` exactly when `a`'s index is smaller; two handles of
/// different storages are incomparable, and unequal.
pub proof fn lemma_handle_order<T>(a: &Pointer<T>, b: &Pointer<T>)
    ensures
        a.partial_cmp_spec(b) == spec_handle_cmp(a@, b@),
        a@.spec_storage_id() == b@.spec_storage_id() ==> (a.partial_cmp_spec(b) == Some(
            core::cmp::Ordering::Less,
        ) <==> a@.spec_index() < b@.spec_index()),
        a@.spec_storage_id() != b@.spec_storage_id() ==> a.partial_cmp_spec(b) is None
            && b.partial_cmp_spec(a) is None && !a.eq_spec(b),
{
}

/// A three-way split covers the data exactly: the left range, the pivot
/// slot and the right range concatenate to the whole array.
pub proof fn lemma_split_ranges<T>(data: Seq<T>, j: int)
    requires
        0 <= j < data.len(),
    ensures
        data.subrange(0, j) + seq![data[j]] + data.subrange(j + 1, data.len() as int) =~= data,
{
}

/// The pivot of a split is in neither side: a handle naming the slot a
/// storage was split at falls outside both slices' ranges, so their `get`
/// and `get_mut` return `None` for it.
pub proof fn lemma_split_sides_miss_pivot<T>(left: Slice<'_, T>, right: Slice<'_, T>, j: usize)
    requires
        left.base() == 0,
        left.contents().len() == j,
        right.base() == j + 1,
    ensures
        !(left.base() <= j && j - left.base() < left.contents().len()),
        !(right.base() <= j && j - right.base() < right.contents().len()),
{
}

} // verus!
