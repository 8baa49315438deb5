//! The packed handle bitfield: `(storage_id, epoch, index)` in one 64-bit word.
//!
//! The index occupies the low `INDEX_BITS` bits, the epoch the next
//! `EPOCH_BITS` bits, and the storage id the top `STORAGE_ID_BITS` bits.

use vstd::prelude::*;

verus! {

/// Number of bits of the packed word that hold the slot index.
pub const INDEX_BITS: u64 = 40;

/// Number of bits of the packed word that hold the slot epoch.
pub const EPOCH_BITS: u64 = 16;

/// Number of bits of the packed word that hold the storage id.
pub const STORAGE_ID_BITS: u64 = 8;

/// Mask selecting the index lane of the packed word.
pub const INDEX_MASK: u64 = 0xff_ffff_ffff;

/// First bit of the epoch lane.
pub const EPOCH_OFFSET: u64 = 40;

/// Mask selecting the epoch lane of the packed word.
pub const EPOCH_MASK: u64 = 0x00ff_ff00_0000_0000;

/// First bit of the storage-id lane.
pub const STORAGE_ID_OFFSET: u64 = 56;

/// Mask selecting the storage-id lane of the packed word.
pub const STORAGE_ID_MASK: u64 = 0xff00_0000_0000_0000;

/// One more than the greatest index that fits in the index lane.
pub const INDEX_LIMIT: u64 = 0x100_0000_0000;

/// A `(storage_id, epoch, index)` triple packed into a single 64-bit word.
///
/// Equality and hashing are over the whole word; the word alone identifies
/// one incarnation of one slot of one storage.
#[derive(Copy, Clone, Debug, PartialEq, Eq, Structural, Hash)]
pub struct PointerData(pub u64);

/// The packed word holding index `index`, epoch `epoch` and storage id `storage`.
pub open spec fn spec_pack(index: usize, epoch: u16, storage: u8) -> u64 {
    (index as u64) | ((epoch as u64) << EPOCH_OFFSET) | ((storage as u64) << STORAGE_ID_OFFSET)
}

impl PointerData {
    /// The index lane of the packed word.
    pub open spec fn spec_index(self) -> usize {
        (self.0 & INDEX_MASK) as usize
    }

    /// The epoch lane of the packed word.
    pub open spec fn spec_epoch(self) -> u16 {
        ((self.0 & EPOCH_MASK) >> EPOCH_OFFSET) as u16
    }

    /// The storage-id lane of the packed word.
    pub open spec fn spec_storage_id(self) -> u8 {
        ((self.0 & STORAGE_ID_MASK) >> STORAGE_ID_OFFSET) as u8
    }

    /// Pack a triple into one word. Each field must fit its lane; the epoch
    /// and storage-id types are as wide as their lanes, so only the index
    /// needs a bound.
    pub fn new(index: usize, epoch: u16, storage: u8) -> (r: PointerData)
        requires
            index < INDEX_LIMIT,
        ensures
            r.0 == spec_pack(index, epoch, storage),
            r.spec_index() == index,
            r.spec_epoch() == epoch,
            r.spec_storage_id() == storage,
    {
        let r = PointerData(
            (index as u64) | ((epoch as u64) << EPOCH_OFFSET) | ((storage as u64)
                << STORAGE_ID_OFFSET),
        );
        proof {
            lemma_pack_fields(index, epoch, storage);
        }
        r
    }

    /// Read the index lane.
    #[verifier::when_used_as_spec(spec_index)]
    pub fn get_index(self) -> (r: usize)
        ensures
            r == self.spec_index(),
    {
        proof {
            let w = self.0;
            assert((w & 0xff_ffff_ffffu64) < 0x100_0000_0000u64) by (bit_vector);
        }
        (self.0 & INDEX_MASK) as usize
    }

    /// Read the epoch lane.
    #[verifier::when_used_as_spec(spec_epoch)]
    pub fn get_epoch(self) -> (r: u16)
        ensures
            r == self.spec_epoch(),
    {
        proof {
            let w = self.0;
            assert(((w & 0x00ff_ff00_0000_0000u64) >> 40u64) < 0x1_0000u64) by (bit_vector);
        }
        ((self.0 & EPOCH_MASK) >> EPOCH_OFFSET) as u16
    }

    /// Read the storage-id lane.
    #[verifier::when_used_as_spec(spec_storage_id)]
    pub fn get_storage_id(self) -> (r: u8)
        ensures
            r == self.spec_storage_id(),
    {
        proof {
            let w = self.0;
            assert(((w & 0xff00_0000_0000_0000u64) >> 56u64) < 0x100u64) by (bit_vector);
        }
        ((self.0 & STORAGE_ID_MASK) >> STORAGE_ID_OFFSET) as u8
    }

    /// The same word with the epoch lane replaced by `epoch`.
    pub fn with_epoch(self, epoch: u16) -> (r: PointerData)
        ensures
            r.spec_index() == self.spec_index(),
            r.spec_epoch() == epoch,
            r.spec_storage_id() == self.spec_storage_id(),
    {
        let r = PointerData((self.0 & !EPOCH_MASK) | ((epoch as u64) << EPOCH_OFFSET));
        proof {
            let w = self.0;
            let e = epoch as u64;
            assert(((w & !0x00ff_ff00_0000_0000u64) | (e << 40u64)) & 0xff_ffff_ffffu64 == w
                & 0xff_ffff_ffffu64) by (bit_vector)
                requires
                    e < 0x1_0000u64,
            ;
            assert((((w & !0x00ff_ff00_0000_0000u64) | (e << 40u64)) & 0x00ff_ff00_0000_0000u64)
                >> 40u64 == e) by (bit_vector)
                requires
                    e < 0x1_0000u64,
            ;
            assert(((((w & !0x00ff_ff00_0000_0000u64) | (e << 40u64)) & 0xff00_0000_0000_0000u64)
                >> 56u64) == (w & 0xff00_0000_0000_0000u64) >> 56u64) by (bit_vector)
                requires
                    e < 0x1_0000u64,
            ;
        }
        r
    }
}

/// The three lanes of a packed word read back exactly what was packed.
pub proof fn lemma_pack_fields(index: usize, epoch: u16, storage: u8)
    requires
        index < INDEX_LIMIT,
    ensures
        PointerData(spec_pack(index, epoch, storage)).spec_index() == index,
        PointerData(spec_pack(index, epoch, storage)).spec_epoch() == epoch,
        PointerData(spec_pack(index, epoch, storage)).spec_storage_id() == storage,
{
    let i = index as u64;
    let e = epoch as u64;
    let s = storage as u64;
    assert((i | (e << 40u64) | (s << 56u64)) & 0xff_ffff_ffffu64 == i) by (bit_vector)
        requires
            i < 0x100_0000_0000u64,
    ;
    assert(((i | (e << 40u64) | (s << 56u64)) & 0x00ff_ff00_0000_0000u64) >> 40u64 == e)
        by (bit_vector)
        requires
            i < 0x100_0000_0000u64,
            e < 0x1_0000u64,
    ;
    assert(((i | (e << 40u64) | (s << 56u64)) & 0xff00_0000_0000_0000u64) >> 56u64 == s)
        by (bit_vector)
        requires
            i < 0x100_0000_0000u64,
            e < 0x1_0000u64,
            s < 0x100u64,
    ;
}

} // verus!
