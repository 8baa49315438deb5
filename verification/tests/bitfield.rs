use froggy::bitfield::{EPOCH_BITS, INDEX_BITS, PointerData, STORAGE_ID_BITS};
use std::mem::size_of;

#[test]
fn bitfield_sizes() {
    assert_eq!(INDEX_BITS + EPOCH_BITS + STORAGE_ID_BITS, 64);
    assert!(size_of::<usize>() * 8 >= INDEX_BITS as usize);
    assert!(size_of::<u16>() * 8 >= EPOCH_BITS as usize);
    assert!(size_of::<u8>() * 8 >= STORAGE_ID_BITS as usize);
}

#[test]
fn new() {
    let pd = PointerData::new(1, 2, 3);
    assert_eq!(pd.get_index(), 1);
    assert_eq!(pd.get_epoch(), 2);
    assert_eq!(pd.get_storage_id(), 3);
    assert_eq!(pd.with_epoch(5).get_epoch(), 5);
}

#[test]
fn lane_edges() {
    let pd = PointerData::new(0xff_ffff_fffe, 0xffff, 0xff);
    assert_eq!(pd.get_index(), 0xff_ffff_fffe);
    assert_eq!(pd.get_epoch(), 0xffff);
    assert_eq!(pd.get_storage_id(), 0xff);
    let pd2 = pd.with_epoch(0);
    assert_eq!(pd2.get_index(), 0xff_ffff_fffe);
    assert_eq!(pd2.get_epoch(), 0);
    assert_eq!(pd2.get_storage_id(), 0xff);
}
