use froggy::Storage;

#[test]
fn refcount_after_sync() {
    let mut storage = Storage::new();
    let p = storage.create(10 as i32);
    let q = p.clone();
    drop(p);
    storage.sync_pending();
    // One strong handle is still alive, so the slot stays referenced.
    assert_eq!(storage.iter().count(), 1);
    drop(q);
    storage.sync_pending();
    assert_eq!(storage.iter().count(), 0);
}

#[test]
fn slot_reuse_keeps_weak_dead() {
    let mut storage = Storage::new();
    let weak = {
        let p = storage.create(7 as i32);
        p.downgrade()
    };
    storage.sync_pending();
    // The slot is recycled for the next component at a later epoch.
    let q = storage.create(8 as i32);
    assert_eq!(*storage.get(&q), 8);
    assert!(weak.upgrade().is_err());
    let w2 = q.downgrade();
    assert!(w2.upgrade().is_ok());
}

#[test]
fn cursor_live() {
    let mut storage = Storage::new();
    let mut kept = Vec::new();
    for v in [5 as i32, 7, 4, 6, 7] {
        kept.push(storage.create(v));
    }
    let expected = [5 as i32, 7, 4, 6, 7];
    let mut seen = Vec::new();
    let mut pinned = Vec::new();
    let mut cursor = storage.cursor();
    while let Some((_, item, _)) = cursor.next() {
        seen.push(*item);
        pinned.push(item.pin());
    }
    assert_eq!(seen, expected);
    let mut back = Vec::new();
    let mut cursor = storage.cursor_end();
    while let Some((_, item, _)) = cursor.prev() {
        back.push(*item);
    }
    assert_eq!(back, vec![7 as i32, 6, 4, 7, 5]);
}

#[test]
fn cursor_peek_sideways() {
    let mut storage = Storage::new();
    let a = storage.create(1u32);
    let _b = storage.create(2u32);
    let c = storage.create(3u32);
    let mut cursor = storage.cursor();
    // Skip to the middle component.
    let _first = cursor.next().unwrap();
    let (left, mut item, mut right) = cursor.next().unwrap();
    assert_eq!(*item, 2);
    *item = 20;
    assert_eq!(left.get(&a), Some(&1));
    if let Some(v) = right.get_mut(&c) {
        *v = 30;
    }
    drop((left, item, right));
    assert_eq!(*storage.get(&a), 1);
    assert_eq!(*storage.get(&c), 30);
}

#[test]
fn slice_write_through() {
    let mut storage = Storage::new();
    let a = storage.create(1u32);
    let b = storage.create(2u32);
    let _c = storage.create(3u32);
    {
        let (mut left, mid, _right) = storage.split(&b);
        assert_eq!(*mid, 2);
        if let Some(v) = left.get_mut(&a) {
            *v = 9;
        }
    }
    assert_eq!(*storage.get(&a), 9);
}

#[test]
fn zombie_pin_revives() {
    let mut storage: Storage<i32> = Storage::from_iterator(vec![4, 5, 6]);
    assert_eq!(storage.iter().count(), 0);
    let ptr = {
        let mut it = storage.iter_all();
        let item = it.nth(1).unwrap();
        storage.pin(&item)
    };
    storage.sync_pending();
    // The pinned zombie slot is referenced now; the other two are not.
    assert_eq!(storage.iter().count(), 1);
    assert_eq!(*storage.get(&ptr), 5);
}

#[test]
fn iter_mut_backwards() {
    let mut storage = Storage::new();
    let kept: Vec<_> = [1 as i32, 2, 3].iter().map(|v| storage.create(*v)).collect();
    let mut it = storage.iter_mut();
    let mut seen = Vec::new();
    while let Some(v) = it.next_back() {
        seen.push(*v);
        *v += 10;
    }
    assert_eq!(seen, vec![3, 2, 1]);
    assert_eq!(*storage.get(&kept[0]), 11);
    assert_eq!(*storage.get(&kept[2]), 13);
}

#[test]
fn with_capacity_works_like_new() {
    let mut storage = Storage::with_capacity(16);
    let p = storage.create(42u64);
    assert_eq!(*storage.get(&p), 42);
    assert_eq!(storage.iter().count(), 1);
}
