use core::sync::atomic::AtomicU64;
use core::sync::atomic::Ordering;
use shared_data::AtomicShared;
use shared_data::AtomicSharedAddress;
use shared_data::AtomicSharedAddressRange;
use shared_data::ObjectOffset;
use shared_data::ObjectSize;
use shared_data::SharedAddress;
use shared_data::SharedAddressRange;
use shared_data::SharedBox;
use shared_data::ShmemAllocator;
use shared_data::ShmemId;
use shared_data::ShmemName;
use shared_data::Volatile;

#[test]
fn test_atomic_address_fetch_add() {
    // A class-4 segment holds 16 bytes: two 8-byte bumps succeed, the
    // third runs past the end, is undone, and fails; after the undo
    // the failure repeats without moving the cursor.
    let cursor = AtomicSharedAddress::new(SharedAddress::new(
        ShmemId(0),
        ObjectSize(4),
        ObjectOffset(0),
    ));
    let first = cursor.fetch_add(ObjectSize(3), Ordering::SeqCst).unwrap();
    assert_eq!(first.object_offset(), ObjectOffset(0));
    assert_eq!(first.object_size(), ObjectSize(3));
    let second = cursor.fetch_add(ObjectSize(3), Ordering::SeqCst).unwrap();
    assert_eq!(second.object_offset(), ObjectOffset(8));
    assert!(cursor.fetch_add(ObjectSize(3), Ordering::SeqCst).is_none());
    assert!(cursor.fetch_add(ObjectSize(3), Ordering::SeqCst).is_none());
    let after = cursor.load(Ordering::SeqCst);
    assert_eq!(after.object_offset(), ObjectOffset(16));
}

#[test]
fn test_atomic_address_compare_and_swap() {
    let zero = SharedAddress::from_u64(0);
    let cursor = AtomicSharedAddress::new(zero);
    let fresh = SharedAddress::new(ShmemId(1), ObjectSize(4), ObjectOffset(0));
    let seen = cursor.compare_and_swap(zero, fresh, Ordering::SeqCst);
    assert_eq!(seen, zero);
    assert_eq!(cursor.load(Ordering::SeqCst), fresh);
    // A stale compare fails and reports the current value.
    let stale = cursor.compare_and_swap(zero, fresh, Ordering::SeqCst);
    assert_eq!(stale, fresh);
}

#[test]
fn test_atomic_range_store_load() {
    let cell = AtomicSharedAddressRange::new(SharedAddressRange::null());
    let range = SharedAddressRange::new(ShmemId(2), ObjectSize(10), ObjectOffset(24), ObjectSize(3));
    cell.store(range, Ordering::SeqCst);
    assert_eq!(cell.load(Ordering::SeqCst), range);
    let seen = cell.compare_and_swap(range, SharedAddressRange::null(), Ordering::SeqCst);
    assert_eq!(seen, range);
    assert_eq!(cell.load(Ordering::SeqCst), SharedAddressRange::null());
}

#[test]
fn test_atomic_shared_box() {
    let mut alloc = ShmemAllocator::create(ShmemName::from_str("bootstrap").unwrap());
    let boxed: SharedBox<u64> = SharedBox::new_in(37, &mut alloc).unwrap();
    let address = boxed.address();
    let cell: AtomicShared<SharedBox<u64>> = AtomicShared::new(boxed);
    let reloaded = cell.try_load(Ordering::SeqCst).unwrap();
    assert_eq!(reloaded.address(), address);
    assert_eq!(reloaded.get_in(&alloc).unwrap(), 37);
}

#[test]
fn test_volatile_cell() {
    let mut cell = Volatile::new(5u64);
    assert_eq!(cell.read_volatile(), 5);
    cell.write_volatile(37);
    assert_eq!(cell.read_volatile(), 37);
    // Only volatile-safe types may be borrowed in place.
    let atomic_cell = Volatile::new(AtomicU64::new(7));
    assert_eq!(atomic_cell.borrow().load(Ordering::SeqCst), 7);
}
