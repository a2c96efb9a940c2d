use shared_data::ObjectSize;
use shared_data::SharedAddressRange;
use shared_data::SharedBox;
use shared_data::SharedOption;
use shared_data::SharedRc;
use shared_data::SharedVec;
use shared_data::ShmemAllocator;
use shared_data::ShmemName;

fn fresh_allocator() -> ShmemAllocator {
    ShmemAllocator::create(ShmemName::from_str("bootstrap").unwrap())
}

#[test]
fn test_one_box() {
    let mut alloc = fresh_allocator();
    let boxed: SharedBox<u64> = SharedBox::new_in(37, &mut alloc).unwrap();
    let val = boxed.get_in(&alloc).unwrap();
    assert_eq!(val, 37);
}

#[test]
fn test_five_boxes() {
    let mut alloc = fresh_allocator();
    let boxed: [SharedBox<u64>; 5] = [
        SharedBox::new_in(1, &mut alloc).unwrap(),
        SharedBox::new_in(2, &mut alloc).unwrap(),
        SharedBox::new_in(3, &mut alloc).unwrap(),
        SharedBox::new_in(4, &mut alloc).unwrap(),
        SharedBox::new_in(5, &mut alloc).unwrap(),
    ];
    for i in 0..5 {
        let val = boxed[i].get_in(&alloc).unwrap();
        assert_eq!(val, i as u64 + 1);
    }
}

#[test]
fn test_box_address_round_trip() {
    // The box travels to a peer as its packed 64-bit address and is
    // rebuilt there; the value read back is bits-equal.
    let mut alloc = fresh_allocator();
    let boxed: SharedBox<u64> = SharedBox::new_in(37, &mut alloc).unwrap();
    let wire: u64 = boxed.into_address().to_u64();
    let address = SharedAddressRange::from_u64(wire);
    let rebuilt: SharedBox<u64> = SharedBox::try_from_address(address).unwrap();
    assert_eq!(rebuilt.get_in(&alloc).unwrap(), 37);
}

#[test]
fn test_box_try_from_rejects_small_range() {
    let mut alloc = fresh_allocator();
    let boxed: SharedBox<u64> = SharedBox::new_in(37, &mut alloc).unwrap();
    let mut address = boxed.into_address();
    // Shrink the claimed object size below a u64: reconstruction must
    // refuse it.
    address.object_size = ObjectSize(0);
    assert!(SharedBox::<u64>::try_from_address(address).is_none());
}

#[test]
fn test_rc() {
    let mut alloc = fresh_allocator();
    let rc: SharedRc<u64> = SharedRc::try_new(37, &mut alloc).unwrap();
    let val = rc.get_in(&alloc).unwrap();
    assert_eq!(val, 37);
}

#[test]
fn test_rc_count() {
    // Count one at birth; two after a clone; back down as handles
    // drop; the payload stays live and intact throughout.
    let mut alloc = fresh_allocator();
    let rc: SharedRc<u64> = SharedRc::try_new(5, &mut alloc).unwrap();
    assert_eq!(rc.ref_count_in(&alloc), 1);
    let rc2 = rc.clone_in(&mut alloc);
    assert_eq!(rc.ref_count_in(&alloc), 2);
    assert_eq!(rc2.get_in(&alloc).unwrap(), 5);
    rc2.drop_in(&mut alloc);
    assert_eq!(rc.ref_count_in(&alloc), 1);
    assert_eq!(rc.get_in(&alloc).unwrap(), 5);
    rc.drop_in(&mut alloc);
}

#[test]
fn test_rc_address_round_trip() {
    // The cell travels to a peer as its packed address; the peer
    // takes a share on reconstruction, so both handles own a
    // reference and the payload reads back intact.
    let mut alloc = fresh_allocator();
    let rc: SharedRc<u64> = SharedRc::try_new(37, &mut alloc).unwrap();
    let wire: u64 = rc.address().to_u64();
    let address = SharedAddressRange::from_u64(wire);
    let peer: SharedRc<u64> = SharedRc::try_from_address_in(address, &mut alloc).unwrap();
    assert_eq!(rc.ref_count_in(&alloc), 2);
    assert_eq!(peer.get_in(&alloc).unwrap(), 37);
    peer.drop_in(&mut alloc);
    assert_eq!(rc.ref_count_in(&alloc), 1);
    assert_eq!(rc.get_in(&alloc).unwrap(), 37);
}

#[test]
fn test_vector() {
    let mut alloc = fresh_allocator();
    let items: Vec<u64> = (0..37).map(|i| i + 1).collect();
    let vec: SharedVec<u64> = SharedVec::from_iter_in(items, &mut alloc).unwrap();
    let mut last = 0;
    for i in 0..vec.len() {
        let val = vec.get_in(&alloc, i).unwrap();
        assert_eq!(val, i as u64 + 1);
        assert_eq!(last, i as u64);
        last = val;
    }
    assert_eq!(last, 37);
}

#[test]
fn tests_test_vector() {
    let mut alloc = fresh_allocator();
    let items: Vec<u64> = (0..37).map(|i| i + 1).collect();
    let vec: SharedVec<u64> = SharedVec::from_iter_in(items, &mut alloc).unwrap();
    assert_eq!(vec.len(), 37);
    let mut last = 0;
    for i in 0..vec.len() {
        let val = vec.get_in(&alloc, i).unwrap();
        assert_eq!(val, i as u64 + 1);
        last = val;
    }
    assert_eq!(last, 37);
    assert!(vec.get_in(&alloc, 37).is_none());
}

#[test]
fn test_option_states() {
    let mut cell: SharedOption<u64> = SharedOption::none();
    assert!(cell.volatile_peek().is_none());
    assert!(cell.take().is_none());
    assert_eq!(cell.put(5), Ok(()));
    assert_eq!(cell.volatile_peek(), Some(&5));
    // A second put finds the cell occupied and hands the value back.
    assert_eq!(cell.put(6), Err(6));
    assert_eq!(cell.take(), Some(5));
    assert!(cell.take().is_none());
    let mut full: SharedOption<u64> = SharedOption::some(7);
    assert_eq!(full.take(), Some(7));
}
