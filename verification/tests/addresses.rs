use shared_data::ObjectOffset;
use shared_data::ObjectSize;
use shared_data::SharedAddress;
use shared_data::SharedAddressRange;
use shared_data::ShmemId;

#[test]
fn test_object_size_boundaries() {
    // Size classes for the boundary requests: 1, 7, 8, 9 bytes.
    assert_eq!(ObjectSize::ceil(1), ObjectSize(0));
    assert_eq!(ObjectSize::ceil(7), ObjectSize(3));
    assert_eq!(ObjectSize::ceil(8), ObjectSize(3));
    assert_eq!(ObjectSize::ceil(9), ObjectSize(4));
    assert_eq!(ObjectSize::ceil(u32::MAX as usize), ObjectSize(32));
    assert_eq!(ObjectSize::floor(1), ObjectSize(0));
    assert_eq!(ObjectSize::floor(7), ObjectSize(2));
    assert_eq!(ObjectSize::floor(8), ObjectSize(3));
    assert_eq!(ObjectSize::floor(9), ObjectSize(3));
}

#[test]
fn test_object_size_codec() {
    assert_eq!(ObjectSize(3).to_u64(), Some(8));
    assert_eq!(ObjectSize(0).to_u64(), Some(1));
    assert_eq!(ObjectSize(63).to_u64(), Some(1u64 << 63));
    assert_eq!(ObjectSize(64).to_u64(), None);
    assert_eq!(ObjectSize(62).to_i64(), Some(1i64 << 62));
    assert_eq!(ObjectSize(63).to_i64(), None);
    assert_eq!(ObjectSize::from_u64(8), Some(ObjectSize(3)));
    assert_eq!(ObjectSize::from_u64(1), Some(ObjectSize(0)));
    assert_eq!(ObjectSize::from_u64(9), None);
    assert_eq!(ObjectSize::from_u64(0), None);
    assert_eq!(ObjectSize::from_i64(-8), None);
    assert_eq!(ObjectSize::from_i64(16), Some(ObjectSize(4)));
}

#[test]
fn test_address_u64_round_trip() {
    let a = SharedAddress::new(ShmemId(5), ObjectSize(20), ObjectOffset(4096));
    let packed = a.to_u64();
    assert_eq!(SharedAddress::from_u64(packed), a);
    // The layout: offset in the low word, then the padding byte, the
    // segment size class, and the segment id on top.
    assert_eq!(packed & 0xFFFF_FFFF, 4096);
    assert_eq!((packed >> 40) & 0xFF, 20);
    assert_eq!(packed >> 48, 5);

    let range = SharedAddressRange::new(ShmemId(7), ObjectSize(16), ObjectOffset(64), ObjectSize(3));
    let packed = range.to_u64();
    assert_eq!(SharedAddressRange::from_u64(packed), range);
    assert_eq!((packed >> 32) & 0xFF, 3);
}

#[test]
fn test_null_range_is_zero() {
    let null = SharedAddressRange::null();
    assert_eq!(null.to_u64(), 0);
    assert_eq!(SharedAddressRange::from_u64(0), null);
}

#[test]
fn test_checked_add_bounds() {
    // A class-4 segment holds 16 bytes: an 8-byte object fits at
    // offset 8 but not at offset 9.
    let a = SharedAddress::new(ShmemId(0), ObjectSize(4), ObjectOffset(8));
    let range = a.checked_add(ObjectSize(3)).unwrap();
    assert_eq!(range.object_offset(), ObjectOffset(8));
    assert_eq!(range.object_size(), ObjectSize(3));
    assert_eq!(range.object_end(), Some(ObjectOffset(16)));

    let a = SharedAddress::new(ShmemId(0), ObjectSize(4), ObjectOffset(9));
    assert!(a.checked_add(ObjectSize(3)).is_none());

    // An object as large as the whole segment fits only at offset 0.
    let a = SharedAddress::new(ShmemId(0), ObjectSize(4), ObjectOffset(0));
    assert!(a.checked_add(ObjectSize(4)).is_some());
    let a = SharedAddress::new(ShmemId(0), ObjectSize(4), ObjectOffset(1));
    assert!(a.checked_add(ObjectSize(4)).is_none());
}
