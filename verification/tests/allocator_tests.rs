use shared_data::ObjectSize;
use shared_data::ShmemAllocator;
use shared_data::ShmemName;

fn fresh_allocator() -> ShmemAllocator {
    ShmemAllocator::create(ShmemName::from_str("bootstrap").unwrap())
}

#[test]
fn test_name_too_long() {
    assert!(ShmemName::from_str("a-name-of-exactly-32-bytes-long-").is_some());
    assert!(ShmemName::from_str("a-name-that-runs-over-thirty-two-bytes").is_none());
}

#[test]
fn test_alloc_returns_full_size_class() {
    let mut alloc = fresh_allocator();
    // A one-byte request is clamped to the 8-byte minimum.
    let range = alloc.alloc_bytes(1).unwrap();
    assert_eq!(range.object_size(), ObjectSize(3));
    let bytes = alloc.get_bytes(range).unwrap();
    assert_eq!(bytes.len(), 8);
    // A 9-byte request rounds to 16 bytes.
    let range = alloc.alloc_bytes(9).unwrap();
    let bytes = alloc.get_bytes(range).unwrap();
    assert_eq!(bytes.len(), 16);
    // A zero-byte request still occupies the minimum class.
    let range = alloc.alloc_bytes(0).unwrap();
    let bytes = alloc.get_bytes(range).unwrap();
    assert_eq!(bytes.len(), 8);
}

#[test]
fn test_allocations_disjoint() {
    let mut alloc = fresh_allocator();
    let mut ranges = Vec::new();
    for i in 0..100 {
        ranges.push(alloc.alloc_bytes(1 + (i % 40)).unwrap());
    }
    for a in 0..ranges.len() {
        for b in 0..ranges.len() {
            if a != b {
                let ra = ranges[a];
                let rb = ranges[b];
                let same_segment = ra.shmem_id() == rb.shmem_id();
                let a_end = ra.object_end().unwrap().to_u64();
                let b_end = rb.object_end().unwrap().to_u64();
                let a_start = ra.object_offset().to_u64();
                let b_start = rb.object_offset().to_u64();
                assert!(!same_segment || a_end <= b_start || b_end <= a_start);
            }
        }
    }
}

#[test]
fn test_huge_request_refused() {
    // A request whose class cannot fit the 32-bit offset field is
    // refused rather than handed out out of range.
    let mut alloc = fresh_allocator();
    assert!(alloc.alloc_bytes(u32::MAX as usize).is_none());
    // The allocator still serves ordinary requests afterwards.
    assert!(alloc.alloc_bytes(64).is_some());
}

#[test]
fn test_max_segments_exhausts() {
    let mut alloc = fresh_allocator();
    for _ in 0..64 {
        assert!(alloc.alloc_shmem(64).is_some());
    }
    assert!(alloc.alloc_shmem(64).is_none());
    assert_eq!(alloc.get_num_shmems(), 64);
}

#[test]
fn test_cursor_overflow_triggers_growth() {
    let mut alloc = fresh_allocator();
    // The first allocation creates the first segment.
    let first = alloc.alloc_bytes(8).unwrap();
    assert_eq!(alloc.get_num_shmems(), 1);
    let first_segment = first.shmem_id();
    // Keep allocating until the allocator moves to a new segment;
    // every handed-out range must still resolve in full.
    let mut grew = false;
    for _ in 0..64 {
        let range = alloc.alloc_bytes(8).unwrap();
        let bytes = alloc.get_bytes(range).unwrap();
        assert_eq!(bytes.len(), 8);
        if range.shmem_id() != first_segment {
            grew = true;
            break;
        }
    }
    assert!(grew);
    assert!(alloc.get_num_shmems() >= 2);
}

#[test]
fn test_segment_names_published() {
    let mut alloc = fresh_allocator();
    let id = alloc.alloc_shmem(128).unwrap();
    let name = alloc.get_shmem_name(id).unwrap();
    assert!(name.as_str().len() <= 32);
    assert!(alloc.get_shmem_name(shared_data::ShmemId(63)).is_none());
}

#[test]
fn test_segment_growth() {
    // A large batch of 8-byte allocations: the segment family grows,
    // and every address resolves to its own 8-byte range.
    let mut alloc = fresh_allocator();
    let mut previous_segments = 0;
    let mut count: u64 = 0;
    for i in 0..1_000_000u64 {
        let range = alloc.alloc_bytes(8).unwrap();
        if i % 65536 == 0 {
            let bytes = alloc.get_bytes(range).unwrap();
            assert_eq!(bytes.len(), 8);
            let segments = alloc.get_num_shmems();
            assert!(segments >= previous_segments);
            previous_segments = segments;
        }
        count += 1;
    }
    assert_eq!(count, 1_000_000);
    // Doubling from 8 bytes to past 8 MB takes many segments.
    assert!(alloc.get_num_shmems() >= 10);
}
