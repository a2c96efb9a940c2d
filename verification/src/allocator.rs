//! The segmented shared-memory allocator.
//!
//! The allocator owns a family of up to `MAX_SHMEMS` byte segments and
//! serves allocations by bumping a cursor: a packed `SharedAddress`
//! naming the next unused byte of the current segment.  When a request
//! does not fit the current segment, a fresh segment of at least twice
//! the size is created and the cursor moves to its start.  Every
//! allocation is a `SharedAddressRange` that lies entirely inside its
//! segment, and any two allocations ever handed out are disjoint.
//!
//! Freeing is deferred by design: `free_bytes` records nothing, so an
//! address, once handed out, stays usable for the allocator's whole
//! life and the ranges handed out never overlap.

use vstd::prelude::*;
use vstd::arithmetic::power2::pow2;
use vstd::arithmetic::power2::lemma_pow2_pos;
use vstd::slice::slice_subrange;

use crate::object_offset::ObjectOffset;
use crate::object_size::spec_size_class;
use crate::object_size::lemma_pow2_nondecreasing;
use crate::object_size::ObjectSize;
use crate::shared_address::SharedAddress;
use crate::shared_address_range::SharedAddressRange;
use crate::shmem_id::ShmemId;
use crate::shmem_name::ShmemName;

verus! {

/// The most segments an allocator ever creates.  Segment sizes double,
/// so memory runs out long before the table does.
pub const MAX_SHMEMS: usize = 64;

/// The smallest number of bytes an allocation occupies.
pub const MIN_OBJECT_SIZE: usize = 8;

/// Whether two ranges share no byte: they lie in different segments,
/// or one ends before the other begins.
pub open spec fn ranges_disjoint(a: SharedAddressRange, b: SharedAddressRange) -> bool {
    ||| a.shmem_id.0 != b.shmem_id.0
    ||| a.spec_end() <= b.object_offset.0 as nat
    ||| b.spec_end() <= a.object_offset.0 as nat
}

/// The size class that serves a request of `size` bytes: the request
/// is first clamped up to `MIN_OBJECT_SIZE`, then rounded to the next
/// power of two.
pub open spec fn spec_request_class(size: usize) -> nat {
    if size < MIN_OBJECT_SIZE {
        spec_size_class(MIN_OBJECT_SIZE as nat)
    } else {
        spec_size_class(size as nat)
    }
}

/// The all-zero address, the cursor's value before any segment exists.
pub open spec fn spec_zero_address() -> SharedAddress {
    SharedAddress {
        shmem_id: ShmemId(0),
        shmem_size: ObjectSize(0),
        padding: 0u8,
        object_offset: ObjectOffset(0),
    }
}

/// The segmented allocator: segment table, per-segment names, and the
/// bump cursor, together with the ghost log of every range handed out.
pub struct ShmemAllocator {
    /// The allocator's own name, handed to peers out of band.
    name: ShmemName,
    /// How many segments have been created.
    num_shmems: usize,
    /// Claim flags, one per table slot.
    shmem_used: Vec<bool>,
    /// Segment names, indexed by segment id.
    shmem_names: Vec<ShmemName>,
    /// The segments' bytes, indexed by segment id.
    shmems: Vec<Vec<u8>>,
    /// The cursor: the next unused byte, as a packed address.
    unused: SharedAddress,
    /// Every range handed out, in order.
    allocated: Ghost<Seq<SharedAddressRange>>,
}

impl ShmemAllocator {
    /// The allocator's name.
    pub closed spec fn spec_name(self) -> ShmemName {
        self.name
    }

    /// How many segments have been created.
    pub closed spec fn spec_num_shmems(self) -> int {
        self.num_shmems as int
    }

    /// The bytes of the segment at table index `i`.
    pub closed spec fn spec_segment(self, i: int) -> Seq<u8> {
        self.shmems@[i]@
    }

    /// The name of the segment at table index `i`.
    pub closed spec fn spec_segment_name(self, i: int) -> ShmemName {
        self.shmem_names@[i]
    }

    /// The cursor.
    pub closed spec fn spec_cursor(self) -> SharedAddress {
        self.unused
    }

    /// Every range handed out so far, in order.
    pub closed spec fn spec_allocated(self) -> Seq<SharedAddressRange> {
        self.allocated@
    }

    /// Whether `rng` is a live allocation target: its segment exists,
    /// the segment's length is the declared power of two, and the
    /// range lies inside the segment and below the 32-bit offset
    /// ceiling.
    pub open spec fn range_valid(self, rng: SharedAddressRange) -> bool {
        &&& rng.object_size.0 < 64
        &&& (rng.shmem_id.0 as int) < self.spec_num_shmems()
        &&& self.spec_segment(rng.shmem_id.0 as int).len() == pow2(rng.shmem_size.0 as nat)
        &&& rng.spec_end() <= pow2(rng.shmem_size.0 as nat)
        &&& rng.spec_end() <= u32::MAX as nat
    }

    /// The cursor either is the all-zero address or points at a byte
    /// (possibly one past the end) of an existing segment.
    pub open spec fn cursor_ok(self) -> bool {
        ||| self.spec_cursor() == spec_zero_address()
        ||| {
            &&& self.spec_cursor().padding == 0
            &&& (self.spec_cursor().shmem_id.0 as int) < self.spec_num_shmems()
            &&& self.spec_segment(self.spec_cursor().shmem_id.0 as int).len() == pow2(
                self.spec_cursor().shmem_size.0 as nat,
            )
            &&& self.spec_cursor().object_offset.0 as nat <= pow2(
                self.spec_cursor().shmem_size.0 as nat,
            )
        }
    }

    /// Well-formedness: the table has its fixed shape, claim flags
    /// mirror the published count, the cursor is sound, every range
    /// handed out is live, no range lies beyond the cursor in the
    /// cursor's segment or in a later segment, and all ranges handed
    /// out are pairwise disjoint.
    pub closed spec fn wf(self) -> bool {
        &&& self.shmem_used@.len() == MAX_SHMEMS
        &&& self.shmem_names@.len() == MAX_SHMEMS
        &&& self.shmems@.len() == MAX_SHMEMS
        &&& self.num_shmems <= MAX_SHMEMS
        &&& (forall|i: int|
            0 <= i < MAX_SHMEMS ==> (self.shmem_used@[i] <==> i < self.num_shmems as int))
        &&& (forall|i: int| 0 <= i < MAX_SHMEMS ==> (#[trigger] self.shmem_names@[i]).wf())
        &&& self.name.wf()
        &&& self.cursor_ok()
        &&& (self.unused == spec_zero_address() ==> self.allocated@.len() == 0)
        &&& (forall|k: int|
            0 <= k < self.allocated@.len() ==> self.range_valid(#[trigger] self.allocated@[k]))
        &&& (forall|k: int|
            0 <= k < self.allocated@.len() ==> (#[trigger] self.allocated@[k]).shmem_id.0
                <= self.unused.shmem_id.0)
        &&& (forall|k: int|
            0 <= k < self.allocated@.len() && (#[trigger] self.allocated@[k]).shmem_id.0
                == self.unused.shmem_id.0 ==> self.allocated@[k].spec_end()
                <= self.unused.object_offset.0 as nat)
        &&& (forall|j: int, k: int|
            0 <= j < k < self.allocated@.len() ==> ranges_disjoint(
                #[trigger] self.allocated@[j],
                #[trigger] self.allocated@[k],
            ))
    }

    /// Whether a request of the given class fits at the cursor: the
    /// advanced offset stays inside the segment and inside the 32-bit
    /// offset field.
    pub open spec fn spec_cursor_fits(self, class: nat) -> bool {
        &&& self.spec_cursor().object_offset.0 as nat + pow2(class) <= pow2(
            self.spec_cursor().shmem_size.0 as nat,
        )
        &&& self.spec_cursor().object_offset.0 as nat + pow2(class) <= u32::MAX as nat
    }

    /// The byte length of the cursor's segment, or zero when the
    /// cursor's segment does not exist yet.
    pub open spec fn spec_old_seg_len(self) -> nat {
        if (self.spec_cursor().shmem_id.0 as int) < self.spec_num_shmems() {
            self.spec_segment(self.spec_cursor().shmem_id.0 as int).len()
        } else {
            0
        }
    }

    /// The class of the segment that growth would create for a request
    /// of the given class: large enough for the request and at least
    /// one byte more than the current segment, rounded up (so at least
    /// double).
    pub open spec fn spec_growth_class(self, class: nat) -> nat {
        let doubled = spec_size_class(self.spec_old_seg_len() + 1);
        if class > doubled {
            class
        } else {
            doubled
        }
    }

    /// Whether growth can serve a request of the given class: a table
    /// slot is free and the grown segment's byte count is expressible.
    pub open spec fn spec_can_grow(self, class: nat) -> bool {
        &&& self.spec_num_shmems() < MAX_SHMEMS
        &&& self.spec_growth_class(class) < 64
        &&& pow2(self.spec_growth_class(class)) <= usize::MAX as nat
    }

    /// Whether a request of `size` bytes can be served: its class
    /// fits the 32-bit offset field, and either the cursor's segment
    /// has room or a large enough segment can still be created.
    pub open spec fn spec_can_alloc(self, size: usize) -> bool {
        &&& spec_request_class(size) <= 31
        &&& (self.spec_cursor_fits(spec_request_class(size)) || self.spec_can_grow(
            spec_request_class(size),
        ))
    }

    /// A fresh allocator with no segments, an all-zero cursor, and
    /// nothing allocated.
    pub fn create(name: ShmemName) -> (r: ShmemAllocator)
        requires
            name.wf(),
        ensures
            r.wf(),
            r.spec_name() == name,
            r.spec_num_shmems() == 0,
            r.spec_allocated().len() == 0,
    {
        ShmemAllocator {
            name,
            num_shmems: 0,
            shmem_used: vec![false; MAX_SHMEMS],
            shmem_names: vec![name; MAX_SHMEMS],
            shmems: vec![Vec::new(); MAX_SHMEMS],
            unused: SharedAddress::new(ShmemId(0), ObjectSize(0), ObjectOffset(0)),
            allocated: Ghost(Seq::empty()),
        }
    }

    /// The allocator's name.
    pub fn name(&self) -> (r: ShmemName)
        ensures
            r == self.spec_name(),
    {
        self.name
    }

    /// How many segments have been created so far.
    pub fn get_num_shmems(&self) -> (r: usize)
        ensures
            r as int == self.spec_num_shmems(),
    {
        self.num_shmems
    }

    /// The name of the segment with the given id, if it has been
    /// published.
    pub fn get_shmem_name(&self, shmem_id: ShmemId) -> (r: Option<ShmemName>)
        requires
            self.wf(),
        ensures
            r matches Some(n) ==> n == self.spec_segment_name(shmem_id.0 as int),
            r is Some <==> (shmem_id.0 as int) < self.spec_num_shmems(),
    {
        let index = shmem_id.to_usize();
        if index >= self.num_shmems {
            None
        } else {
            Some(self.shmem_names[index])
        }
    }

    /// The bytes of the given range.  For any range the allocator has
    /// handed out this returns a slice of exactly `pow2` of the
    /// range's size class bytes; it returns `None` exactly when the
    /// range does not name `pow2(object_size)` bytes of a published
    /// segment.
    pub fn get_bytes(&self, address: SharedAddressRange) -> (r: Option<&[u8]>)
        requires
            self.wf(),
        ensures
            r matches Some(s) ==> s@.len() == pow2(address.object_size.0 as nat) && s@
                == self.spec_segment(address.shmem_id.0 as int).subrange(
                address.object_offset.0 as int,
                address.spec_end() as int,
            ),
            (r is Some) <==> (address.object_size.0 < 64 && address.spec_end() <= u32::MAX as nat
                && (address.shmem_id.0 as int) < self.spec_num_shmems() && address.spec_end()
                <= self.spec_segment(address.shmem_id.0 as int).len()),
            self.range_valid(address) ==> r is Some,
    {
        let end = match address.object_end() {
            Some(e) => e,
            None => {
                return None;
            },
        };
        let index = address.shmem_id().to_usize();
        if index >= self.num_shmems {
            return None;
        }
        let seg: &Vec<u8> = &self.shmems[index];
        let off = address.object_offset().to_usize();
        let end_usize = end.to_usize();
        if end_usize > seg.len() {
            None
        } else {
            proof {
                lemma_pow2_pos(address.object_size.0 as nat);
            }
            Some(slice_subrange(seg.as_slice(), off, end_usize))
        }
    }

    /// Overwrite `bytes.len()` bytes of the given range, starting `at`
    /// bytes into it.  Only the addressed bytes change: the rest of
    /// the segment, every other segment, and all of the allocator's
    /// bookkeeping stay as they were.
    pub fn write_bytes(&mut self, address: SharedAddressRange, at: usize, bytes: &[u8])
        requires
            old(self).wf(),
            old(self).range_valid(address),
            at + bytes@.len() <= pow2(address.object_size.0 as nat),
        ensures
            final (self).wf(),
            final (self).spec_name() == old(self).spec_name(),
            final (self).spec_num_shmems() == old(self).spec_num_shmems(),
            final (self).spec_cursor() == old(self).spec_cursor(),
            final (self).spec_allocated() == old(self).spec_allocated(),
            forall|i: int|
                0 <= i < MAX_SHMEMS ==> final (self).spec_segment_name(i) == old(
                    self,
                ).spec_segment_name(i),
            forall|i: int|
                0 <= i < MAX_SHMEMS && i != address.shmem_id.0 as int ==> final (self).spec_segment(
                    i,
                ) == old(self).spec_segment(i),
            final (self).spec_segment(address.shmem_id.0 as int) == old(self).spec_segment(
                address.shmem_id.0 as int,
            ).subrange(0, address.object_offset.0 as int + at) + bytes@ + old(self).spec_segment(
                address.shmem_id.0 as int,
            ).subrange(
                address.object_offset.0 as int + at + bytes@.len(),
                old(self).spec_segment(address.shmem_id.0 as int).len() as int,
            ),
    {
        let index = address.shmem_id().to_usize();
        proof {
            lemma_pow2_pos(address.object_size.0 as nat);
        }
        let off = address.object_offset().to_usize() + at;
        let ghost old_seg = self.shmems@[index as int]@;
        let mut k: usize = 0;
        while k < bytes.len()
            invariant
                k <= bytes@.len(),
                index == address.shmem_id.0,
                off == address.object_offset.0 + at,
                old(self).wf(),
                old(self).range_valid(address),
                at + bytes@.len() <= pow2(address.object_size.0 as nat),
                old_seg == old(self).shmems@[index as int]@,
                self.name == old(self).name,
                self.num_shmems == old(self).num_shmems,
                self.shmem_used == old(self).shmem_used,
                self.shmem_names == old(self).shmem_names,
                self.unused == old(self).unused,
                self.allocated == old(self).allocated,
                self.shmems@.len() == MAX_SHMEMS,
                forall|i: int|
                    0 <= i < MAX_SHMEMS && i != index as int ==> self.shmems@[i] == old(
                        self,
                    ).shmems@[i],
                self.shmems@[index as int]@.len() == old_seg.len(),
                forall|j: int| 0 <= j < off ==> self.shmems@[index as int]@[j] == old_seg[j],
                forall|j: int|
                    off <= j < off + k ==> self.shmems@[index as int]@[j] == bytes@[j - off],
                forall|j: int|
                    off + k <= j < old_seg.len() ==> self.shmems@[index as int]@[j] == old_seg[j],
            decreases bytes@.len() - k,
        {
            proof {
                assert(address.spec_end() <= old_seg.len());
                assert(off + k < old_seg.len());
            }
            self.shmems[index][off + k] = bytes[k];
            k = k + 1;
        }
        proof {
            assert(self.shmems@[index as int]@ =~= old_seg.subrange(0, off as int) + bytes@
                + old_seg.subrange(off as int + bytes@.len(), old_seg.len() as int));
        }
    }

    /// Create a fresh zero-filled segment of `size` bytes, claim the
    /// next table slot for it and publish its name.  Fails exactly
    /// when all `MAX_SHMEMS` slots are taken.  The cursor does not
    /// move: publishing a segment and switching allocation to it are
    /// separate steps.
    pub fn alloc_shmem(&mut self, size: usize) -> (r: Option<ShmemId>)
        requires
            old(self).wf(),
            1 <= size,
        ensures
            final (self).wf(),
            (r is Some) <==> old(self).spec_num_shmems() < MAX_SHMEMS,
            r is None ==> *final (self) == *old(self),
            r matches Some(id) ==> {
                &&& id.0 as int == old(self).spec_num_shmems()
                &&& final (self).spec_num_shmems() == old(self).spec_num_shmems() + 1
                &&& final (self).spec_segment(id.0 as int) == Seq::new(size as nat, |i: int| 0u8)
                &&& final (self).spec_name() == old(self).spec_name()
                &&& final (self).spec_cursor() == old(self).spec_cursor()
                &&& final (self).spec_allocated() == old(self).spec_allocated()
                &&& forall|i: int|
                    0 <= i < MAX_SHMEMS && i != id.0 as int ==> final (self).spec_segment(i) == old(
                        self,
                    ).spec_segment(i) && final (self).spec_segment_name(i) == old(
                        self,
                    ).spec_segment_name(i)
            },
    {
        if self.num_shmems >= MAX_SHMEMS {
            return None;
        }
        let index = self.num_shmems;
        let shmem_name = ShmemName::for_index(index as u16);
        let data: Vec<u8> = vec![0u8; size];
        self.shmem_used[index] = true;
        self.shmem_names[index] = shmem_name;
        self.shmems[index] = data;
        self.num_shmems = index + 1;
        Some(ShmemId(index as u16))
    }

    /// Serve a request of `size` bytes.
    ///
    /// The request is clamped up to `MIN_OBJECT_SIZE` and rounded to a
    /// power-of-two class; the returned range carries exactly that
    /// class, lies inside a live segment, and is disjoint from every
    /// range the allocator ever handed out before.  The call fails
    /// exactly when the class cannot fit the 32-bit offset field, or
    /// the cursor's segment is full and no further segment can be
    /// created.
    pub fn alloc_bytes(&mut self, size: usize) -> (r: Option<SharedAddressRange>)
        requires
            old(self).wf(),
        ensures
            final (self).wf(),
            final (self).spec_name() == old(self).spec_name(),
            old(self).spec_num_shmems() <= final (self).spec_num_shmems(),
            forall|i: int|
                0 <= i < old(self).spec_num_shmems() ==> final (self).spec_segment(i) == old(
                    self,
                ).spec_segment(i) && final (self).spec_segment_name(i) == old(
                    self,
                ).spec_segment_name(i),
            r matches Some(rng) ==> {
                &&& rng.object_size.0 as nat == spec_request_class(size)
                &&& final (self).range_valid(rng)
                &&& final (self).spec_allocated() == old(self).spec_allocated().push(rng)
                &&& forall|k: int|
                    0 <= k < old(self).spec_allocated().len() ==> ranges_disjoint(
                        old(self).spec_allocated()[k],
                        rng,
                    )
            },
            r is None ==> final (self).spec_allocated() == old(self).spec_allocated(),
            (r is Some) <==> old(self).spec_can_alloc(size),
    {
        let clamped = if size < MIN_OBJECT_SIZE {
            MIN_OBJECT_SIZE
        } else {
            size
        };
        let object_size = ObjectSize::ceil(clamped);
        proof {
            lemma_request_class_bounds(size);
        }
        if object_size.0 > 31 {
            // A class above 31 could never keep the offset field
            // below its 32-bit ceiling: refuse before growing.
            proof {
                lemma_pow2_nondecreasing(32, object_size.0 as nat);
                vstd::arithmetic::power2::lemma2_to64();
                vstd::arithmetic::power2::lemma2_to64_rest();
            }
            return None;
        }
        if let Some(rng) = self.try_bump(object_size) {
            return Some(rng);
        }
        // The cursor's segment is full (or none exists): grow.
        let cursor = self.unused;
        let cursor_index = cursor.shmem_id().to_usize();
        let old_len = if cursor_index < self.num_shmems {
            self.shmems[cursor_index].len()
        } else {
            0
        };
        if old_len >= usize::MAX {
            proof {
                lemma_growth_exceeds_seg(*old(self), spec_request_class(size));
            }
            return None;
        }
        let doubled = ObjectSize::ceil(old_len + 1);
        let grow_class = if object_size.0 > doubled.0 {
            object_size
        } else {
            doubled
        };
        proof {
            assert(old_len as nat == old(self).spec_old_seg_len());
            assert(grow_class.0 as nat == old(self).spec_growth_class(spec_request_class(size)));
        }
        let new_bytes = match grow_class.to_u64() {
            Some(b) => b,
            None => {
                return None;
            },
        };
        if new_bytes > usize::MAX as u64 {
            return None;
        }
        let new_id = match self.alloc_shmem(new_bytes as usize) {
            Some(i) => i,
            None => {
                return None;
            },
        };
        self.unused = SharedAddress::new(new_id, grow_class, ObjectOffset(0));
        let ghost mid = *self;
        proof {
            lemma_pow2_nondecreasing(object_size.0 as nat, grow_class.0 as nat);
            lemma_class_31_fits(object_size.0 as nat);
        }
        let r = self.try_bump(object_size);
        proof {
            assert(mid.spec_cursor_fits(object_size.0 as nat));
            assert(r is Some);
        }
        r
    }

    /// Record that a range is no longer needed.  Reclamation is
    /// deferred by design, so this changes nothing: the bytes stay
    /// live for the allocator's whole life.
    pub fn free_bytes(&self, _address: SharedAddressRange) {
    }

    /// Advance the cursor by one object of the given class and return
    /// the range it moved over, or `None`, changing nothing, when the
    /// advanced cursor would leave the segment or the 32-bit offset
    /// field.
    fn try_bump(&mut self, object_size: ObjectSize) -> (r: Option<SharedAddressRange>)
        requires
            old(self).wf(),
            1 <= object_size.0,
        ensures
            final (self).wf(),
            final (self).spec_name() == old(self).spec_name(),
            final (self).spec_num_shmems() == old(self).spec_num_shmems(),
            forall|i: int|
                0 <= i < MAX_SHMEMS ==> final (self).spec_segment(i) == old(self).spec_segment(i)
                    && final (self).spec_segment_name(i) == old(self).spec_segment_name(i),
            (r is Some) <==> old(self).spec_cursor_fits(object_size.0 as nat),
            r is None ==> *final (self) == *old(self),
            r matches Some(rng) ==> {
                &&& rng == (SharedAddressRange {
                    shmem_id: old(self).spec_cursor().shmem_id,
                    shmem_size: old(self).spec_cursor().shmem_size,
                    object_offset: old(self).spec_cursor().object_offset,
                    object_size,
                })
                &&& final (self).range_valid(rng)
                &&& final (self).spec_allocated() == old(self).spec_allocated().push(rng)
                &&& forall|k: int|
                    0 <= k < old(self).spec_allocated().len() ==> ranges_disjoint(
                        old(self).spec_allocated()[k],
                        rng,
                    )
            },
    {
        let cursor = self.unused;
        let bytes = match object_size.to_u64() {
            Some(b) => b,
            None => {
                proof {
                    lemma_pow2_nondecreasing(64, object_size.0 as nat);
                    vstd::arithmetic::power2::lemma2_to64_rest();
                }
                return None;
            },
        };
        proof {
            vstd::arithmetic::power2::lemma2_to64_rest();
            if object_size.0 < 63 {
                vstd::arithmetic::power2::lemma_pow2_strictly_increases(object_size.0 as nat, 63);
            }
        }
        let end64: u64 = cursor.object_offset.0 as u64 + bytes;
        if end64 > 0xFFFF_FFFF {
            return None;
        }
        let rng = match cursor.checked_add(object_size) {
            Some(rng) => rng,
            None => {
                return None;
            },
        };
        proof {
            lemma_pow2_pos(object_size.0 as nat);
            // A successful bump means the cursor was not the all-zero
            // address: an object of class one or more never fits a
            // class-zero segment.
            if cursor == spec_zero_address() {
                vstd::arithmetic::power2::lemma2_to64();
                lemma_pow2_nondecreasing(1, object_size.0 as nat);
            }
        }
        self.unused = SharedAddress::new(cursor.shmem_id, cursor.shmem_size, ObjectOffset(
            end64 as u32,
        ));
        proof {
            self.allocated@ = self.allocated@.push(rng);
        }
        Some(rng)
    }
}

/// The request class of any `size` is at least the class of
/// `MIN_OBJECT_SIZE`, and matches `ObjectSize::ceil` of the clamped
/// size.
proof fn lemma_request_class_bounds(size: usize)
    ensures
        spec_request_class(size) >= 3,
        spec_request_class(size) == if size < MIN_OBJECT_SIZE {
            spec_size_class(MIN_OBJECT_SIZE as nat)
        } else {
            spec_size_class(size as nat)
        },
{
    assert(spec_size_class(1) == 0);
    assert(spec_size_class(2) == 1);
    assert(spec_size_class(4) == 2);
    assert(spec_size_class(8) == 3);
    if size >= MIN_OBJECT_SIZE {
        crate::object_size::lemma_spec_size_class_bounds(size as nat);
        if spec_size_class(size as nat) < 3 {
            lemma_pow2_nondecreasing(spec_size_class(size as nat), 2);
            vstd::arithmetic::power2::lemma2_to64();
        }
    }
}

/// A segment already as long as `usize::MAX` cannot grow: the grown
/// segment's byte count would not be expressible.
proof fn lemma_growth_exceeds_seg(a: ShmemAllocator, class: nat)
    requires
        a.spec_old_seg_len() >= usize::MAX as nat,
    ensures
        !a.spec_can_grow(class),
{
    let doubled = spec_size_class(a.spec_old_seg_len() + 1);
    crate::object_size::lemma_spec_size_class_bounds(a.spec_old_seg_len() + 1);
    lemma_pow2_nondecreasing(doubled, a.spec_growth_class(class));
}

/// A request class of at most 31 always fits a freshly grown segment:
/// its byte count lies below the 32-bit offset ceiling.
proof fn lemma_class_31_fits(class: nat)
    requires
        class <= 31,
    ensures
        pow2(class) <= u32::MAX as nat,
{
    lemma_pow2_nondecreasing(class, 31);
    vstd::arithmetic::power2::lemma2_to64();
    vstd::arithmetic::power2::lemma2_to64_rest();
}

/// Any two distinct ranges an allocator has handed out are disjoint:
/// they lie in different segments or one ends before the other
/// begins.
pub proof fn lemma_allocations_disjoint(a: ShmemAllocator, j: int, k: int)
    requires
        a.wf(),
        0 <= j < a.spec_allocated().len(),
        0 <= k < a.spec_allocated().len(),
        j != k,
    ensures
        ranges_disjoint(a.spec_allocated()[j], a.spec_allocated()[k]),
{
}

} // verus!
