//! Packed 64-bit shared address ranges.
//!
//! A range names one allocation: a segment, a byte offset inside it,
//! and the allocation's power-of-two size class.  It uses the same
//! 64-bit layout as `SharedAddress`, with the object's size class in
//! place of the padding byte.  The all-zero word is the null range.

use vstd::prelude::*;
use vstd::arithmetic::power2::pow2;

use crate::object_offset::ObjectOffset;
use crate::object_size::ObjectSize;
use crate::shared_address::lemma_pack_unpack;
use crate::shared_address::lemma_unpack_pack;
use crate::shared_address::spec_pack;
use crate::shared_address::spec_unpack_id;
use crate::shared_address::spec_unpack_mid;
use crate::shared_address::spec_unpack_off;
use crate::shared_address::spec_unpack_size;
use crate::shmem_id::ShmemId;

verus! {

/// A range of addresses in shared memory, packed into 64 bits.
#[derive(Clone, Copy, Debug, PartialEq, Eq, Structural)]
pub struct SharedAddressRange {
    pub shmem_id: ShmemId,
    pub shmem_size: ObjectSize,
    pub object_offset: ObjectOffset,
    pub object_size: ObjectSize,
}

impl SharedAddressRange {
    /// The 64-bit packed form of this range.
    pub open spec fn spec_as_u64(self) -> u64 {
        spec_pack(self.object_offset.0, self.object_size.0, self.shmem_size.0, self.shmem_id.0)
    }

    /// The range whose packed form is `x`.
    pub open spec fn spec_from_u64(x: u64) -> SharedAddressRange {
        SharedAddressRange {
            shmem_id: ShmemId(spec_unpack_id(x)),
            shmem_size: ObjectSize(spec_unpack_size(x)),
            object_offset: ObjectOffset(spec_unpack_off(x)),
            object_size: ObjectSize(spec_unpack_mid(x)),
        }
    }

    /// The byte offset one past the range's end, as a mathematical
    /// number.
    pub open spec fn spec_end(self) -> nat {
        self.object_offset.0 as nat + pow2(self.object_size.0 as nat)
    }

    /// A range from its four fields.
    pub fn new(
        shmem_id: ShmemId,
        shmem_size: ObjectSize,
        object_offset: ObjectOffset,
        object_size: ObjectSize,
    ) -> (r: SharedAddressRange)
        ensures
            r == (SharedAddressRange { shmem_id, shmem_size, object_offset, object_size }),
    {
        SharedAddressRange { shmem_id, shmem_size, object_offset, object_size }
    }

    /// The null range: the all-zero 64-bit pattern.  A live segment
    /// never has size class zero, which distinguishes null from every
    /// address the allocator hands out.
    pub fn null() -> (r: SharedAddressRange)
        ensures
            r == SharedAddressRange::spec_from_u64(0),
            r.spec_as_u64() == 0,
    {
        proof {
            assert(spec_unpack_off(0) == 0 && spec_unpack_mid(0) == 0 && spec_unpack_size(0) == 0
                && spec_unpack_id(0) == 0) by (bit_vector);
            assert(spec_pack(0, 0, 0, 0) == 0) by (bit_vector);
        }
        SharedAddressRange {
            shmem_id: ShmemId(0),
            shmem_size: ObjectSize(0),
            object_offset: ObjectOffset(0),
            object_size: ObjectSize(0),
        }
    }

    /// The id of the segment the range lies in.
    pub fn shmem_id(self) -> (r: ShmemId)
        ensures
            r == self.shmem_id,
    {
        self.shmem_id
    }

    /// The size class of the allocation.
    pub fn object_size(&self) -> (r: ObjectSize)
        ensures
            r == self.object_size,
    {
        self.object_size
    }

    /// The byte offset of the allocation within its segment.
    pub fn object_offset(&self) -> (r: ObjectOffset)
        ensures
            r == self.object_offset,
    {
        self.object_offset
    }

    /// The byte offset one past the allocation's end; `None` when it
    /// does not fit the 32-bit offset field.
    pub fn object_end(&self) -> (r: Option<ObjectOffset>)
        ensures
            r matches Some(e) ==> self.object_size.0 < 64 && e.0 == self.spec_end(),
            r is None <==> self.object_size.0 >= 64 || self.spec_end() > u32::MAX,
    {
        let bytes = match self.object_size.to_u64() {
            Some(b) => b,
            None => {
                return None;
            },
        };
        proof {
            vstd::arithmetic::power2::lemma2_to64_rest();
            if self.object_size.0 < 63 {
                vstd::arithmetic::power2::lemma_pow2_strictly_increases(
                    self.object_size.0 as nat,
                    63,
                );
            }
        }
        ObjectOffset::from_u64(self.object_offset.0 as u64 + bytes)
    }

    /// Decode a range from its packed 64-bit form.
    pub fn from_u64(data: u64) -> (r: SharedAddressRange)
        ensures
            r == SharedAddressRange::spec_from_u64(data),
    {
        proof {
            assert((data & 0xFFFF_FFFF) <= 0xFFFF_FFFF) by (bit_vector);
            assert(((data >> 32) & 0xFF) <= 0xFF) by (bit_vector);
            assert(((data >> 40) & 0xFF) <= 0xFF) by (bit_vector);
            assert(((data >> 48) & 0xFFFF) <= 0xFFFF) by (bit_vector);
        }
        SharedAddressRange {
            shmem_id: ShmemId(((data >> 48) & 0xFFFF) as u16),
            shmem_size: ObjectSize(((data >> 40) & 0xFF) as u8),
            object_offset: ObjectOffset((data & 0xFFFF_FFFF) as u32),
            object_size: ObjectSize(((data >> 32) & 0xFF) as u8),
        }
    }

    /// Encode this range into its packed 64-bit form.
    pub fn to_u64(&self) -> (r: u64)
        ensures
            r == self.spec_as_u64(),
    {
        (self.object_offset.0 as u64) | ((self.object_size.0 as u64) << 32) | ((self.shmem_size.0
            as u64) << 40) | ((self.shmem_id.0 as u64) << 48)
    }
}

/// Packing a range into 64 bits and unpacking it recovers the range
/// exactly, and the other way round: the packed form is a faithful
/// wire format for ranges.
pub proof fn lemma_range_u64_round_trip(a: SharedAddressRange, x: u64)
    ensures
        SharedAddressRange::spec_from_u64(a.spec_as_u64()) == a,
        SharedAddressRange::spec_from_u64(x).spec_as_u64() == x,
{
    lemma_unpack_pack(a.object_offset.0, a.object_size.0, a.shmem_size.0, a.shmem_id.0);
    lemma_pack_unpack(x);
}

} // verus!
