//! Packed 64-bit shared addresses.
//!
//! A shared address names a byte position inside one shared-memory
//! segment.  It packs four fields into one 64-bit word: the byte offset
//! in the low 32 bits, one padding byte that must be zero, the
//! segment's size class, and the segment id in the high 16 bits.  With
//! this layout an atomic add of a byte count on the whole word advances
//! only the offset field; a carry out of the offset lands in the
//! padding byte, where the bounds check of `checked_add` catches it
//! before any out-of-range address is handed out.

use vstd::prelude::*;
use vstd::arithmetic::power2::pow2;

use crate::object_offset::ObjectOffset;
use crate::object_size::ObjectSize;
use crate::shared_address_range::SharedAddressRange;
use crate::shmem_id::ShmemId;

verus! {

/// The 64-bit word with `off` in bits 0..32, `mid` in bits 32..40,
/// `size` in bits 40..48 and `id` in bits 48..64.
///
/// For a `SharedAddress` the `mid` byte is padding and must be zero;
/// for a `SharedAddressRange` it carries the object's size class.
pub open spec fn spec_pack(off: u32, mid: u8, size: u8, id: u16) -> u64 {
    (off as u64) | ((mid as u64) << 32) | ((size as u64) << 40) | ((id as u64) << 48)
}

/// Bits 0..32 of a packed word.
pub open spec fn spec_unpack_off(x: u64) -> u32 {
    (x & 0xFFFF_FFFF) as u32
}

/// Bits 32..40 of a packed word.
pub open spec fn spec_unpack_mid(x: u64) -> u8 {
    ((x >> 32) & 0xFF) as u8
}

/// Bits 40..48 of a packed word.
pub open spec fn spec_unpack_size(x: u64) -> u8 {
    ((x >> 40) & 0xFF) as u8
}

/// Bits 48..64 of a packed word.
pub open spec fn spec_unpack_id(x: u64) -> u16 {
    ((x >> 48) & 0xFFFF) as u16
}

/// Unpacking a packed word recovers each field.
pub proof fn lemma_unpack_pack(off: u32, mid: u8, size: u8, id: u16)
    ensures
        spec_unpack_off(spec_pack(off, mid, size, id)) == off,
        spec_unpack_mid(spec_pack(off, mid, size, id)) == mid,
        spec_unpack_size(spec_pack(off, mid, size, id)) == size,
        spec_unpack_id(spec_pack(off, mid, size, id)) == id,
{
    assert(spec_unpack_off(spec_pack(off, mid, size, id)) == off) by (bit_vector);
    assert(spec_unpack_mid(spec_pack(off, mid, size, id)) == mid) by (bit_vector);
    assert(spec_unpack_size(spec_pack(off, mid, size, id)) == size) by (bit_vector);
    assert(spec_unpack_id(spec_pack(off, mid, size, id)) == id) by (bit_vector);
}

/// Packing the four unpacked fields recovers the word.
pub proof fn lemma_pack_unpack(x: u64)
    ensures
        spec_pack(spec_unpack_off(x), spec_unpack_mid(x), spec_unpack_size(x), spec_unpack_id(x))
            == x,
{
    assert(spec_pack(
        spec_unpack_off(x),
        spec_unpack_mid(x),
        spec_unpack_size(x),
        spec_unpack_id(x),
    ) == x) by (bit_vector);
}

/// An address in shared memory: a byte position inside one segment,
/// packed into 64 bits.
#[derive(Clone, Copy, Debug, PartialEq, Eq, Structural)]
pub struct SharedAddress {
    pub shmem_id: ShmemId,
    pub shmem_size: ObjectSize,
    pub padding: u8,
    pub object_offset: ObjectOffset,
}

impl SharedAddress {
    /// The 64-bit packed form of this address.
    pub open spec fn spec_as_u64(self) -> u64 {
        spec_pack(self.object_offset.0, self.padding, self.shmem_size.0, self.shmem_id.0)
    }

    /// The address whose packed form is `x`.
    pub open spec fn spec_from_u64(x: u64) -> SharedAddress {
        SharedAddress {
            shmem_id: ShmemId(spec_unpack_id(x)),
            shmem_size: ObjectSize(spec_unpack_size(x)),
            padding: spec_unpack_mid(x),
            object_offset: ObjectOffset(spec_unpack_off(x)),
        }
    }

    /// An address with a zero padding byte.
    pub fn new(shmem_id: ShmemId, shmem_size: ObjectSize, object_offset: ObjectOffset) -> (r:
        SharedAddress)
        ensures
            r == (SharedAddress { shmem_id, shmem_size, padding: 0u8, object_offset }),
    {
        SharedAddress { shmem_id, shmem_size, padding: 0, object_offset }
    }

    /// The id of the segment this address points into.
    pub fn shmem_id(self) -> (r: ShmemId)
        ensures
            r == self.shmem_id,
    {
        self.shmem_id
    }

    /// The size class of the segment this address points into.
    pub fn shmem_size(&self) -> (r: ObjectSize)
        ensures
            r == self.shmem_size,
    {
        self.shmem_size
    }

    /// The byte offset within the segment.
    pub fn object_offset(&self) -> (r: ObjectOffset)
        ensures
            r == self.object_offset,
    {
        self.object_offset
    }

    /// Decode an address from its packed 64-bit form.
    pub fn from_u64(data: u64) -> (r: SharedAddress)
        ensures
            r == SharedAddress::spec_from_u64(data),
    {
        proof {
            assert((data & 0xFFFF_FFFF) <= 0xFFFF_FFFF) by (bit_vector);
            assert(((data >> 32) & 0xFF) <= 0xFF) by (bit_vector);
            assert(((data >> 40) & 0xFF) <= 0xFF) by (bit_vector);
            assert(((data >> 48) & 0xFFFF) <= 0xFFFF) by (bit_vector);
        }
        SharedAddress {
            shmem_id: ShmemId(((data >> 48) & 0xFFFF) as u16),
            shmem_size: ObjectSize(((data >> 40) & 0xFF) as u8),
            padding: ((data >> 32) & 0xFF) as u8,
            object_offset: ObjectOffset((data & 0xFFFF_FFFF) as u32),
        }
    }

    /// Encode this address into its packed 64-bit form.
    pub fn to_u64(&self) -> (r: u64)
        ensures
            r == self.spec_as_u64(),
    {
        (self.object_offset.0 as u64) | ((self.padding as u64) << 32) | ((self.shmem_size.0
            as u64) << 40) | ((self.shmem_id.0 as u64) << 48)
    }

    /// The range of `size` bytes that starts at this address, when that
    /// range lies inside the segment; `None` when the byte count
    /// overflows the segment (in particular after an atomic add on the
    /// packed word has run past the segment's end).
    pub fn checked_add(&self, size: ObjectSize) -> (r: Option<SharedAddressRange>)
        ensures
            r matches Some(rng) ==> size.0 < 64 && (self.object_offset.0 as nat) + pow2(
                size.0 as nat,
            ) <= pow2(self.shmem_size.0 as nat) && rng == (SharedAddressRange {
                shmem_id: self.shmem_id,
                shmem_size: self.shmem_size,
                object_offset: self.object_offset,
                object_size: size,
            }),
            r is None <==> size.0 >= 64 || (self.object_offset.0 as nat) + pow2(size.0 as nat)
                > pow2(self.shmem_size.0 as nat),
    {
        let bytes = match size.to_u64() {
            Some(b) => b,
            None => {
                return None;
            },
        };
        proof {
            vstd::arithmetic::power2::lemma2_to64_rest();
            if size.0 < 63 {
                vstd::arithmetic::power2::lemma_pow2_strictly_increases(size.0 as nat, 63);
            }
        }
        let sum: u64 = self.object_offset.0 as u64 + bytes;
        let fits: bool = if self.shmem_size.0 >= 64 {
            proof {
                lemma_sum_below_any_large_class(sum, self.shmem_size.0);
            }
            true
        } else {
            proof {
                vstd::bits::lemma_u64_pow2_no_overflow(self.shmem_size.0 as nat);
                vstd::bits::lemma_u64_shl_is_mul(1u64, self.shmem_size.0 as u64);
            }
            sum <= (1u64 << self.shmem_size.0)
        };
        if fits {
            Some(SharedAddressRange::new(self.shmem_id, self.shmem_size, self.object_offset, size))
        } else {
            None
        }
    }
}

/// Packing an address into 64 bits and unpacking it recovers the
/// address exactly, and the other way round: the packed form is a
/// faithful wire format for addresses.
pub proof fn lemma_address_u64_round_trip(a: SharedAddress, x: u64)
    ensures
        SharedAddress::spec_from_u64(a.spec_as_u64()) == a,
        SharedAddress::spec_from_u64(x).spec_as_u64() == x,
{
    lemma_unpack_pack(a.object_offset.0, a.padding, a.shmem_size.0, a.shmem_id.0);
    lemma_pack_unpack(x);
}

/// Any 64-bit sum lies below the byte count of a size class of 64 or
/// more.
proof fn lemma_sum_below_any_large_class(sum: u64, class: u8)
    requires
        class >= 64,
    ensures
        (sum as nat) < pow2(class as nat),
{
    vstd::arithmetic::power2::lemma2_to64_rest();
    if class > 64 {
        vstd::arithmetic::power2::lemma_pow2_strictly_increases(64, class as nat);
    }
}

} // verus!
