//! An owned pointer into shared memory.
//!
//! A box is an address range holding the bytes of exactly one value.
//! The handle itself carries only the packed address, so it can be
//! sent to another process as a 64-bit word and rebuilt there; the
//! value's bytes live in the allocator's segment and read back
//! bits-equal to what was written.

use core::marker::PhantomData;
use vstd::prelude::*;
use vstd::arithmetic::power2::pow2;
use vstd::slice::slice_subrange;

use crate::allocator::ShmemAllocator;
use crate::atomic_shared::SharedAddressCast;
use crate::shared_address_range::SharedAddressRange;
use crate::shared_mem_cast::SharedMemCast;

verus! {

/// An owned pointer to one value in shared memory.
pub struct SharedBox<T> {
    address: SharedAddressRange,
    marker: PhantomData<T>,
}

impl<T: SharedMemCast> SharedBox<T> {
    /// The range this box owns.
    pub closed spec fn spec_address(self) -> SharedAddressRange {
        self.address
    }

    /// Whether this box points at a live allocation big enough for a
    /// `T` in the given allocator.
    pub open spec fn valid_in(self, alloc: ShmemAllocator) -> bool {
        &&& alloc.range_valid(self.spec_address())
        &&& T::spec_size() <= pow2(self.spec_address().object_size.0 as nat)
    }

    /// The bytes of the boxed value in the given allocator: the first
    /// `T::spec_size()` bytes of the box's range.
    pub open spec fn spec_bytes_in(self, alloc: ShmemAllocator) -> Seq<u8> {
        alloc.spec_segment(self.spec_address().shmem_id.0 as int).subrange(
            self.spec_address().object_offset.0 as int,
            self.spec_address().object_offset.0 as int + T::spec_size(),
        )
    }

    /// Allocate a box and write `data`'s bytes into it.  On success
    /// the new box holds exactly `data`'s byte representation; the
    /// call fails exactly when the allocator cannot serve a request
    /// of `T`'s size.
    pub fn new_in(data: T, alloc: &mut ShmemAllocator) -> (r: Option<SharedBox<T>>)
        requires
            old(alloc).wf(),
        ensures
            final (alloc).wf(),
            final (alloc).spec_name() == old(alloc).spec_name(),
            old(alloc).spec_num_shmems() <= final (alloc).spec_num_shmems(),
            (r is Some) <==> old(alloc).spec_can_alloc(T::spec_size() as usize),
            r matches Some(b) ==> {
                &&& b.valid_in(*final (alloc))
                &&& b.spec_bytes_in(*final (alloc)) == data.spec_to_bytes()
                &&& final (alloc).spec_allocated() == old(alloc).spec_allocated().push(
                    b.spec_address(),
                )
            },
            r is None ==> final (alloc).spec_allocated() == old(alloc).spec_allocated(),
    {
        let size = T::byte_size();
        let address = match alloc.alloc_bytes(size) {
            Some(a) => a,
            None => {
                return None;
            },
        };
        let bytes = data.to_bytes();
        proof {
            data.lemma_bytes_len();
            crate::object_size::lemma_spec_size_class_bounds(
                if size < crate::allocator::MIN_OBJECT_SIZE {
                    crate::allocator::MIN_OBJECT_SIZE as nat
                } else {
                    size as nat
                },
            );
            crate::object_size::lemma_pow2_nondecreasing(
                crate::allocator::spec_request_class(size),
                address.object_size.0 as nat,
            );
        }
        alloc.write_bytes(address, 0, bytes.as_slice());
        proof {
            assert(alloc.spec_segment(address.shmem_id.0 as int).subrange(
                address.object_offset.0 as int,
                address.object_offset.0 as int + T::spec_size(),
            ) =~= data.spec_to_bytes());
        }
        Some(SharedBox { address, marker: PhantomData })
    }

    /// Read the boxed value back out of the given allocator.  The
    /// value read is bits-equal to the bytes stored in the box's
    /// range; for a valid box the read always succeeds.
    pub fn get_in(&self, alloc: &ShmemAllocator) -> (r: Option<T>)
        requires
            alloc.wf(),
        ensures
            r matches Some(v) ==> v.spec_to_bytes() == self.spec_bytes_in(*alloc),
            self.valid_in(*alloc) ==> r is Some,
    {
        let bytes = match alloc.get_bytes(self.address) {
            Some(b) => b,
            None => {
                return None;
            },
        };
        let size = T::byte_size();
        if size > bytes.len() {
            return None;
        }
        let payload = slice_subrange(bytes, 0, size);
        let value = T::from_bytes(payload);
        proof {
            value.lemma_bytes_len();
            assert(payload@ =~= self.spec_bytes_in(*alloc));
        }
        Some(value)
    }

    /// The shared address of the box.
    pub fn address(&self) -> (r: SharedAddressRange)
        ensures
            r == self.spec_address(),
    {
        self.address
    }

    /// A box over the given range, without any size check.
    pub fn unchecked_from_address(address: SharedAddressRange) -> (r: SharedBox<T>)
        ensures
            r.spec_address() == address,
    {
        SharedBox { address, marker: PhantomData }
    }

    /// A box over the given range, when the range is big enough to
    /// hold a `T`.
    pub fn try_from_address(address: SharedAddressRange) -> (r: Option<SharedBox<T>>)
        ensures
            r matches Some(b) ==> b.spec_address() == address && T::spec_size() <= pow2(
                address.object_size.0 as nat,
            ),
            (r is Some) <==> (address.object_size.0 < 64 && T::spec_size() <= pow2(
                address.object_size.0 as nat,
            )),
    {
        let capacity = match address.object_size().to_u64() {
            Some(c) => c,
            None => {
                return None;
            },
        };
        let size = T::byte_size();
        if size as u64 <= capacity {
            Some(SharedBox { address, marker: PhantomData })
        } else {
            None
        }
    }

    /// Give the box up, yielding its address.  The allocation stays
    /// live; the receiver of the address owns it from now on.
    pub fn into_address(self) -> (r: SharedAddressRange)
        ensures
            r == self.spec_address(),
    {
        self.address
    }
}

impl<T: SharedMemCast> SharedAddressCast for SharedBox<T> {
    closed spec fn spec_address(&self) -> SharedAddressRange {
        self.address
    }

    fn from_address_unchecked(address: SharedAddressRange) -> (r: Self) {
        SharedBox::unchecked_from_address(address)
    }

    fn try_from_address(address: SharedAddressRange) -> (r: Option<Self>) {
        SharedBox::try_from_address(address)
    }

    fn into_address(self) -> (r: SharedAddressRange) {
        self.address
    }
}

} // verus!
