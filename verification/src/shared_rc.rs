//! A shared-reference-counted pointer into shared memory.
//!
//! The allocation holds the value's bytes first and a 64-bit
//! little-endian reference count behind them, so that the payload's
//! position does not depend on the count.  A new cell starts with
//! count one; every clone adds one and every drop removes one.  The
//! payload bytes are never touched by clone or drop, and because
//! reclamation is deferred, the bytes stay live in every case; the
//! count reaching zero is what licenses reclamation once it lands.

use core::marker::PhantomData;
use vstd::prelude::*;
use vstd::arithmetic::power2::pow2;
use vstd::bytes::lemma_auto_spec_u64_to_from_le_bytes;
use vstd::bytes::spec_u64_from_le_bytes;
use vstd::bytes::u64_from_le_bytes;
use vstd::bytes::u64_to_le_bytes;
use vstd::slice::slice_subrange;

use crate::allocator::ShmemAllocator;
use crate::atomic_shared::SharedAddressCast;
use crate::shared_address_range::SharedAddressRange;
use crate::shared_mem_cast::SharedMemCast;

verus! {

/// A handle sharing ownership of one value in shared memory.
pub struct SharedRc<T> {
    address: SharedAddressRange,
    marker: PhantomData<T>,
}

impl<T: SharedMemCast> SharedRc<T> {
    /// The range this handle shares.
    pub closed spec fn spec_address(self) -> SharedAddressRange {
        self.address
    }

    /// Whether the handle points at a live allocation big enough for
    /// a `T` and the count word.
    pub open spec fn valid_in(self, alloc: ShmemAllocator) -> bool {
        &&& alloc.range_valid(self.spec_address())
        &&& T::spec_size() + 8 <= pow2(self.spec_address().object_size.0 as nat)
    }

    /// The bytes of the shared value.
    pub open spec fn spec_payload_bytes(self, alloc: ShmemAllocator) -> Seq<u8> {
        alloc.spec_segment(self.spec_address().shmem_id.0 as int).subrange(
            self.spec_address().object_offset.0 as int,
            self.spec_address().object_offset.0 as int + T::spec_size(),
        )
    }

    /// The reference count stored behind the value.
    pub open spec fn spec_count(self, alloc: ShmemAllocator) -> u64 {
        spec_u64_from_le_bytes(
            alloc.spec_segment(self.spec_address().shmem_id.0 as int).subrange(
                self.spec_address().object_offset.0 as int + T::spec_size(),
                self.spec_address().object_offset.0 as int + T::spec_size() + 8,
            ),
        )
    }

    /// Allocate a cell holding `data` with reference count one.  The
    /// call fails exactly when the allocator cannot serve a request
    /// of the value's size plus the count word.
    pub fn try_new(data: T, alloc: &mut ShmemAllocator) -> (r: Option<SharedRc<T>>)
        requires
            old(alloc).wf(),
        ensures
            final (alloc).wf(),
            final (alloc).spec_name() == old(alloc).spec_name(),
            old(alloc).spec_num_shmems() <= final (alloc).spec_num_shmems(),
            (r is Some) <==> (T::spec_size() + 8 <= usize::MAX && old(alloc).spec_can_alloc(
                (T::spec_size() + 8) as usize,
            )),
            r matches Some(rc) ==> {
                &&& rc.valid_in(*final (alloc))
                &&& rc.spec_payload_bytes(*final (alloc)) == data.spec_to_bytes()
                &&& rc.spec_count(*final (alloc)) == 1
                &&& final (alloc).spec_allocated() == old(alloc).spec_allocated().push(
                    rc.spec_address(),
                )
            },
            r is None ==> final (alloc).spec_allocated() == old(alloc).spec_allocated(),
    {
        let size = T::byte_size();
        let total = match size.checked_add(8) {
            Some(t) => t,
            None => {
                return None;
            },
        };
        let address = match alloc.alloc_bytes(total) {
            Some(a) => a,
            None => {
                return None;
            },
        };
        let mut bytes = data.to_bytes();
        let mut count_bytes = u64_to_le_bytes(1);
        proof {
            data.lemma_bytes_len();
        }
        bytes.append(&mut count_bytes);
        proof {
            crate::object_size::lemma_spec_size_class_bounds(
                if total < crate::allocator::MIN_OBJECT_SIZE {
                    crate::allocator::MIN_OBJECT_SIZE as nat
                } else {
                    total as nat
                },
            );
            crate::object_size::lemma_pow2_nondecreasing(
                crate::allocator::spec_request_class(total),
                address.object_size.0 as nat,
            );
        }
        alloc.write_bytes(address, 0, bytes.as_slice());
        let rc = SharedRc { address, marker: PhantomData };
        proof {
            lemma_auto_spec_u64_to_from_le_bytes();
            assert(rc.spec_payload_bytes(*alloc) =~= data.spec_to_bytes());
            assert(alloc.spec_segment(address.shmem_id.0 as int).subrange(
                address.object_offset.0 as int + T::spec_size(),
                address.object_offset.0 as int + T::spec_size() + 8,
            ) =~= vstd::bytes::spec_u64_to_le_bytes(1));
        }
        Some(rc)
    }

    /// The shared address of the cell.
    pub fn address(&self) -> (r: SharedAddressRange)
        ensures
            r == self.spec_address(),
    {
        self.address
    }

    /// Read the shared value back out of the given allocator.  The
    /// value read is bits-equal to the payload bytes; for a valid
    /// handle the read always succeeds.
    pub fn get_in(&self, alloc: &ShmemAllocator) -> (r: Option<T>)
        requires
            alloc.wf(),
        ensures
            r matches Some(v) ==> v.spec_to_bytes() == self.spec_payload_bytes(*alloc),
            self.valid_in(*alloc) ==> r is Some,
    {
        let bytes = match alloc.get_bytes(self.address) {
            Some(b) => b,
            None => {
                return None;
            },
        };
        let size = T::byte_size();
        if size > bytes.len() {
            return None;
        }
        let payload = slice_subrange(bytes, 0, size);
        let value = T::from_bytes(payload);
        proof {
            value.lemma_bytes_len();
            assert(payload@ =~= self.spec_payload_bytes(*alloc));
        }
        Some(value)
    }

    /// The current reference count.
    pub fn ref_count_in(&self, alloc: &ShmemAllocator) -> (r: u64)
        requires
            alloc.wf(),
            self.valid_in(*alloc),
        ensures
            r == self.spec_count(*alloc),
    {
        let bytes = match alloc.get_bytes(self.address) {
            Some(b) => b,
            None => {
                proof {
                    assert(false);
                }
                return 0;
            },
        };
        let size = T::byte_size();
        let count_slice = slice_subrange(bytes, size, size + 8);
        let count = u64_from_le_bytes(count_slice);
        proof {
            assert(count_slice@ =~= alloc.spec_segment(self.address.shmem_id.0 as int).subrange(
                self.address.object_offset.0 as int + T::spec_size(),
                self.address.object_offset.0 as int + T::spec_size() + 8,
            ));
        }
        count
    }

    /// Share the cell: the count goes up by one and the payload bytes
    /// stay exactly as they were.  The new handle names the same
    /// range as this one.
    pub fn clone_in(&self, alloc: &mut ShmemAllocator) -> (r: SharedRc<T>)
        requires
            old(alloc).wf(),
            self.valid_in(*old(alloc)),
            self.spec_count(*old(alloc)) < u64::MAX,
        ensures
            final (alloc).wf(),
            r.spec_address() == self.spec_address(),
            self.valid_in(*final (alloc)),
            self.spec_count(*final (alloc)) == self.spec_count(*old(alloc)) + 1,
            self.spec_payload_bytes(*final (alloc)) == self.spec_payload_bytes(*old(alloc)),
            final (alloc).spec_name() == old(alloc).spec_name(),
            final (alloc).spec_num_shmems() == old(alloc).spec_num_shmems(),
            final (alloc).spec_cursor() == old(alloc).spec_cursor(),
            final (alloc).spec_allocated() == old(alloc).spec_allocated(),
    {
        let count = self.ref_count_in(alloc);
        self.write_count(alloc, count + 1);
        SharedRc { address: self.address, marker: PhantomData }
    }

    /// Release this handle: the count goes down by one and the
    /// payload bytes stay exactly as they were.  On the last release
    /// the allocation is handed back to the allocator, whose
    /// reclamation is deferred, so the bytes stay live even then.
    pub fn drop_in(self, alloc: &mut ShmemAllocator)
        requires
            old(alloc).wf(),
            self.valid_in(*old(alloc)),
            self.spec_count(*old(alloc)) >= 1,
        ensures
            final (alloc).wf(),
            self.valid_in(*final (alloc)),
            self.spec_count(*final (alloc)) == self.spec_count(*old(alloc)) - 1,
            self.spec_payload_bytes(*final (alloc)) == self.spec_payload_bytes(*old(alloc)),
            final (alloc).spec_name() == old(alloc).spec_name(),
            final (alloc).spec_num_shmems() == old(alloc).spec_num_shmems(),
            final (alloc).spec_cursor() == old(alloc).spec_cursor(),
            final (alloc).spec_allocated() == old(alloc).spec_allocated(),
    {
        let count = self.ref_count_in(alloc);
        self.write_count(alloc, count - 1);
        if count == 1 {
            alloc.free_bytes(self.address);
        }
    }

    /// A handle over the given range, when the range is big enough
    /// for a `T` and the count word.  Reconstructing a handle from an
    /// address does not change the count: a sender that keeps its own
    /// handle alive must have added one for the receiver.
    pub fn try_from_address(address: SharedAddressRange) -> (r: Option<SharedRc<T>>)
        ensures
            r matches Some(rc) ==> rc.spec_address() == address && T::spec_size() + 8 <= pow2(
                address.object_size.0 as nat,
            ),
            (r is Some) <==> (address.object_size.0 < 64 && T::spec_size() + 8 <= pow2(
                address.object_size.0 as nat,
            )),
    {
        let capacity = match address.object_size().to_u64() {
            Some(c) => c,
            None => {
                return None;
            },
        };
        let size = T::byte_size();
        if capacity >= 8 && size as u64 <= capacity - 8 {
            Some(SharedRc { address, marker: PhantomData })
        } else {
            None
        }
    }

    /// Rebuild a handle from an address received from a peer and take
    /// a share at the same time: the count goes up by one, so the
    /// sender's own handle and this one each stand for a reference
    /// and neither release frees the cell under the other.
    pub fn try_from_address_in(
        address: SharedAddressRange,
        alloc: &mut ShmemAllocator,
    ) -> (r: Option<SharedRc<T>>)
        requires
            old(alloc).wf(),
            old(alloc).range_valid(address),
        ensures
            final (alloc).wf(),
            (r is Some) <==> (T::spec_size() + 8 <= pow2(address.object_size.0 as nat)
                && spec_u64_from_le_bytes(
                old(alloc).spec_segment(address.shmem_id.0 as int).subrange(
                    address.object_offset.0 as int + T::spec_size(),
                    address.object_offset.0 as int + T::spec_size() + 8,
                ),
            ) < u64::MAX),
            r matches Some(rc) ==> {
                &&& rc.spec_address() == address
                &&& rc.valid_in(*final (alloc))
                &&& rc.spec_count(*final (alloc)) == rc.spec_count(*old(alloc)) + 1
                &&& rc.spec_payload_bytes(*final (alloc)) == rc.spec_payload_bytes(*old(alloc))
            },
            r is None ==> *final (alloc) == *old(alloc),
    {
        let rc = match SharedRc::<T>::try_from_address(address) {
            Some(rc) => rc,
            None => {
                return None;
            },
        };
        let count = rc.ref_count_in(alloc);
        if count == u64::MAX {
            return None;
        }
        rc.write_count(alloc, count + 1);
        Some(rc)
    }

    /// Give the handle up, yielding the range it stood for, without
    /// touching the count.
    pub fn into_address(self) -> (r: SharedAddressRange)
        ensures
            r == self.spec_address(),
    {
        self.address
    }

    /// Write a new reference count behind the payload.
    fn write_count(&self, alloc: &mut ShmemAllocator, count: u64)
        requires
            old(alloc).wf(),
            self.valid_in(*old(alloc)),
        ensures
            final (alloc).wf(),
            self.valid_in(*final (alloc)),
            self.spec_count(*final (alloc)) == count,
            self.spec_payload_bytes(*final (alloc)) == self.spec_payload_bytes(*old(alloc)),
            final (alloc).spec_name() == old(alloc).spec_name(),
            final (alloc).spec_num_shmems() == old(alloc).spec_num_shmems(),
            final (alloc).spec_cursor() == old(alloc).spec_cursor(),
            final (alloc).spec_allocated() == old(alloc).spec_allocated(),
    {
        let size = T::byte_size();
        let count_bytes = u64_to_le_bytes(count);
        alloc.write_bytes(self.address, size, count_bytes.as_slice());
        proof {
            lemma_auto_spec_u64_to_from_le_bytes();
            assert(alloc.spec_segment(self.address.shmem_id.0 as int).subrange(
                self.address.object_offset.0 as int + T::spec_size(),
                self.address.object_offset.0 as int + T::spec_size() + 8,
            ) =~= vstd::bytes::spec_u64_to_le_bytes(count));
            assert(self.spec_payload_bytes(*alloc) =~= self.spec_payload_bytes(*old(alloc)));
        }
    }
}

impl<T: SharedMemCast> SharedAddressCast for SharedRc<T> {
    closed spec fn spec_address(&self) -> SharedAddressRange {
        self.address
    }

    fn from_address_unchecked(address: SharedAddressRange) -> (r: Self) {
        SharedRc { address, marker: PhantomData }
    }

    fn try_from_address(address: SharedAddressRange) -> (r: Option<Self>) {
        SharedRc::try_from_address(address)
    }

    fn into_address(self) -> (r: SharedAddressRange) {
        self.address
    }
}

} // verus!
