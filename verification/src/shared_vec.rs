//! A fixed-length vector in shared memory.
//!
//! One allocation holds `length` contiguous values; the length is
//! fixed at construction and carried in the handle.  Every element
//! read back is bits-equal to the element written at its index.

use core::marker::PhantomData;
use vstd::prelude::*;
use vstd::arithmetic::mul::lemma_mul_inequality;
use vstd::arithmetic::power2::pow2;
use vstd::slice::slice_subrange;

use crate::allocator::ShmemAllocator;
use crate::shared_address_range::SharedAddressRange;
use crate::shared_mem_cast::SharedMemCast;

verus! {

/// A fixed-length ordered sequence of values in shared memory.
pub struct SharedVec<T> {
    address: SharedAddressRange,
    length: usize,
    marker: PhantomData<T>,
}

impl<T: SharedMemCast> SharedVec<T> {
    /// The range this vector owns.
    pub closed spec fn spec_address(self) -> SharedAddressRange {
        self.address
    }

    /// The number of elements.
    pub closed spec fn spec_len(self) -> nat {
        self.length as nat
    }

    /// Whether this vector points at a live allocation big enough for
    /// all its elements in the given allocator.
    pub open spec fn valid_in(self, alloc: ShmemAllocator) -> bool {
        &&& alloc.range_valid(self.spec_address())
        &&& self.spec_len() * T::spec_size() <= pow2(self.spec_address().object_size.0 as nat)
    }

    /// The bytes of the element at index `i`.
    pub open spec fn spec_item_bytes(self, alloc: ShmemAllocator, i: int) -> Seq<u8> {
        alloc.spec_segment(self.spec_address().shmem_id.0 as int).subrange(
            self.spec_address().object_offset.0 as int + i * T::spec_size(),
            self.spec_address().object_offset.0 as int + (i + 1) * T::spec_size(),
        )
    }

    /// Allocate a vector holding the given elements in order.  On
    /// success every element's bytes stand at its index; the call
    /// fails exactly when the allocator cannot serve a request of the
    /// elements' total size.
    pub fn from_iter_in(items: Vec<T>, alloc: &mut ShmemAllocator) -> (r: Option<SharedVec<T>>)
        requires
            old(alloc).wf(),
        ensures
            final (alloc).wf(),
            final (alloc).spec_name() == old(alloc).spec_name(),
            old(alloc).spec_num_shmems() <= final (alloc).spec_num_shmems(),
            (r is Some) <==> (items@.len() * T::spec_size() <= usize::MAX && old(
                alloc,
            ).spec_can_alloc((items@.len() * T::spec_size()) as usize)),
            r matches Some(v) ==> {
                &&& v.spec_len() == items@.len()
                &&& v.valid_in(*final (alloc))
                &&& forall|i: int|
                    0 <= i < items@.len() ==> v.spec_item_bytes(*final (alloc), i)
                        == items@[i].spec_to_bytes()
                &&& final (alloc).spec_allocated() == old(alloc).spec_allocated().push(
                    v.spec_address(),
                )
            },
            r is None ==> final (alloc).spec_allocated() == old(alloc).spec_allocated(),
    {
        let size = T::byte_size();
        let length = items.len();
        let ghost items0 = items@;
        let total = match length.checked_mul(size) {
            Some(t) => t,
            None => {
                return None;
            },
        };
        let address = match alloc.alloc_bytes(total) {
            Some(a) => a,
            None => {
                return None;
            },
        };
        proof {
            crate::object_size::lemma_spec_size_class_bounds(
                if total < crate::allocator::MIN_OBJECT_SIZE {
                    crate::allocator::MIN_OBJECT_SIZE as nat
                } else {
                    total as nat
                },
            );
            crate::object_size::lemma_pow2_nondecreasing(
                crate::allocator::spec_request_class(total),
                address.object_size.0 as nat,
            );
        }
        let mut rest = items;
        let mut at: usize = 0;
        let mut i: usize = 0;
        let ghost mid = *alloc;
        while i < length
            invariant
                i <= length,
                at == i * size,
                size == T::spec_size(),
                length == items0.len(),
                rest@ =~= items0.subrange(i as int, length as int),
                total == length * size,
                alloc.wf(),
                alloc.range_valid(address),
                total <= pow2(address.object_size.0 as nat),
                alloc.spec_name() == mid.spec_name(),
                alloc.spec_num_shmems() == mid.spec_num_shmems(),
                alloc.spec_allocated() == mid.spec_allocated(),
                forall|k: int|
                    0 <= k < i ==> alloc.spec_segment(address.shmem_id.0 as int).subrange(
                        address.object_offset.0 as int + k * T::spec_size(),
                        address.object_offset.0 as int + (k + 1) * T::spec_size(),
                    ) == items0[k].spec_to_bytes(),
            decreases length - i,
        {
            proof {
                lemma_mul_inequality((i + 1) as int, length as int, size as int);
                assert((i + 1) as int * (size as int) == i as int * (size as int) + size as int)
                    by (nonlinear_arith);
            }
            let item = rest.remove(0);
            let bytes = item.to_bytes();
            proof {
                item.lemma_bytes_len();
                assert(item == items0[i as int]);
            }
            let ghost pre = *alloc;
            alloc.write_bytes(address, at, bytes.as_slice());
            proof {
                let sid = address.shmem_id.0 as int;
                let off = address.object_offset.0 as int;
                let s = T::spec_size() as int;
                assert(alloc.spec_segment(sid).len() == pre.spec_segment(sid).len());
                assert(forall|j: int|
                    0 <= j < off + at ==> alloc.spec_segment(sid)[j] == pre.spec_segment(sid)[j]);
                assert(forall|j: int|
                    0 <= j < size ==> alloc.spec_segment(sid)[off + at + j] == bytes@[j]);
                assert forall|k: int| 0 <= k < i + 1 implies alloc.spec_segment(sid).subrange(
                    off + k * T::spec_size(),
                    off + (k + 1) * T::spec_size(),
                ) == items0[k].spec_to_bytes() by {
                    if k < i {
                        lemma_mul_inequality(k + 1, i as int, s);
                        lemma_mul_inequality(0, k, s);
                        assert((k + 1) * s == k * s + s) by (nonlinear_arith);
                        assert(alloc.spec_segment(sid).subrange(off + k * s, off + (k + 1) * s)
                            =~= pre.spec_segment(sid).subrange(off + k * s, off + (k + 1) * s));
                    } else {
                        assert(alloc.spec_segment(sid).subrange(off + k * s, off + (k + 1) * s)
                            =~= bytes@);
                    }
                }
            }
            at = at + size;
            i = i + 1;
        }
        Some(SharedVec { address, length, marker: PhantomData })
    }

    /// The number of elements.
    pub fn len(&self) -> (r: usize)
        ensures
            r as nat == self.spec_len(),
    {
        self.length
    }

    /// The shared address of the vector's allocation.
    pub fn address(&self) -> (r: SharedAddressRange)
        ensures
            r == self.spec_address(),
    {
        self.address
    }

    /// Read the element at `index` back out of the given allocator.
    /// The value read is bits-equal to the bytes at its index; for a
    /// valid vector and an index in range the read always succeeds.
    pub fn get_in(&self, alloc: &ShmemAllocator, index: usize) -> (r: Option<T>)
        requires
            alloc.wf(),
        ensures
            r matches Some(v) ==> index < self.spec_len() && v.spec_to_bytes()
                == self.spec_item_bytes(*alloc, index as int),
            self.valid_in(*alloc) && index < self.spec_len() ==> r is Some,
            index >= self.spec_len() ==> r is None,
    {
        if index >= self.length {
            return None;
        }
        let bytes = match alloc.get_bytes(self.address) {
            Some(b) => b,
            None => {
                return None;
            },
        };
        let size = T::byte_size();
        proof {
            if self.valid_in(*alloc) {
                lemma_mul_inequality(index as int, (index + 1) as int, size as int);
                lemma_mul_inequality((index + 1) as int, self.length as int, size as int);
                assert((index + 1) as int * (size as int) == index as int * (size as int)
                    + size as int) by (nonlinear_arith);
            }
        }
        let start = match index.checked_mul(size) {
            Some(s) => s,
            None => {
                return None;
            },
        };
        let end = match start.checked_add(size) {
            Some(e) => e,
            None => {
                return None;
            },
        };
        if end > bytes.len() {
            return None;
        }
        let payload = slice_subrange(bytes, start, end);
        let value = T::from_bytes(payload);
        proof {
            value.lemma_bytes_len();
            assert((index + 1) as int * (size as int) == index as int * (size as int)
                + size as int) by (nonlinear_arith);
            assert(payload@ =~= self.spec_item_bytes(*alloc, index as int));
        }
        Some(value)
    }
}

} // verus!
