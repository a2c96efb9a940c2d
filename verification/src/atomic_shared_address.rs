//! An atomic cell holding a packed shared address.
//!
//! The cell is a single 64-bit atomic word, usually one that lives in
//! shared memory where every participating process can advance it.
//! Nothing can be assumed about the value found in the word: another
//! process may change it between any two operations.  What is verified
//! here is the arithmetic around each access: the decode of the loaded
//! word, and the bounds check that decides whether an atomic add
//! produced a well-formed range or ran past the segment's end.

use core::sync::atomic::AtomicU64;
use core::sync::atomic::Ordering;
use vstd::prelude::*;
use vstd::arithmetic::power2::pow2;

use crate::object_size::ObjectSize;
use crate::shared_address::SharedAddress;
use crate::shared_address_range::SharedAddressRange;

verus! {

/// An atomic 64-bit word read and written as a `SharedAddress`.
pub struct AtomicSharedAddress {
    word: AtomicU64,
}

impl AtomicSharedAddress {
    /// A cell initially holding the given address.
    pub fn new(address: SharedAddress) -> AtomicSharedAddress {
        AtomicSharedAddress { word: AtomicU64::new(address.to_u64()) }
    }

    /// The address currently in the cell.  The value is whatever some
    /// process last stored; nothing more can be promised of a word in
    /// shared memory.
    pub fn load(&self, order: Ordering) -> SharedAddress {
        SharedAddress::from_u64(self.word.load(order))
    }

    /// Replace `current` by `new` if the cell still holds `current`;
    /// return the address found in the cell.
    pub fn compare_and_swap(
        &self,
        current: SharedAddress,
        new: SharedAddress,
        order: Ordering,
    ) -> SharedAddress {
        let result = match self.word.compare_exchange(
            current.to_u64(),
            new.to_u64(),
            order,
            Ordering::SeqCst,
        ) {
            Ok(x) => x,
            Err(x) => x,
        };
        SharedAddress::from_u64(result)
    }

    /// Atomically advance the offset field by `size` bytes and return
    /// the range of `size` bytes starting at the previous address.
    ///
    /// Whatever word the add observed, a returned range is well
    /// formed: it carries the requested size class and lies entirely
    /// within its declared segment.  When the add ran past the
    /// segment's end (or carried out of the offset field into the
    /// padding byte), the add is undone and `None` is returned.
    pub fn fetch_add(&self, size: ObjectSize, order: Ordering) -> (r: Option<SharedAddressRange>)
        ensures
            r matches Some(rng) ==> size.0 < 64 && rng.object_size == size && rng.spec_end()
                <= pow2(rng.shmem_size.0 as nat),
            size.0 >= 64 ==> r is None,
    {
        let bytes = match size.to_u64() {
            Some(b) => b,
            None => {
                return None;
            },
        };
        let prev = self.word.fetch_add(bytes, order);
        let address = SharedAddress::from_u64(prev);
        let result = address.checked_add(size);
        if result.is_none() {
            self.word.fetch_sub(bytes, order);
        }
        result
    }
}

} // verus!
