//! An atomic cell holding a packed shared address range.
//!
//! As with `AtomicSharedAddress`, the cell is one 64-bit atomic word
//! that other processes may change at any time; what is verified is
//! the encode and decode around each access.

use core::sync::atomic::AtomicU64;
use core::sync::atomic::Ordering;
use vstd::prelude::*;

use crate::shared_address_range::SharedAddressRange;

verus! {

/// An atomic 64-bit word read and written as a `SharedAddressRange`.
pub struct AtomicSharedAddressRange {
    word: AtomicU64,
}

impl AtomicSharedAddressRange {
    /// A cell initially holding the given range.
    pub fn new(value: SharedAddressRange) -> AtomicSharedAddressRange {
        AtomicSharedAddressRange { word: AtomicU64::new(value.to_u64()) }
    }

    /// The range currently in the cell.  The value is whatever some
    /// process last stored; nothing more can be promised of a word in
    /// shared memory.
    pub fn load(&self, order: Ordering) -> SharedAddressRange {
        SharedAddressRange::from_u64(self.word.load(order))
    }

    /// Store a range into the cell.
    pub fn store(&self, value: SharedAddressRange, order: Ordering) {
        self.word.store(value.to_u64(), order)
    }

    /// Replace `current` by `new` if the cell still holds `current`;
    /// return the range found in the cell.
    pub fn compare_and_swap(
        &self,
        current: SharedAddressRange,
        new: SharedAddressRange,
        order: Ordering,
    ) -> SharedAddressRange {
        let result = match self.word.compare_exchange(
            current.to_u64(),
            new.to_u64(),
            order,
            Ordering::SeqCst,
        ) {
            Ok(x) => x,
            Err(x) => x,
        };
        SharedAddressRange::from_u64(result)
    }
}

} // verus!
