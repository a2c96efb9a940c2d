//! An atomic cell holding a typed handle by its packed address.
//!
//! Owning handles such as boxes and reference-counted cells can be
//! converted to and from a packed `SharedAddressRange`; this cell
//! stores such a handle as its 64-bit address word so that the handle
//! itself can live in shared memory.

use core::marker::PhantomData;
use core::sync::atomic::AtomicU64;
use core::sync::atomic::Ordering;
use vstd::prelude::*;

use crate::shared_address_range::SharedAddressRange;

verus! {

/// Handles that are carried across processes as a packed address
/// range: each handle stands for exactly one range, conversion to the
/// range gives that one, and reconstruction from a range yields a
/// handle standing for it.
pub trait SharedAddressCast: Sized {
    /// The range this handle stands for.
    spec fn spec_address(&self) -> SharedAddressRange;

    /// A handle standing for `address`, without any check that the
    /// range is large enough for the handle's payload.
    fn from_address_unchecked(address: SharedAddressRange) -> (r: Self)
        ensures
            r.spec_address() == address,
    ;

    /// A handle standing for `address`, when the range passes the
    /// handle's own size check.
    fn try_from_address(address: SharedAddressRange) -> (r: Option<Self>)
        ensures
            r matches Some(v) ==> v.spec_address() == address,
    ;

    /// Give the handle up, yielding the range it stood for.
    fn into_address(self) -> (r: SharedAddressRange)
        ensures
            r == self.spec_address(),
    ;
}

/// An atomic 64-bit word read and written as a typed handle.
pub struct AtomicShared<T> {
    word: AtomicU64,
    marker: PhantomData<T>,
}

impl<T: SharedAddressCast> AtomicShared<T> {
    /// A cell initially holding the given handle.
    pub fn new(value: T) -> AtomicShared<T> {
        AtomicShared { word: AtomicU64::new(value.into_address().to_u64()), marker: PhantomData }
    }

    /// The handle for the address currently in the cell, without a
    /// size check.  The word is whatever some process last stored;
    /// nothing more can be promised of a word in shared memory.
    pub fn load(&self, order: Ordering) -> T {
        T::from_address_unchecked(SharedAddressRange::from_u64(self.word.load(order)))
    }

    /// The handle for the address currently in the cell, if the
    /// address passes the handle's size check.
    pub fn try_load(&self, order: Ordering) -> Option<T> {
        T::try_from_address(SharedAddressRange::from_u64(self.word.load(order)))
    }

    /// Replace `current` by `new` if the cell still holds the address
    /// of `current`; return the handle for the address found, if it
    /// passes the handle's size check.
    pub fn try_compare_and_swap(&self, current: T, new: T, order: Ordering) -> Option<T> {
        let current_word = current.into_address().to_u64();
        let new_word = new.into_address().to_u64();
        let result = match self.word.compare_exchange(
            current_word,
            new_word,
            order,
            Ordering::SeqCst,
        ) {
            Ok(x) => x,
            Err(x) => x,
        };
        T::try_from_address(SharedAddressRange::from_u64(result))
    }
}

} // verus!
