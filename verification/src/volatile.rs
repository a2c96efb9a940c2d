//! A wrapper for data whose memory other parties may touch.
//!
//! Shared bytes are never exposed through plain typed references;
//! every access goes through an explicit read or write on a
//! `Volatile`.  A shared reference to the wrapped value itself is
//! handed out only for types that tolerate unsynchronized concurrent
//! writers (`SharedMemRef`).

use vstd::prelude::*;

use crate::shared_mem_ref::SharedMemRef;

verus! {

/// One value whose bytes may be observed and replaced wholesale.
pub struct Volatile<T> {
    value: T,
}

impl<T> Volatile<T> {
    /// The wrapped value.
    pub closed spec fn spec_value(&self) -> T {
        self.value
    }

    /// Wrap a value.
    pub fn new(value: T) -> (r: Volatile<T>)
        ensures
            r.spec_value() == value,
    {
        Volatile { value }
    }

    /// Read the wrapped value out by copy, leaving it unchanged.
    pub fn read_volatile(&self) -> (r: T) where T: Copy
        ensures
            r == self.spec_value(),
    {
        self.value
    }

    /// Overwrite the wrapped value without reading or dropping the old
    /// one.
    pub fn write_volatile(&mut self, value: T)
        ensures
            final (self).spec_value() == value,
    {
        self.value = value;
    }

    /// Borrow the wrapped value.  Only types that tolerate
    /// unsynchronized concurrent writers may be borrowed from memory
    /// that other parties can touch.
    pub fn borrow(&self) -> (r: &T) where T: SharedMemRef
        ensures
            *r == self.spec_value(),
    {
        &self.value
    }
}

} // verus!
