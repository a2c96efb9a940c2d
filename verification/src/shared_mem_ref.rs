//! A marker trait for types that it is safe to reference in shared
//! memory.
//!
//! This is more restrictive than `SharedMemCast`: even though a plain
//! integer can be copied into shared memory, a long-lived reference to
//! one is unsound there, because the compiler may assume the target of
//! such a reference does not change while the reference lives, and an
//! unrelated process can change it at any time.  Atomic integers make
//! no such promise, so references to them tolerate concurrent writers.

use vstd::prelude::*;

verus! {

/// Types whose semantics tolerate unsynchronized concurrent writes by
/// unrelated parties, so that a shared reference into shared memory is
/// sound.  The canonical members are the atomic integers.
pub trait SharedMemRef {

}

impl SharedMemRef for core::sync::atomic::AtomicBool {

}

impl SharedMemRef for core::sync::atomic::AtomicU8 {

}

impl SharedMemRef for core::sync::atomic::AtomicU64 {

}

impl SharedMemRef for core::sync::atomic::AtomicUsize {

}

impl SharedMemRef for () {

}

impl<T1: SharedMemRef, T2: SharedMemRef> SharedMemRef for (T1, T2) {

}

} // verus!
