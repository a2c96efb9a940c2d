//! A shared-memory allocator and a small library of data structures
//! layered on it: packed 64-bit shared addresses, power-of-two size
//! classes, a segmented bump allocator, and boxes, reference-counted
//! cells, vectors, optionals and a growable channel built on top of
//! the allocator.
//!
//! Every address the allocator hands out names a range of bytes that
//! lies inside one published segment and overlaps no other; the
//! packed 64-bit form of an address round-trips exactly, so addresses
//! can travel between processes as plain words.  The atomic cells
//! over packed words promise nothing about the word another party may
//! have stored, only that the arithmetic around each access is right;
//! the allocator and the containers carry exact contracts over their
//! bytes.

pub mod allocator;
pub mod atomic_shared;
pub mod atomic_shared_address;
pub mod atomic_shared_address_range;
pub mod object_offset;
pub mod object_size;
pub mod shared_address;
pub mod shared_address_range;
pub mod shared_box;
pub mod shared_channel;
pub mod shared_mem_cast;
pub mod shared_mem_ref;
pub mod shared_option;
pub mod shared_rc;
pub mod shared_vec;
pub mod shmem_id;
pub mod shmem_name;
pub mod volatile;

pub use allocator::ShmemAllocator;
pub use atomic_shared::AtomicShared;
pub use atomic_shared::SharedAddressCast;
pub use atomic_shared_address::AtomicSharedAddress;
pub use atomic_shared_address_range::AtomicSharedAddressRange;
pub use object_offset::ObjectOffset;
pub use object_size::ObjectSize;
pub use shared_address::SharedAddress;
pub use shared_address_range::SharedAddressRange;
pub use shared_box::SharedBox;
pub use shared_channel::SharedChannel;
pub use shared_mem_cast::SharedMemCast;
pub use shared_mem_ref::SharedMemRef;
pub use shared_option::SharedOption;
pub use shared_rc::SharedRc;
pub use shared_vec::SharedVec;
pub use shmem_id::ShmemId;
pub use shmem_name::ShmemName;
pub use volatile::Volatile;
