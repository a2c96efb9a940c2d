//! Byte offsets within a shared-memory segment.

use vstd::prelude::*;

verus! {

/// A byte offset within one shared-memory segment.  Offsets occupy the
/// low 32 bits of a packed shared address, so that an atomic add on the
/// whole 64-bit word advances the offset.
#[derive(Clone, Copy, Debug, PartialEq, Eq, Structural)]
pub struct ObjectOffset(pub u32);

impl ObjectOffset {
    /// The offset as a 64-bit number; `None` when it does not fit the
    /// 32-bit offset field.
    pub fn from_u64(data: u64) -> (r: Option<ObjectOffset>)
        ensures
            r matches Some(o) ==> o.0 == data,
            r is Some <==> data <= u32::MAX,
    {
        if data <= 0xFFFF_FFFF {
            Some(ObjectOffset(data as u32))
        } else {
            None
        }
    }

    /// The offset as a 64-bit number.
    pub fn to_u64(&self) -> (r: u64)
        ensures
            r == self.0,
    {
        self.0 as u64
    }

    /// The offset as a `usize`.
    pub fn to_usize(&self) -> (r: usize)
        ensures
            r == self.0,
    {
        self.0 as usize
    }
}

} // verus!
