//! Identifiers of shared-memory segments.

use vstd::prelude::*;

verus! {

/// The index of a shared-memory segment in the allocator's segment
/// table.
#[derive(Clone, Copy, Debug, PartialEq, Eq, Structural)]
pub struct ShmemId(pub u16);

impl ShmemId {
    /// The identifier of the segment at table index `data`; `None` when
    /// the index does not fit the 16-bit segment-id field.
    pub fn from_usize(data: usize) -> (r: Option<ShmemId>)
        ensures
            r matches Some(i) ==> i.0 == data,
            r is Some <==> data <= u16::MAX,
    {
        if data <= 0xFFFF {
            Some(ShmemId(data as u16))
        } else {
            None
        }
    }

    /// The table index this identifier stands for.
    pub fn to_usize(&self) -> (r: usize)
        ensures
            r == self.0,
    {
        self.0 as usize
    }
}

} // verus!
