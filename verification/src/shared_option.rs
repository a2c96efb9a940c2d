//! An atomic three-state optional cell.
//!
//! A `SharedOption` holds at most one value and a state byte that is
//! always one of `UNOCCUPIED`, `RESERVED` or `OCCUPIED`.  A writer
//! moves the cell from unoccupied through reserved to occupied; a
//! taker moves it back.  The reserved state belongs to the one
//! operation that claimed the cell and is never observed at rest: at
//! the end of every operation here the cell is unoccupied or
//! occupied.

use vstd::prelude::*;

verus! {

/// The state byte of an empty cell.
pub const UNOCCUPIED: u8 = 0;

/// The state byte of a cell claimed by an in-flight operation.
pub const RESERVED: u8 = 1;

/// The state byte of a full cell.
pub const OCCUPIED: u8 = 2;

/// Optional shared data: a value slot and a state byte.
pub struct SharedOption<T> {
    pub data: Option<T>,
    pub occupied: u8,
}

impl<T> SharedOption<T> {
    /// The state byte.
    pub open spec fn spec_state(self) -> u8 {
        self.occupied
    }

    /// The held value, if the cell is occupied.
    pub open spec fn spec_data(self) -> Option<T> {
        self.data
    }

    /// At rest the cell is unoccupied or occupied, and holds a value
    /// exactly when occupied.
    pub open spec fn wf(self) -> bool {
        &&& (self.spec_state() == UNOCCUPIED || self.spec_state() == OCCUPIED)
        &&& (self.spec_state() == OCCUPIED <==> self.spec_data() is Some)
    }

    /// An unoccupied cell.
    pub fn none() -> (r: SharedOption<T>)
        ensures
            r.wf(),
            r.spec_state() == UNOCCUPIED,
            r.spec_data() is None,
    {
        SharedOption { data: None, occupied: UNOCCUPIED }
    }

    /// An occupied cell holding `value`.
    pub fn some(value: T) -> (r: SharedOption<T>)
        ensures
            r.wf(),
            r.spec_state() == OCCUPIED,
            r.spec_data() == Some(value),
    {
        SharedOption { data: Some(value), occupied: OCCUPIED }
    }

    /// A reference to the held value, when the cell is occupied.
    pub fn volatile_peek(&self) -> (r: Option<&T>)
        requires
            self.wf(),
        ensures
            (r is Some) <==> self.spec_state() == OCCUPIED,
            r matches Some(x) ==> self.spec_data() == Some(*x),
    {
        if self.occupied == OCCUPIED {
            match &self.data {
                Some(x) => Some(x),
                None => None,
            }
        } else {
            None
        }
    }

    /// Move a value in: only an unoccupied cell accepts it, and then
    /// becomes occupied; otherwise the value comes back unchanged and
    /// the cell is untouched.
    pub fn put(&mut self, value: T) -> (r: Result<(), T>)
        requires
            old(self).wf(),
        ensures
            final (self).wf(),
            old(self).spec_state() == UNOCCUPIED ==> r is Ok && final (self).spec_state()
                == OCCUPIED && final (self).spec_data() == Some(value),
            old(self).spec_state() != UNOCCUPIED ==> r == Err::<(), T>(value) && *final (self)
                == *old(self),
    {
        if self.occupied == UNOCCUPIED {
            self.occupied = RESERVED;
            self.data = Some(value);
            self.occupied = OCCUPIED;
            Ok(())
        } else {
            Err(value)
        }
    }

    /// Move the value out: only an occupied cell yields one, and then
    /// becomes unoccupied; otherwise nothing changes.
    pub fn take(&mut self) -> (r: Option<T>)
        requires
            old(self).wf(),
        ensures
            final (self).wf(),
            old(self).spec_state() == OCCUPIED ==> r == old(self).spec_data() && final (self).spec_state()
                == UNOCCUPIED && final (self).spec_data() is None,
            old(self).spec_state() != OCCUPIED ==> r is None && *final (self) == *old(self),
    {
        if self.occupied == OCCUPIED {
            self.occupied = RESERVED;
            let mut result: Option<T> = None;
            core::mem::swap(&mut result, &mut self.data);
            self.occupied = UNOCCUPIED;
            result
        } else {
            None
        }
    }
}

/// The state byte of a well-formed cell is always one of the three
/// named states, and the reserved state is never seen at rest.
pub proof fn lemma_option_state_in_range<T>(cell: SharedOption<T>)
    requires
        cell.wf(),
    ensures
        cell.spec_state() == UNOCCUPIED || cell.spec_state() == RESERVED || cell.spec_state()
            == OCCUPIED,
        cell.spec_state() != RESERVED,
{
}

} // verus!
