//! Names of shared-memory segments.
//!
//! A segment is identified process-wide by a short printable name of at
//! most 32 bytes, the name under which the operating system knows the
//! region.  The name is held in an `arrayvec` fixed-capacity string so
//! that it can itself live inside shared memory without heap pointers.

use vstd::prelude::*;
use vstd::string::StringSliceAdditionalSpecFns;

verus! {

#[verifier::external_type_specification]
#[verifier::external_body]
pub struct ExArrayString<const CAP: usize>(arrayvec::ArrayString<CAP>);

/// The bytes held by a fixed-capacity name buffer.
pub uninterp spec fn array_string_bytes(s: arrayvec::ArrayString<32>) -> Seq<u8>;

/// Relies on arrayvec's `ArrayString::from`: it succeeds exactly when
/// the argument fits the 32-byte backing array, and then holds the
/// argument's bytes unchanged.
#[verifier::external_body]
fn array_string_from(s: &str) -> (r: Option<arrayvec::ArrayString<32>>)
    ensures
        r matches Some(a) ==> array_string_bytes(a) == s.spec_bytes(),
        r is Some <==> s.spec_bytes().len() <= 32,
{
    arrayvec::ArrayString::from(s).ok()
}

/// Relies on arrayvec's `ArrayString::as_str`: it returns the whole
/// stored string.
#[verifier::external_body]
fn array_string_as_str(a: &arrayvec::ArrayString<32>) -> (r: &str)
    ensures
        r.spec_bytes() == array_string_bytes(*a),
{
    a.as_str()
}

/// Relies on arrayvec's `ArrayString::from` over a formatted string of
/// at most nine bytes, which always fits the 32-byte backing array; an
/// `ArrayString` never holds more bytes than its backing array.
#[verifier::external_body]
fn array_string_for_index(index: u16) -> (r: arrayvec::ArrayString<32>)
    ensures
        array_string_bytes(r).len() <= 32,
{
    arrayvec::ArrayString::from(&format!("shm-{}", index)).unwrap_or_default()
}

/// The name of one shared-memory segment: at most 32 bytes, printable,
/// understood by the operating system's shared-memory facility.
#[derive(Clone, Copy)]
pub struct ShmemName {
    name: arrayvec::ArrayString<32>,
}

impl ShmemName {
    /// The bytes of the name.
    pub closed spec fn spec_bytes(self) -> Seq<u8> {
        array_string_bytes(self.name)
    }

    /// A well-formed name fits the fixed-width name slots of the
    /// bootstrap segment.
    pub open spec fn wf(self) -> bool {
        self.spec_bytes().len() <= 32
    }

    /// Wrap a string as a segment name; `None` when the string is
    /// longer than 32 bytes.
    pub fn from_str(name: &str) -> (r: Option<ShmemName>)
        ensures
            r matches Some(n) ==> n.wf() && n.spec_bytes() == name.spec_bytes(),
            r is Some <==> name.spec_bytes().len() <= 32,
    {
        match array_string_from(name) {
            Some(a) => Some(ShmemName { name: a }),
            None => None,
        }
    }

    /// The name as a string slice.
    pub fn as_str(&self) -> (r: &str)
        ensures
            r.spec_bytes() == self.spec_bytes(),
    {
        array_string_as_str(&self.name)
    }

    /// A synthetic name for the segment at table index `index`, used by
    /// the in-process allocator when it grows the segment family.
    pub fn for_index(index: u16) -> (r: ShmemName)
        ensures
            r.wf(),
    {
        ShmemName { name: array_string_for_index(index) }
    }
}

} // verus!
