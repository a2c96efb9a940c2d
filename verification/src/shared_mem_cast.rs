//! Types that can be placed into shared memory.
//!
//! A type that crosses the process boundary must have a well-defined
//! byte representation: writing a value is writing its bytes into a
//! segment, and reading is decoding the bytes found there.  The trait
//! below states that contract; every implementation proves that
//! decoding inverts encoding, so a value read back is bits-equal to
//! the value written.

use vstd::prelude::*;
use vstd::bytes::lemma_auto_spec_u64_to_from_le_bytes;
use vstd::bytes::spec_u64_from_le_bytes;
use vstd::bytes::spec_u64_to_le_bytes;
use vstd::bytes::u64_from_le_bytes;
use vstd::bytes::u64_to_le_bytes;

verus! {

/// A type with a fixed-width byte representation, fit for shared
/// memory.
pub trait SharedMemCast: Sized {
    /// The width of the representation, in bytes.
    spec fn spec_size() -> nat;

    /// The byte representation of a value.
    spec fn spec_to_bytes(&self) -> Seq<u8>;

    /// The representation has the declared width.
    proof fn lemma_bytes_len(&self)
        ensures
            self.spec_to_bytes().len() == Self::spec_size(),
    ;

    /// The width of the representation, in bytes.
    fn byte_size() -> (n: usize)
        ensures
            n == Self::spec_size(),
    ;

    /// Encode a value into its bytes.
    fn to_bytes(&self) -> (v: Vec<u8>)
        ensures
            v@ == self.spec_to_bytes(),
    ;

    /// Decode a value from its bytes.  Decoding inverts encoding: the
    /// decoded value's representation is the given bytes.
    fn from_bytes(bytes: &[u8]) -> (r: Self)
        requires
            bytes@.len() == Self::spec_size(),
        ensures
            r.spec_to_bytes() == bytes@,
    ;
}

impl SharedMemCast for u64 {
    open spec fn spec_size() -> nat {
        8
    }

    open spec fn spec_to_bytes(&self) -> Seq<u8> {
        spec_u64_to_le_bytes(*self)
    }

    proof fn lemma_bytes_len(&self) {
        lemma_auto_spec_u64_to_from_le_bytes();
    }

    fn byte_size() -> (n: usize) {
        8
    }

    fn to_bytes(&self) -> (v: Vec<u8>) {
        u64_to_le_bytes(*self)
    }

    fn from_bytes(bytes: &[u8]) -> (r: Self) {
        proof {
            lemma_auto_spec_u64_to_from_le_bytes();
        }
        let r = u64_from_le_bytes(bytes);
        proof {
            assert(spec_u64_to_le_bytes(spec_u64_from_le_bytes(bytes@)) == bytes@);
        }
        r
    }
}

impl SharedMemCast for u8 {
    open spec fn spec_size() -> nat {
        1
    }

    open spec fn spec_to_bytes(&self) -> Seq<u8> {
        seq![*self]
    }

    proof fn lemma_bytes_len(&self) {
    }

    fn byte_size() -> (n: usize) {
        1
    }

    fn to_bytes(&self) -> (v: Vec<u8>) {
        let mut v: Vec<u8> = Vec::new();
        v.push(*self);
        proof {
            assert(v@ =~= self.spec_to_bytes());
        }
        v
    }

    fn from_bytes(bytes: &[u8]) -> (r: Self) {
        let r = bytes[0];
        proof {
            assert(r.spec_to_bytes() =~= bytes@);
        }
        r
    }
}

} // verus!
