//! Power-of-two size classes.
//!
//! A size class is the log2 of a power-of-two number of bytes.  It is
//! used both for the size of a shared-memory segment and for the size
//! of a single allocation inside a segment.

use vstd::prelude::*;
use vstd::arithmetic::power2::pow2;
use vstd::arithmetic::power2::lemma_pow2_strictly_increases;
use vstd::bits::lemma_u64_pow2_no_overflow;
use vstd::bits::lemma_u64_shl_is_mul;

verus! {

/// The smallest size class whose byte count is at least `size`: the
/// mathematical form of `ObjectSize::ceil`.
pub open spec fn spec_size_class(size: nat) -> nat
    decreases size,
{
    if size <= 1 {
        0
    } else {
        1 + spec_size_class((size + 1) / 2)
    }
}

/// `spec_size_class(s)` is the smallest class whose byte count reaches
/// `s`: `s` fits in it, and every smaller class falls short of `s`.
pub proof fn lemma_spec_size_class_bounds(s: nat)
    requires
        s >= 1,
    ensures
        s <= pow2(spec_size_class(s)),
        spec_size_class(s) > 0 ==> pow2((spec_size_class(s) - 1) as nat) < s,
    decreases s,
{
    if s > 1 {
        let h = (s + 1) / 2;
        lemma_spec_size_class_bounds(h);
        let c = spec_size_class(h);
        assert(spec_size_class(s) == 1 + c);
        vstd::arithmetic::power2::lemma_pow2_unfold((c + 1) as nat);
        assert(pow2(c + 1) == 2 * pow2(c));
        assert(s <= 2 * h);
        assert(h <= pow2(c));
        assert(2 * h <= 2 * pow2(c));
        assert(s <= pow2(c + 1));
        if c == 0 {
            assert(pow2(0) == 1) by {
                vstd::arithmetic::power2::lemma2_to64();
            }
            assert(pow2(c as nat) < s);
        } else {
            vstd::arithmetic::power2::lemma_pow2_unfold(c);
            assert(pow2((c - 1) as nat) < h);
            assert(pow2(c) == 2 * pow2((c - 1) as nat));
            assert(pow2(c) <= 2 * (h - 1));
            assert(2 * h <= s + 1);
            assert(pow2(c) < s);
        }
    } else {
        assert(spec_size_class(s) == 0);
        assert(pow2(0) == 1) by {
            vstd::arithmetic::power2::lemma2_to64();
        }
    }
}

/// Only one class is the smallest that reaches `s`.
pub proof fn lemma_spec_size_class_unique(s: nat, c: nat)
    requires
        s >= 1,
        s <= pow2(c),
        forall|k: nat| k < c ==> pow2(k) < s,
    ensures
        c == spec_size_class(s),
{
    let m = spec_size_class(s);
    lemma_spec_size_class_bounds(s);
    if c < m {
        lemma_pow2_nondecreasing(c, (m - 1) as nat);
        assert(s <= pow2(c));
        assert(pow2((m - 1) as nat) < s);
    } else if c > m {
        assert(pow2(m) < s);
        assert(s <= pow2(m));
    }
}

/// `pow2` does not decrease as its exponent grows.
pub proof fn lemma_pow2_nondecreasing(e1: nat, e2: nat)
    requires
        e1 <= e2,
    ensures
        pow2(e1) <= pow2(e2),
{
    if e1 < e2 {
        lemma_pow2_strictly_increases(e1, e2);
    }
}

/// The log2 of a power-of-two number of bytes.
///
/// A class `c` stands for `pow2(c)` bytes.  Classes `0..=63` fit in a
/// `u64`; class `64` can arise from rounding a size above `pow2(63)`
/// upward and is rejected by `to_u64`.
#[derive(Clone, Copy, Debug, PartialEq, Eq, Structural)]
pub struct ObjectSize(pub u8);

impl ObjectSize {
    /// The number of bytes this size class stands for.
    pub open spec fn spec_bytes(self) -> nat {
        pow2(self.0 as nat)
    }

    /// The number of bytes, as a `u64`; `None` when the class is too
    /// large for the byte count to fit.
    pub fn to_u64(&self) -> (r: Option<u64>)
        ensures
            r matches Some(b) ==> self.0 < 64 && b == self.spec_bytes(),
            r is None <==> self.0 >= 64,
    {
        if self.0 < 64 {
            proof {
                lemma_u64_pow2_no_overflow(self.0 as nat);
                lemma_u64_shl_is_mul(1u64, self.0 as u64);
            }
            Some(1u64 << self.0)
        } else {
            None
        }
    }

    /// The number of bytes, as an `i64`; `None` when the byte count
    /// does not fit in an `i64`.
    pub fn to_i64(&self) -> (r: Option<i64>)
        ensures
            r matches Some(b) ==> self.0 < 63 && b == self.spec_bytes(),
            r is None <==> self.0 >= 63,
    {
        if self.0 < 63 {
            proof {
                lemma_u64_pow2_no_overflow(self.0 as nat);
                lemma_u64_shl_is_mul(1u64, self.0 as u64);
                lemma_pow2_strictly_increases(self.0 as nat, 63);
                vstd::arithmetic::power2::lemma2_to64_rest();
            }
            Some((1u64 << self.0) as i64)
        } else {
            None
        }
    }

    /// The size class of a byte count that is an exact power of two;
    /// `None` for any other byte count.
    pub fn from_u64(data: u64) -> (r: Option<ObjectSize>)
        ensures
            r matches Some(c) ==> c.0 < 64 && data == c.spec_bytes(),
            r is None <==> forall|k: nat| k < 64 ==> data != pow2(k),
    {
        let mut c: u8 = 0;
        while c < 64
            invariant
                c <= 64,
                forall|k: nat| k < c ==> data != pow2(k),
            decreases 64 - c,
        {
            proof {
                lemma_u64_pow2_no_overflow(c as nat);
                lemma_u64_shl_is_mul(1u64, c as u64);
            }
            if (1u64 << c) == data {
                return Some(ObjectSize(c));
            }
            c = c + 1;
        }
        None
    }

    /// As `from_u64`, starting from a signed byte count; negative
    /// counts are never powers of two.
    pub fn from_i64(data: i64) -> (r: Option<ObjectSize>)
        ensures
            r matches Some(c) ==> c.0 < 64 && data == c.spec_bytes(),
            data >= 0 ==> (r is None <==> forall|k: nat| k < 64 ==> data != pow2(k)),
            data < 0 ==> r is None,
    {
        if data < 0 {
            None
        } else {
            ObjectSize::from_u64(data as u64)
        }
    }

    /// The smallest size class whose byte count is at least `size`.
    pub fn ceil(size: usize) -> (r: ObjectSize)
        requires
            1 <= size,
        ensures
            r.0 <= 64,
            (size as nat) <= r.spec_bytes(),
            forall|k: nat| k < r.0 ==> pow2(k) < size as nat,
            r.0 == spec_size_class(size as nat),
    {
        let s: u64 = size as u64;
        let mut c: u8 = 0;
        while c < 64 && (1u64 << c) < s
            invariant
                c <= 64,
                s == size as u64,
                1 <= size,
                forall|k: nat| k < c ==> pow2(k) < size as nat,
            decreases 64 - c,
        {
            proof {
                lemma_u64_pow2_no_overflow(c as nat);
                lemma_u64_shl_is_mul(1u64, c as u64);
            }
            c = c + 1;
        }
        proof {
            if c < 64 {
                lemma_u64_pow2_no_overflow(c as nat);
                lemma_u64_shl_is_mul(1u64, c as u64);
            } else {
                lemma_pow2_64_exceeds_u64(size as u64);
            }
            lemma_spec_size_class_unique(size as nat, c as nat);
        }
        ObjectSize(c)
    }

    /// The largest size class whose byte count is at most `size`.
    pub fn floor(size: usize) -> (r: ObjectSize)
        requires
            1 <= size,
        ensures
            r.0 < 64,
            r.spec_bytes() <= size as nat,
            (size as nat) < pow2((r.0 + 1) as nat),
    {
        let s: u64 = size as u64;
        let mut c: u8 = 0;
        proof {
            vstd::arithmetic::power2::lemma2_to64();
        }
        while c < 63 && (1u64 << (c + 1)) <= s
            invariant
                c < 64,
                s == size as u64,
                1 <= size,
                pow2(c as nat) <= size as nat,
            decreases 63 - c,
        {
            proof {
                lemma_u64_pow2_no_overflow((c + 1) as nat);
                lemma_u64_shl_is_mul(1u64, (c + 1) as u64);
            }
            c = c + 1;
        }
        proof {
            if c < 63 {
                lemma_u64_pow2_no_overflow((c + 1) as nat);
                lemma_u64_shl_is_mul(1u64, (c + 1) as u64);
            } else {
                lemma_pow2_64_exceeds_u64(size as u64);
                lemma_pow2_strictly_increases(63, 64);
            }
        }
        ObjectSize(c)
    }
}

/// Every `u64`, in particular every byte count, lies below `pow2(64)`.
proof fn lemma_pow2_64_exceeds_u64(x: u64)
    ensures
        (x as nat) < pow2(64),
{
    vstd::arithmetic::power2::lemma2_to64_rest();
}

} // verus!
