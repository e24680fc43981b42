//! Power-of-two size classes and byte offsets inside a segment.
use vstd::arithmetic::power2::*;
use vstd::prelude::*;

verus! {

broadcast use {lemma_pow2_pos, lemma_pow2_unfold, lemma_pow2_strictly_increases};

/// The smallest object the allocator hands out, in bytes.
pub const MIN_OBJECT_SIZE: usize = 8;

/// Exponent of the smallest size class.
pub const MIN_CLASS: u8 = 3;

/// Exponent of the largest size class.
pub const MAX_CLASS: u8 = 63;

/// The largest request that has a size class: `2^63` bytes.
pub const MAX_REQUEST: u64 = 0x8000_0000_0000_0000;

/// `max(r, 8)`: the byte count a request of `r` bytes occupies before rounding.
pub open spec fn padded_request(r: int) -> int {
    if r < MIN_OBJECT_SIZE as int {
        MIN_OBJECT_SIZE as int
    } else {
        r
    }
}

/// `c` is the size class of a request of `r` bytes: the smallest exponent whose
/// power of two holds `max(r, 8)` bytes.
pub open spec fn is_class_for(c: nat, r: int) -> bool {
    &&& 1 <= c
    &&& pow2(c) >= padded_request(r)
    &&& pow2((c - 1) as nat) < padded_request(r)
}

/// A size class, given by its exponent: objects of the class span `2^e` bytes.
#[derive(Clone, Copy, Debug, PartialEq, Eq, Structural)]
pub struct ObjectSize(u8);

impl ObjectSize {
    /// The exponent, in `1..=63` (zero is reserved for "no address").
    pub closed spec fn exp(self) -> u8 {
        self.0
    }

    /// The number of bytes an object of this class spans.
    pub open spec fn byte_count(self) -> nat {
        pow2(self.exp() as nat)
    }

    #[verifier::type_invariant]
    spec fn exp_in_range(self) -> bool {
        1 <= self.0 && self.0 <= MAX_CLASS
    }

    /// A class is determined by its exponent.
    pub proof fn lemma_exp_determines(a: ObjectSize, b: ObjectSize)
        requires
            a.exp() == b.exp(),
        ensures
            a == b,
    {
    }

    /// The class with exponent `e`, if `e` names a class.
    pub fn from_exponent(e: u8) -> (r: Option<ObjectSize>)
        ensures
            r is Some <==> 1 <= e <= MAX_CLASS,
            r matches Some(s) ==> s.exp() == e,
    {
        if 1 <= e && e <= MAX_CLASS {
            Some(ObjectSize(e))
        } else {
            None
        }
    }

    /// The exponent.
    pub fn exponent(&self) -> (r: u8)
        ensures
            r == self.exp(),
            1 <= r <= MAX_CLASS,
    {
        proof {
            use_type_invariant(self);
        }
        self.0
    }

    /// The number of bytes an object of this class spans, `2^e`.
    pub fn bytes(&self) -> (r: u64)
        ensures
            r == self.byte_count(),
    {
        proof {
            use_type_invariant(self);
        }
        let mut p: u64 = 1;
        let mut i: u8 = 0;
        proof {
            vstd::arithmetic::power2::lemma2_to64();
        }
        while i < self.0
            invariant
                i <= self.0 <= MAX_CLASS,
                p == pow2(i as nat),
            decreases self.0 - i,
        {
            proof {
                lemma_pow2_strictly_increases((i + 1) as nat, 64);
                lemma_pow2_unfold(64);
                assert(pow2(64) == 2 * pow2(63));
                vstd::arithmetic::power2::lemma2_to64();
            }
            p = p * 2;
            i = i + 1;
        }
        p
    }

    /// The class's span as an in-segment offset, where it fits in 32 bits
    /// (exponents below 32).
    pub fn as_offset(&self) -> (r: Option<ObjectOffset>)
        ensures
            r is Some <==> self.exp() < 32,
            r matches Some(o) ==> o.0 as nat == self.byte_count(),
    {
        let b = self.bytes();
        proof {
            vstd::arithmetic::power2::lemma2_to64();
            if self.exp() >= 32 {
                lemma_pow2_strictly_increases(31, self.exp() as nat);
            } else {
                lemma_pow2_strictly_increases(self.exp() as nat, 32);
            }
        }
        if self.0 < 32 {
            Some(ObjectOffset(b as u32))
        } else {
            None
        }
    }

    /// The size class of a request of `size` bytes: the smallest power of two
    /// that is at least `max(size, 8)`.
    pub fn ceil(size: usize) -> (r: ObjectSize)
        requires
            size as int <= MAX_REQUEST as int,
        ensures
            is_class_for(r.exp() as nat, size as int),
            MIN_CLASS <= r.exp() <= MAX_CLASS,
    {
        let target: u64 = if size < MIN_OBJECT_SIZE {
            MIN_OBJECT_SIZE as u64
        } else {
            size as u64
        };
        let mut e: u8 = MIN_CLASS;
        let mut p: u64 = 8;
        proof {
            vstd::arithmetic::power2::lemma2_to64();
        }
        while p < target
            invariant
                MIN_CLASS <= e <= MAX_CLASS,
                p == pow2(e as nat),
                target == padded_request(size as int),
                target <= MAX_REQUEST,
                pow2((e - 1) as nat) < target,
            decreases MAX_CLASS - e,
        {
            proof {
                vstd::arithmetic::power2::lemma2_to64_rest();
                if e >= MAX_CLASS {
                    assert(pow2(63) == MAX_REQUEST);
                    lemma_pow2_strictly_increases(63, e as nat);
                    assert(false);
                }
            }
            p = p * 2;
            e = e + 1;
        }
        ObjectSize(e)
    }
}

/// The size class of a request is the least class that holds it: no smaller
/// power of two holds `max(r, 8)` bytes.
pub proof fn lemma_class_is_smallest(r: int, c: nat, d: nat)
    requires
        is_class_for(c, r),
        pow2(d) >= padded_request(r),
    ensures
        c <= d,
{
    if d < c {
        if d < (c - 1) as nat {
            lemma_pow2_strictly_increases(d, (c - 1) as nat);
        }
    }
}

/// Size classes never shrink as the request grows.
pub proof fn lemma_class_monotonic(r1: int, r2: int, c1: nat, c2: nat)
    requires
        r1 <= r2,
        is_class_for(c1, r1),
        is_class_for(c2, r2),
    ensures
        c1 <= c2,
{
    if c2 < c1 {
        if c2 < (c1 - 1) as nat {
            lemma_pow2_strictly_increases(c2, (c1 - 1) as nat);
        }
    }
}

/// A byte offset inside a segment.
#[derive(Clone, Copy, Debug, PartialEq, Eq, Structural)]
pub struct ObjectOffset(pub u32);

impl ObjectOffset {
    /// The offset widened to 64 bits.
    pub fn as_u64(self) -> (r: u64)
        ensures
            r == self.0,
    {
        self.0 as u64
    }

    /// The offset as a `usize`.
    pub fn as_usize(self) -> (r: usize)
        ensures
            r == self.0,
    {
        self.0 as usize
    }

    /// The offset as an `isize`, as pointer arithmetic takes it.
    pub fn as_isize(self) -> (r: isize)
        requires
            self.0 as int <= isize::MAX as int,
        ensures
            r as int == self.0 as int,
    {
        self.0 as isize
    }
}

} // verus!
