//! Fixed-point time values in microseconds.
use vstd::prelude::*;
use vstd::arithmetic::power::pow;
use vstd::arithmetic::power::lemma_pow_increases;

verus! {

/// A point in time, or a duration, counted in microseconds.
#[derive(Debug, Clone, Copy, PartialEq, Eq, Structural, PartialOrd, Ord, Default)]
pub struct Timestamp {
    pub value: u64,
}

/// The integer square root: the largest `r` with `r * r <= v`.
pub open spec fn is_floor_sqrt(v: int, r: int) -> bool {
    &&& 0 <= r
    &&& r * r <= v
    &&& v < (r + 1) * (r + 1)
}

impl Timestamp {
    pub fn new(value: u64) -> (r: Timestamp)
        ensures
            r.value == value,
    {
        Timestamp { value }
    }

    /// The timestamp stored as a word of a packed segment record.
    pub fn from_minified(value: u64) -> (r: Timestamp)
        ensures
            r.value == value,
    {
        Timestamp { value }
    }

    pub fn zero() -> (r: Timestamp)
        ensures
            r.value == 0,
    {
        Timestamp { value: 0 }
    }

    pub fn add(self, other: Timestamp) -> (r: Timestamp)
        requires
            self.value + other.value <= u64::MAX,
        ensures
            r.value == self.value + other.value,
    {
        Timestamp { value: self.value + other.value }
    }

    /// Subtraction; the caller guarantees that `other` is not later than `self`.
    pub fn sub(self, other: Timestamp) -> (r: Timestamp)
        requires
            other.value <= self.value,
        ensures
            r.value == self.value - other.value,
    {
        Timestamp { value: self.value - other.value }
    }

    pub fn add_assign(&mut self, other: Timestamp)
        requires
            old(self).value + other.value <= u64::MAX,
        ensures
            final(self).value == old(self).value + other.value,
    {
        self.value = self.value + other.value;
    }

    pub fn sub_assign(&mut self, other: Timestamp)
        requires
            other.value <= old(self).value,
        ensures
            final(self).value == old(self).value - other.value,
    {
        self.value = self.value - other.value;
    }

    pub fn rem(self, other: Timestamp) -> (r: Timestamp)
        requires
            other.value > 0,
        ensures
            r.value == self.value % other.value,
    {
        Timestamp { value: self.value % other.value }
    }

    pub fn rem_assign(&mut self, other: Timestamp)
        requires
            other.value > 0,
        ensures
            final(self).value == old(self).value % other.value,
    {
        self.value = self.value % other.value;
    }

    /// Scales by a whole factor.
    pub fn mul(self, factor: u64) -> (r: Timestamp)
        requires
            self.value * factor <= u64::MAX,
        ensures
            r.value == self.value * factor,
    {
        Timestamp { value: self.value * factor }
    }

    /// Divides by a whole divisor, rounding down.
    pub fn div(self, divisor: u64) -> (r: Timestamp)
        requires
            divisor > 0,
        ensures
            r.value == self.value / divisor,
    {
        Timestamp { value: self.value / divisor }
    }

    pub fn min(self, other: Timestamp) -> (r: Timestamp)
        ensures
            r.value == if self.value < other.value { self.value } else { other.value },
    {
        if self.value < other.value {
            self
        } else {
            other
        }
    }

    pub fn max(self, other: Timestamp) -> (r: Timestamp)
        ensures
            r.value == if self.value > other.value { self.value } else { other.value },
    {
        if self.value > other.value {
            self
        } else {
            other
        }
    }

    pub fn pow(self, exp: u32) -> (r: Timestamp)
        requires
            pow(self.value as int, exp as nat) <= u64::MAX,
        ensures
            r.value == pow(self.value as int, exp as nat),
    {
        let mut acc: u64 = 1;
        let mut i: u32 = 0;
        proof {
            reveal(pow);
        }
        while i < exp
            invariant
                i <= exp,
                acc == pow(self.value as int, i as nat),
                pow(self.value as int, exp as nat) <= u64::MAX,
            decreases exp - i,
        {
            proof {
                reveal(pow);
                if self.value > 0 {
                    lemma_pow_increases(self.value as nat, (i + 1) as nat, exp as nat);
                }
                assert(pow(self.value as int, (i + 1) as nat) == self.value * pow(self.value as int, i as nat));
                if self.value == 0 {
                    assert(pow(self.value as int, (i + 1) as nat) == 0);
                } else {
                    assert(pow(self.value as int, (i + 1) as nat) <= pow(self.value as int, exp as nat));
                }
                assert(acc * self.value == pow(self.value as int, (i + 1) as nat));
            }
            acc = acc * self.value;
            i = i + 1;
        }
        Timestamp { value: acc }
    }

    /// The integer square root of the value, rounded down.
    pub fn sqrt(self) -> (r: Timestamp)
        ensures
            is_floor_sqrt(self.value as int, r.value as int),
    {
        let v = self.value;
        // search `lo <= root < hi`
        let mut lo: u64 = 0;
        let mut hi: u64 = 0x1_0000_0000;
        while hi - lo > 1
            invariant
                lo < hi <= 0x1_0000_0000,
                lo * lo <= v,
                v < hi * hi,
            decreases hi - lo,
        {
            let mid: u64 = lo + (hi - lo) / 2;
            assert(mid * mid <= 0xffff_ffff * 0xffff_ffff) by (nonlinear_arith)
                requires mid < 0x1_0000_0000;
            if mid * mid <= v {
                lo = mid;
            } else {
                hi = mid;
            }
        }
        assert(hi == lo + 1);
        Timestamp { value: lo }
    }
}

impl From<u64> for Timestamp {
    fn from(value: u64) -> (r: Timestamp) {
        Timestamp { value }
    }
}

impl vstd::std_specs::convert::FromSpecImpl<u64> for Timestamp {
    open spec fn obeys_from_spec() -> bool {
        true
    }

    open spec fn from_spec(value: u64) -> Timestamp {
        Timestamp { value }
    }
}

} // verus!
