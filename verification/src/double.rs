//! Double-precision values, carried and compared by their bit patterns.

use vstd::prelude::*;

verus! {

/// The bit pattern of an IEEE 754 double.
#[derive(Debug, Clone, Copy, PartialEq, Eq, Structural)]
pub struct DoubleBits {
    pub bits: u64,
}

/// The pattern of the sign alone.
pub const SIGN_BIT: u64 = 0x8000_0000_0000_0000;

/// The pattern of positive infinity.
pub const INFINITY_BITS: u64 = 0x7ff0_0000_0000_0000;

impl DoubleBits {
    /// The pattern without its sign.
    pub open spec fn magnitude(self) -> int {
        if self.bits >= SIGN_BIT {
            self.bits - SIGN_BIT
        } else {
            self.bits as int
        }
    }

    /// Not a number.
    pub open spec fn nan(self) -> bool {
        self.magnitude() > INFINITY_BITS
    }

    /// An integer that grows with the value: patterns of one sign are ordered as their values are,
    /// and both zeros are zero.
    pub open spec fn rank(self) -> int {
        if self.bits >= SIGN_BIT {
            -self.magnitude()
        } else {
            self.magnitude()
        }
    }

    /// The value of `self` is larger.  What is not a number is neither larger nor smaller.
    pub open spec fn greater(self, other: DoubleBits) -> bool {
        !self.nan() && !other.nan() && self.rank() > other.rank()
    }

    /// A number above zero, and not infinite.
    pub open spec fn proper(self) -> bool {
        0 < self.bits < INFINITY_BITS
    }

    /// Whether the value of `self` is larger.
    pub fn exceeds(self, other: DoubleBits) -> (r: bool)
        ensures
            r == self.greater(other),
    {
        let mine: u64 = if self.bits >= SIGN_BIT {
            self.bits - SIGN_BIT
        } else {
            self.bits
        };
        let theirs: u64 = if other.bits >= SIGN_BIT {
            other.bits - SIGN_BIT
        } else {
            other.bits
        };
        if mine > INFINITY_BITS || theirs > INFINITY_BITS {
            false
        } else if self.bits >= SIGN_BIT {
            other.bits >= SIGN_BIT && mine < theirs
        } else {
            if other.bits >= SIGN_BIT {
                mine > 0 || theirs > 0
            } else {
                mine > theirs
            }
        }
    }

    /// The value of `self` is the same or smaller.
    pub open spec fn no_greater(self, other: DoubleBits) -> bool {
        !self.nan() && !other.nan() && self.rank() <= other.rank()
    }

    /// Whether the value of `self` is the same or smaller.
    pub fn at_most(self, other: DoubleBits) -> (r: bool)
        ensures
            r == self.no_greater(other),
    {
        let mine: u64 = if self.bits >= SIGN_BIT {
            self.bits - SIGN_BIT
        } else {
            self.bits
        };
        let theirs: u64 = if other.bits >= SIGN_BIT {
            other.bits - SIGN_BIT
        } else {
            other.bits
        };
        mine <= INFINITY_BITS && theirs <= INFINITY_BITS && !self.exceeds(other)
    }

    /// Whether the value is a number above zero, and not infinite.
    pub fn is_proper(self) -> (r: bool)
        ensures
            r == self.proper(),
    {
        0 < self.bits && self.bits < INFINITY_BITS
    }
}

/// Being larger is a strict order: nothing is larger than itself, and what is larger than a
/// larger value is larger.
pub proof fn greater_is_a_strict_order(a: DoubleBits, b: DoubleBits, c: DoubleBits)
    ensures
        !a.greater(a),
        a.greater(b) ==> !b.greater(a),
        a.greater(b) && b.greater(c) ==> a.greater(c),
{
}

/// What is larger: of two numbers above zero the one with the larger pattern, of two below zero the
/// one with the smaller pattern, and any number above zero than one below.  Both zeros are equal,
/// and what is no number is neither larger nor smaller than anything.
pub proof fn larger_by_sign_and_pattern(a: DoubleBits, b: DoubleBits)
    ensures
        ({
            let inf: int = 0x7ff0_0000_0000_0000;
            let sign: int = 0x8000_0000_0000_0000;
            let (x, y) = (a.bits as int, b.bits as int);
            &&& x <= inf && y <= inf ==> (a.greater(b) <==> x > y)
            &&& sign <= x <= sign + inf && sign <= y <= sign + inf ==> (a.greater(b) <==> x < y)
            &&& x <= inf && sign <= y <= sign + inf ==> (a.greater(b) <==> x != 0 || y != sign)
            &&& sign <= x <= sign + inf && y <= inf ==> !a.greater(b)
            &&& inf < x < sign || x > sign + inf ==> !a.greater(b) && !b.greater(a)
                && !a.no_greater(b) && !b.no_greater(a)
            &&& (x <= inf || sign <= x <= sign + inf) && (y <= inf || sign <= y <= sign + inf)
                ==> (a.no_greater(b) <==> !a.greater(b))
            &&& a.proper() <==> 0 < x < inf
        }),
{
}

} // verus!
