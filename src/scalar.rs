//! Binary64 values held as their IEEE 754 bit pattern.
//!
//! The library decides things by comparing numbers: whether a ray parameter
//! lies inside an interval, which root of a quadratic is nearer, whether a
//! reflected ray points into a surface. Those decisions only need the order
//! of binary64 values, and that order can be read off the bit pattern: for a
//! value that is not NaN, the magnitude bits grow with the magnitude, and the
//! sign bit says on which side of zero the value lies. `key` turns a pattern
//! into an integer with exactly that order (both zeros get key 0), and every
//! comparison below is `false` when either side is NaN, as IEEE 754 asks.
use vstd::prelude::*;

verus! {

/// The sign bit of a binary64 pattern.
pub const SIGN_BIT: u64 = 0x8000_0000_0000_0000;

/// The pattern of positive infinity; magnitudes above it are NaN.
pub const INFINITY_BITS: u64 = 0x7ff0_0000_0000_0000;

/// The pattern of 1.0.
pub const ONE_BITS: u64 = 0x3ff0_0000_0000_0000;

/// The pattern of the largest finite value, `f64::MAX`.
pub const MAX_BITS: u64 = 0x7fef_ffff_ffff_ffff;

/// The pattern of the most negative finite value, `f64::MIN`.
pub const MIN_BITS: u64 = 0xffef_ffff_ffff_ffff;

/// A binary64 value, stored as its bit pattern.
#[derive(Clone, Copy, Debug, PartialEq, Eq, Structural)]
pub struct Real {
    pub bits: u64,
}

impl Real {
    /// Positive zero.
    pub open spec fn spec_zero() -> Real {
        Real { bits: 0 }
    }

    /// The value 1.0.
    pub open spec fn spec_one() -> Real {
        Real { bits: ONE_BITS }
    }

    /// Whether the sign bit is set (also for -0.0 and negative NaNs).
    pub open spec fn sign_set(self) -> bool {
        self.bits >= SIGN_BIT
    }

    /// The pattern with the sign bit cleared.
    pub open spec fn magnitude(self) -> int {
        if self.sign_set() {
            self.bits - SIGN_BIT
        } else {
            self.bits as int
        }
    }

    pub open spec fn is_nan(self) -> bool {
        self.magnitude() > INFINITY_BITS
    }

    /// An integer that orders non-NaN values as their numeric values are ordered.
    pub open spec fn key(self) -> int {
        if self.sign_set() {
            -self.magnitude()
        } else {
            self.magnitude()
        }
    }

    /// `self < o` on binary64 values.
    pub open spec fn lt_spec(self, o: Real) -> bool {
        !self.is_nan() && !o.is_nan() && self.key() < o.key()
    }

    /// `self <= o` on binary64 values.
    pub open spec fn le_spec(self, o: Real) -> bool {
        !self.is_nan() && !o.is_nan() && self.key() <= o.key()
    }

    /// The pattern with the sign bit flipped: IEEE 754 negation.
    pub open spec fn neg_spec(self) -> Real {
        if self.sign_set() {
            Real { bits: (self.bits - SIGN_BIT) as u64 }
        } else {
            Real { bits: (self.bits + SIGN_BIT) as u64 }
        }
    }

    /// The pattern with the sign bit cleared: IEEE 754 absolute value.
    pub open spec fn abs_spec(self) -> Real {
        Real { bits: self.magnitude() as u64 }
    }

    pub fn from_bits(bits: u64) -> (r: Real)
        ensures
            r.bits == bits,
    {
        Real { bits }
    }

    pub fn to_bits(&self) -> (r: u64)
        ensures
            r == self.bits,
    {
        self.bits
    }

    /// Positive zero.
    pub fn zero() -> (r: Real)
        ensures
            r.bits == 0,
            r.key() == 0,
            !r.is_nan(),
    {
        Real { bits: 0 }
    }

    /// The value 1.0.
    pub fn one() -> (r: Real)
        ensures
            r.bits == ONE_BITS,
            r.key() == ONE_BITS,
            !r.is_nan(),
    {
        Real { bits: ONE_BITS }
    }

    pub fn is_nan_exec(&self) -> (r: bool)
        ensures
            r == self.is_nan(),
    {
        self.magnitude_exec() > INFINITY_BITS
    }

    fn magnitude_exec(&self) -> (r: u64)
        ensures
            r == self.magnitude(),
    {
        if self.bits >= SIGN_BIT {
            self.bits - SIGN_BIT
        } else {
            self.bits
        }
    }

    /// `self < o`.
    pub fn lt(&self, o: &Real) -> (r: bool)
        ensures
            r == self.lt_spec(*o),
    {
        if self.is_nan_exec() || o.is_nan_exec() {
            return false;
        }
        let a = self.magnitude_exec();
        let b = o.magnitude_exec();
        match (self.bits >= SIGN_BIT, o.bits >= SIGN_BIT) {
            (false, false) => a < b,
            (true, true) => b < a,
            (false, true) => false,
            (true, false) => a != 0 || b != 0,
        }
    }

    /// `self <= o`.
    pub fn le(&self, o: &Real) -> (r: bool)
        ensures
            r == self.le_spec(*o),
    {
        if self.is_nan_exec() || o.is_nan_exec() {
            return false;
        }
        let a = self.magnitude_exec();
        let b = o.magnitude_exec();
        match (self.bits >= SIGN_BIT, o.bits >= SIGN_BIT) {
            (false, false) => a <= b,
            (true, true) => b <= a,
            (false, true) => a == 0 && b == 0,
            (true, false) => true,
        }
    }

    /// `self > o`.
    pub fn gt(&self, o: &Real) -> (r: bool)
        ensures
            r == o.lt_spec(*self),
    {
        o.lt(self)
    }

    /// `-self`.
    pub fn neg(&self) -> (r: Real)
        ensures
            r == self.neg_spec(),
            r.is_nan() == self.is_nan(),
            r.key() == -self.key(),
    {
        if self.bits >= SIGN_BIT {
            Real { bits: self.bits - SIGN_BIT }
        } else {
            Real { bits: self.bits + SIGN_BIT }
        }
    }

    /// `|self|`.
    pub fn abs(&self) -> (r: Real)
        ensures
            r == self.abs_spec(),
            r.is_nan() == self.is_nan(),
            !r.is_nan() ==> r.key() == self.magnitude(),
            r.key() >= 0,
    {
        Real { bits: self.magnitude_exec() }
    }
}

} // verus!
