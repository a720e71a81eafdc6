//! Ranges of binary64 values.
use vstd::prelude::*;
use crate::scalar::{Real, MAX_BITS, MIN_BITS};

verus! {

/// The pattern of 0.001, the bias that keeps a bounced ray off its own surface.
pub const NEAR_BIAS_BITS: u64 = 0x3f50_624d_d2f1_a9fc;

/// A range `[min, max]` of binary64 values; `min > max` stands for the empty range.
#[derive(Clone, Copy, Debug, PartialEq, Eq, Structural)]
pub struct Interval {
    pub min: Real,
    pub max: Real,
}

impl Interval {
    pub open spec fn contains_spec(self, x: Real) -> bool {
        self.min.le_spec(x) && x.le_spec(self.max)
    }

    pub open spec fn surrounds_spec(self, x: Real) -> bool {
        self.min.lt_spec(x) && x.lt_spec(self.max)
    }

    pub open spec fn clamp_spec(self, x: Real) -> Real {
        if x.lt_spec(self.min) {
            self.min
        } else if self.max.lt_spec(x) {
            self.max
        } else {
            x
        }
    }

    pub fn new(min: Real, max: Real) -> (r: Interval)
        ensures
            r.min == min,
            r.max == max,
    {
        Interval { min, max }
    }

    /// The empty range: from `f64::MAX` down to `f64::MIN`.
    pub fn empty() -> (r: Interval)
        ensures
            r.min.bits == MAX_BITS,
            r.max.bits == MIN_BITS,
            forall|x: Real| !r.contains_spec(x),
    {
        Interval { min: Real { bits: MAX_BITS }, max: Real { bits: MIN_BITS } }
    }

    /// Every finite value: from `f64::MIN` to `f64::MAX`.
    pub fn universe() -> (r: Interval)
        ensures
            r.min.bits == MIN_BITS,
            r.max.bits == MAX_BITS,
    {
        Interval { min: Real { bits: MIN_BITS }, max: Real { bits: MAX_BITS } }
    }

    /// From 0.0 to `f64::MAX`.
    pub fn non_neg() -> (r: Interval)
        ensures
            r.min.bits == 0,
            r.max.bits == MAX_BITS,
    {
        Interval { min: Real { bits: 0 }, max: Real { bits: MAX_BITS } }
    }

    /// From 0.001 to `f64::MAX`: the range searched for a bounced ray's next hit.
    pub fn near_non_neg() -> (r: Interval)
        ensures
            r.min.bits == NEAR_BIAS_BITS,
            r.max.bits == MAX_BITS,
    {
        Interval { min: Real { bits: NEAR_BIAS_BITS }, max: Real { bits: MAX_BITS } }
    }

    /// `min <= x <= max`.
    pub fn contains(&self, x: Real) -> (r: bool)
        ensures
            r == self.contains_spec(x),
    {
        self.min.le(&x) && x.le(&self.max)
    }

    /// `min < x < max`.
    pub fn surrounds(&self, x: Real) -> (r: bool)
        ensures
            r == self.surrounds_spec(x),
    {
        self.min.lt(&x) && x.lt(&self.max)
    }

    /// `x` moved into the range; NaN is handed back unchanged.
    pub fn clamp(&self, x: Real) -> (r: Real)
        ensures
            r == self.clamp_spec(x),
    {
        if x.lt(&self.min) {
            return self.min;
        }
        if x.gt(&self.max) {
            return self.max;
        }
        x
    }
}

} // verus!
