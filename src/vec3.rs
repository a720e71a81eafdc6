//! Three binary64 components: points, directions and colors.
use vstd::prelude::*;
use crate::scalar::Real;

verus! {

/// The pattern of 1e-8, below which a component counts as zero.
pub const NEAR_ZERO_BITS: u64 = 0x3e45_798e_e230_8c3a;

#[derive(Clone, Copy, Debug, PartialEq, Eq, Structural)]
pub struct Vec3 {
    pub x: Real,
    pub y: Real,
    pub z: Real,
}

impl Vec3 {
    /// Every component is below 1e-8 in magnitude.
    pub open spec fn near_zero_spec(self) -> bool {
        let s = Real { bits: NEAR_ZERO_BITS };
        self.x.abs_spec().lt_spec(s) && self.y.abs_spec().lt_spec(s) && self.z.abs_spec().lt_spec(s)
    }

    pub open spec fn neg_spec(self) -> Vec3 {
        Vec3 { x: self.x.neg_spec(), y: self.y.neg_spec(), z: self.z.neg_spec() }
    }

    pub fn new(x: Real, y: Real, z: Real) -> (r: Vec3)
        ensures
            r == (Vec3 { x, y, z }),
    {
        Vec3 { x, y, z }
    }

    /// Whether the vector is near zero.
    pub fn near_zero(&self) -> (r: bool)
        ensures
            r == self.near_zero_spec(),
    {
        let s = Real::from_bits(NEAR_ZERO_BITS);
        self.x.abs().lt(&s) && self.y.abs().lt(&s) && self.z.abs().lt(&s)
    }

    /// The vector with every component negated.
    pub fn neg(&self) -> (r: Vec3)
        ensures
            r == self.neg_spec(),
    {
        Vec3 { x: self.x.neg(), y: self.y.neg(), z: self.z.neg() }
    }
}

} // verus!
