//! Hit records, spheres, and the choice of a sphere's nearer qualifying root.
use vstd::prelude::*;
use crate::material::Material;
use crate::scalar::Real;
use crate::utils::Interval;
use crate::vec3::Vec3;

verus! {

/// Where a ray met a surface. `normal` opposes the ray; `front_face` records
/// whether the surface's outward normal already did.
#[derive(Clone, Copy, Debug, PartialEq, Eq, Structural)]
pub struct HitRecord {
    pub p: Vec3,
    pub normal: Vec3,
    pub t: Real,
    pub front_face: bool,
    pub material: Material,
}

impl HitRecord {
    pub fn new(p: Vec3, normal: Vec3, t: Real, front_face: bool, material: Material) -> (r: HitRecord)
        ensures
            r == (HitRecord { p, normal, t, front_face, material }),
    {
        HitRecord { p, normal, t, front_face, material }
    }

    /// The dot product of the ray's direction with this record's normal, given
    /// `facing`, the dot product with the outward normal. Negating every
    /// component of a vector negates, exactly, each product in a dot product
    /// and so the rounded sum as well.
    pub open spec fn facing_after(self, facing: Real) -> Real {
        if self.front_face {
            facing
        } else {
            facing.neg_spec()
        }
    }

    /// Builds a record from the outward normal, turning the normal against
    /// the ray. `facing` is the dot product of the ray's direction with
    /// `outward_normal`.
    pub fn generate(p: Vec3, outward_normal: Vec3, t: Real, facing: Real, material: Material) -> (r: HitRecord)
        ensures
            r.p == p,
            r.t == t,
            r.material == material,
            r.front_face == facing.lt_spec(Real::spec_zero()),
            r.normal == (if r.front_face { outward_normal } else { outward_normal.neg_spec() }),
            !facing.is_nan() ==> r.facing_after(facing).le_spec(Real::spec_zero()),
    {
        let front_face = facing.lt(&Real::zero());
        let normal = if front_face { outward_normal } else { outward_normal.neg() };
        HitRecord { p, normal, t, front_face, material }
    }
}

/// The two roots of a ray/sphere quadratic, `(h - sqrt(d)) / a` and `(h + sqrt(d)) / a`.
#[derive(Clone, Copy, Debug, PartialEq, Eq, Structural)]
pub struct Roots {
    pub near: Real,
    pub far: Real,
}

impl Roots {
    /// `near <= far` where both are numbers. Rounding is monotone and `a`
    /// and `sqrt(d)` are not negative, so roots computed as above are ordered.
    pub open spec fn ordered(self) -> bool {
        !self.near.is_nan() && !self.far.is_nan() ==> self.near.key() <= self.far.key()
    }

    /// The first root, nearer one first, that lies strictly inside `ray_t`.
    pub open spec fn first_in(self, ray_t: Interval) -> Option<Real> {
        if ray_t.surrounds_spec(self.near) {
            Some(self.near)
        } else if ray_t.surrounds_spec(self.far) {
            Some(self.far)
        } else {
            None
        }
    }

    pub fn new(near: Real, far: Real) -> (r: Roots)
        ensures
            r == (Roots { near, far }),
    {
        Roots { near, far }
    }

    /// The ray parameter of the hit that these roots give inside `ray_t`.
    pub fn select(&self, ray_t: &Interval) -> (r: Option<Real>)
        ensures
            r == self.first_in(*ray_t),
    {
        if ray_t.surrounds(self.near) {
            Some(self.near)
        } else if ray_t.surrounds(self.far) {
            Some(self.far)
        } else {
            None
        }
    }
}

/// A sphere and the material of its surface.
#[derive(Clone, Copy, Debug, PartialEq, Eq, Structural)]
pub struct Sphere {
    pub center: Vec3,
    pub radius: Real,
    pub material: Material,
}

impl Sphere {
    pub fn new(center: Vec3, radius: Real, material: Material) -> (r: Sphere)
        ensures
            r == (Sphere { center, radius, material }),
    {
        Sphere { center, radius, material }
    }
}

/// A hit reported by a sphere lies strictly inside the queried range.
pub proof fn lemma_hit_inside_range(roots: Roots, ray_t: Interval)
    ensures
        roots.first_in(ray_t).is_some() ==> ray_t.surrounds_spec(roots.first_in(ray_t).unwrap()),
{
}

/// Narrowing the upper end of the search range to `m` keeps exactly the hit
/// that lies below `m`, when the roots are ordered.
pub proof fn lemma_first_in_narrowed(roots: Roots, ray_t: Interval, m: Real)
    requires
        roots.ordered(),
        m == ray_t.max || m.lt_spec(ray_t.max),
    ensures
        roots.first_in(Interval { min: ray_t.min, max: m }) == (match roots.first_in(ray_t) {
            Some(u) => if u.lt_spec(m) { Some(u) } else { None },
            None => None,
        }),
{
}

} // verus!
