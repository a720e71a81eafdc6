//! Surface materials and the choices they make when a ray arrives.
use vstd::prelude::*;
use crate::hittable::HitRecord;
use crate::ray::Ray;
use crate::scalar::Real;
use crate::vec3::Vec3;

verus! {

/// Diffuse reflection with the given albedo.
#[derive(Clone, Copy, Debug, PartialEq, Eq, Structural)]
pub struct Lambertian {
    pub albedo: Vec3,
}

/// Mirror reflection, perturbed by `fuzz`, which lies in `[0, 1]`.
#[derive(Clone, Copy, Debug, PartialEq, Eq, Structural)]
pub struct Metal {
    pub albedo: Vec3,
    pub fuzz: Real,
}

/// A clear refracting medium.
#[derive(Clone, Copy, Debug, PartialEq, Eq, Structural)]
pub struct Dielectric {
    pub refraction_index: Real,
}

/// The material of a surface.
#[derive(Clone, Copy, Debug, PartialEq, Eq, Structural)]
pub enum Material {
    Lambertian(Lambertian),
    Metal(Metal),
    Dielectric(Dielectric),
}

/// The color (1, 1, 1).
pub open spec fn white() -> Vec3 {
    Vec3 { x: Real::spec_one(), y: Real::spec_one(), z: Real::spec_one() }
}

/// Whether `fuzz` is a valid roughness: a number in `[0, 1]`.
pub open spec fn fuzz_in_range(fuzz: Real) -> bool {
    Real::spec_zero().le_spec(fuzz) && fuzz.le_spec(Real::spec_one())
}

impl Metal {
    pub fn new(albedo: Vec3, fuzz: Real) -> (r: Metal)
        requires
            fuzz_in_range(fuzz),
        ensures
            r == (Metal { albedo, fuzz }),
    {
        Metal { albedo, fuzz }
    }

    /// Whether `fuzz` may be given to `new`.
    pub fn accepts_fuzz(fuzz: Real) -> (r: bool)
        ensures
            r == fuzz_in_range(fuzz),
    {
        Real::zero().le(&fuzz) && fuzz.le(&Real::one())
    }

    /// The scattered ray and its attenuation, given `fuzzed`, the mirror
    /// direction plus `fuzz` times a random unit vector, and `facing`, the
    /// dot product of `fuzzed` with the hit's normal. A ray that would leave
    /// into the surface is absorbed.
    pub fn scatter(&self, rec: &HitRecord, fuzzed: Vec3, facing: Real) -> (r: Option<(Ray, Vec3)>)
        ensures
            r.is_none() <==> !Real::spec_zero().lt_spec(facing),
            r.is_some() ==> r == Some((Ray::spec_new(rec.p, fuzzed), self.albedo)),
    {
        if facing.gt(&Real::zero()) {
            Some((Ray::new(rec.p, fuzzed), self.albedo))
        } else {
            None
        }
    }
}

impl Lambertian {
    pub fn new(albedo: Vec3) -> (r: Lambertian)
        ensures
            r.albedo == albedo,
    {
        Lambertian { albedo }
    }

    /// The scattered ray and its attenuation, given `bounce`, the hit's
    /// normal plus a random unit vector. A bounce that is nearly zero falls
    /// back to the normal itself. A diffuse surface always scatters.
    pub fn scatter(&self, rec: &HitRecord, bounce: Vec3) -> (r: Option<(Ray, Vec3)>)
        ensures
            r == Some((Ray::spec_new(rec.p, if bounce.near_zero_spec() { rec.normal } else { bounce }), self.albedo)),
    {
        let direction = if !bounce.near_zero() { bounce } else { rec.normal };
        Some((Ray::new(rec.p, direction), self.albedo))
    }
}

impl Dielectric {
    pub fn new(refraction_index: Real) -> (r: Dielectric)
        ensures
            r.refraction_index == refraction_index,
    {
        Dielectric { refraction_index }
    }

    /// Whether the ray reflects: under total internal reflection
    /// (`sin_theta * ri > 1`), or when the reflectance exceeds a uniform draw.
    pub open spec fn reflects(bend: Real, reflectance: Real, draw: Real) -> bool {
        Real::spec_one().lt_spec(bend) || draw.lt_spec(reflectance)
    }

    /// The scattered ray and its attenuation. `bend` is `sin_theta` times the
    /// relative index, `reflectance` the Schlick reflectance at the incidence
    /// angle, `draw` a uniform draw from `[0, 1)`; `reflected` and `refracted`
    /// are the two directions the ray may take. Nothing is absorbed.
    pub fn scatter(
        &self,
        rec: &HitRecord,
        reflected: Vec3,
        refracted: Vec3,
        bend: Real,
        reflectance: Real,
        draw: Real,
    ) -> (r: Option<(Ray, Vec3)>)
        ensures
            r == Some((Ray::spec_new(rec.p, if Self::reflects(bend, reflectance, draw) { reflected } else { refracted }), white())),
    {
        let one = Real::one();
        let direction = if bend.gt(&one) || reflectance.gt(&draw) { reflected } else { refracted };
        Some((Ray::new(rec.p, direction), Vec3::new(one, one, one)))
    }
}

} // verus!
