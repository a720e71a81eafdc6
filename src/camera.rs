//! The camera's decisions: where a ray starts, and when a path of bounces ends.
use vstd::prelude::*;
use crate::scalar::Real;
use crate::vec3::Vec3;

verus! {

/// The origin of a camera ray. With a defocus angle of zero or less the
/// camera is a pinhole and every ray starts at its center; otherwise the ray
/// starts at `disk_point`, a point drawn on the defocus disk.
pub open spec fn origin_of(defocus_angle: Real, center: Vec3, disk_point: Vec3) -> Vec3 {
    if defocus_angle.le_spec(Real::spec_zero()) {
        center
    } else {
        disk_point
    }
}

pub fn ray_origin(defocus_angle: Real, center: Vec3, disk_point: Vec3) -> (r: Vec3)
    ensures
        r == origin_of(defocus_angle, center, disk_point),
{
    if defocus_angle.le(&Real::zero()) {
        center
    } else {
        disk_point
    }
}

/// A pinhole camera starts every ray of a pixel at its center, whatever
/// points of the disk were drawn for them.
pub proof fn lemma_pinhole_origin_fixed(defocus_angle: Real, center: Vec3, p: Vec3, q: Vec3)
    requires
        defocus_angle.le_spec(Real::spec_zero()),
    ensures
        origin_of(defocus_angle, center, p) == center,
        origin_of(defocus_angle, center, p) == origin_of(defocus_angle, center, q),
{
}

/// What the scene did with the ray a path is following.
#[derive(Clone, Copy, Debug, PartialEq, Eq, Structural)]
pub enum Bounce {
    /// The ray hit nothing: the path sees the background.
    Missed,
    /// The ray hit a surface whose material absorbed it.
    Absorbed,
    /// The material sent a new ray on.
    Scattered,
}

/// How a path's radiance ends.
#[derive(Clone, Copy, Debug, PartialEq, Eq, Structural)]
pub enum PathEnd {
    /// No light: the bounce budget ran out or a surface absorbed the ray.
    Black,
    /// The background gradient, times the attenuations gathered on the way.
    Background,
}

/// A path of bounces with its remaining budget. The radiance of a ray is
/// the product of the attenuations of the `Scattered` bounces, times what
/// `end` says.
#[derive(Clone, Copy, Debug, PartialEq, Eq, Structural)]
pub struct Path {
    pub depth: u32,
    pub end: Option<PathEnd>,
}

impl Path {
    /// An open path has budget left; a path with no budget has ended black.
    pub open spec fn wf(self) -> bool {
        self.end.is_none() ==> self.depth > 0
    }

    /// A path about to trace a ray with `max_depth` bounces of budget. With
    /// no budget, the path is black before anything is traced.
    pub fn new(max_depth: u32) -> (r: Path)
        ensures
            r.wf(),
            r.depth == max_depth,
            r.end == (if max_depth == 0 { Some(PathEnd::Black) } else { None::<PathEnd> }),
    {
        if max_depth == 0 {
            Path { depth: 0, end: Some(PathEnd::Black) }
        } else {
            Path { depth: max_depth, end: None }
        }
    }

    /// Records what the scene did with the current ray of an open path.
    pub fn record(&mut self, bounce: Bounce)
        requires
            old(self).wf(),
            old(self).end.is_none(),
        ensures
            final(self).wf(),
            bounce == Bounce::Missed ==> *final(self) == (Path { depth: old(self).depth, end: Some(PathEnd::Background) }),
            bounce == Bounce::Absorbed ==> *final(self) == (Path { depth: old(self).depth, end: Some(PathEnd::Black) }),
            bounce == Bounce::Scattered ==> final(self).depth == old(self).depth - 1,
            bounce == Bounce::Scattered ==> final(self).end == (if old(self).depth == 1 { Some(PathEnd::Black) } else { None::<PathEnd> }),
    {
        match bounce {
            Bounce::Missed => {
                self.end = Some(PathEnd::Background);
            },
            Bounce::Absorbed => {
                self.end = Some(PathEnd::Black);
            },
            Bounce::Scattered => {
                self.depth = self.depth - 1;
                if self.depth == 0 {
                    self.end = Some(PathEnd::Black);
                }
            },
        }
    }
}

} // verus!
