//! A list of spheres and the nearest-hit query over it.
use vstd::prelude::*;
use crate::hittable::{lemma_first_in_narrowed, Roots, Sphere};
use crate::scalar::Real;
use crate::utils::Interval;

verus! {

/// What primitive `k` reports inside `ray_t`, given its roots (`None`: the ray misses it).
pub open spec fn hit_of(roots: Seq<Option<Roots>>, k: int, ray_t: Interval) -> Option<Real> {
    match roots[k] {
        Some(p) => p.first_in(ray_t),
        None => None,
    }
}

/// Every primitive's roots are ordered.
pub open spec fn all_ordered(roots: Seq<Option<Roots>>) -> bool {
    forall|k: int| 0 <= k < roots.len() && (#[trigger] roots[k]).is_some() ==> roots[k].unwrap().ordered()
}

/// `t`, reported by primitive `k`, is no farther than what primitive `j`
/// reports, and strictly nearer when `j` comes first.
pub open spec fn no_farther(roots: Seq<Option<Roots>>, ray_t: Interval, k: int, t: Real, j: int) -> bool {
    match hit_of(roots, j, ray_t) {
        Some(u) => t.key() <= u.key() && (j < k ==> t.key() < u.key()),
        None => true,
    }
}

/// The answer of the nearest-hit query: `None` when no primitive reports a
/// hit, else the first primitive whose hit is nearest, with its parameter.
pub open spec fn is_nearest(roots: Seq<Option<Roots>>, ray_t: Interval, r: Option<(usize, Real)>) -> bool {
    match r {
        None => forall|j: int| 0 <= j < roots.len() ==> (#[trigger] hit_of(roots, j, ray_t)).is_none(),
        Some((k, t)) => {
            &&& k < roots.len()
            &&& hit_of(roots, k as int, ray_t) == Some(t)
            &&& forall|j: int| 0 <= j < roots.len() ==> #[trigger] no_farther(roots, ray_t, k as int, t, j)
        },
    }
}

pub struct Scene {
    pub objects: Vec<Sphere>,
}

impl Scene {
    pub fn new() -> (r: Scene)
        ensures
            r.objects@.len() == 0,
    {
        Scene { objects: Vec::new() }
    }

    pub fn push(&mut self, obj: Sphere)
        ensures
            final(self).objects@ == old(self).objects@.push(obj),
    {
        self.objects.push(obj);
    }

    pub fn len(&self) -> (r: usize)
        ensures
            r == self.objects@.len(),
    {
        self.objects.len()
    }

    /// The nearest hit among primitives whose roots are `roots`, one entry per
    /// primitive in scene order. The search range shrinks to the nearest hit
    /// found so far, so a later primitive reports only a nearer hit.
    pub fn nearest_hit(roots: &Vec<Option<Roots>>, ray_t: &Interval) -> (r: Option<(usize, Real)>)
        requires
            all_ordered(roots@),
        ensures
            is_nearest(roots@, *ray_t, r),
    {
        let mut best: Option<(usize, Real)> = None;
        let mut nearest: Real = ray_t.max;
        let n = roots.len();
        let mut i: usize = 0;
        while i < n
            invariant
                n == roots@.len(),
                i <= n,
                all_ordered(roots@),
                best.is_none() ==> nearest == ray_t.max,
                best.is_none() ==> forall|j: int| 0 <= j < i ==> (#[trigger] hit_of(roots@, j, *ray_t)).is_none(),
                best.is_some() ==> {
                    let (k, t) = best.unwrap();
                    &&& nearest == t
                    &&& k < i
                    &&& t.lt_spec(ray_t.max)
                    &&& hit_of(roots@, k as int, *ray_t) == Some(t)
                    &&& forall|j: int| 0 <= j < i ==> #[trigger] no_farther(roots@, *ray_t, k as int, t, j)
                },
            decreases n - i,
        {
            let narrowed = Interval::new(ray_t.min, nearest);
            let found = match &roots[i] {
                Some(p) => p.select(&narrowed),
                None => None,
            };
            proof {
                if roots@[i as int].is_some() {
                    lemma_first_in_narrowed(roots@[i as int].unwrap(), *ray_t, nearest);
                }
                let h = hit_of(roots@, i as int, *ray_t);
                if let Some(u) = found {
                    assert(h == Some(u));
                    assert forall|j: int| 0 <= j < i + 1 implies #[trigger] no_farther(roots@, *ray_t, i as int, u, j) by {
                        if j < i && best.is_some() {
                            assert(no_farther(roots@, *ray_t, best.unwrap().0 as int, best.unwrap().1, j));
                        }
                    }
                } else if let Some((k, t)) = best {
                    assert forall|j: int| 0 <= j < i + 1 implies #[trigger] no_farther(roots@, *ray_t, k as int, t, j) by {
                        if j == i {
                            assert(h.is_none() || !h.unwrap().lt_spec(t));
                        }
                    }
                } else {
                    assert(h.is_none());
                    assert forall|j: int| 0 <= j < i + 1 implies (#[trigger] hit_of(roots@, j, *ray_t)).is_none() by {
                        if j == i {
                            assert(h.is_none());
                        }
                    }
                }
            }
            if let Some(t) = found {
                nearest = t;
                best = Some((i, t));
            }
            i += 1;
        }
        best
    }
}

/// The nearest-hit query never answers farther than any single primitive's
/// own nearest hit in the queried range, and answers with the least ray
/// parameter among all primitives that report one.
pub proof fn lemma_scene_nearest_is_minimum(roots: Seq<Option<Roots>>, ray_t: Interval, r: Option<(usize, Real)>, j: int)
    requires
        is_nearest(roots, ray_t, r),
        0 <= j < roots.len(),
    ensures
        hit_of(roots, j, ray_t).is_some() ==> r.is_some(),
        hit_of(roots, j, ray_t).is_some() ==> r.unwrap().1.key() <= hit_of(roots, j, ray_t).unwrap().key(),
        r.is_some() ==> hit_of(roots, r.unwrap().0 as int, ray_t) == Some(r.unwrap().1),
        r.is_some() ==> ray_t.surrounds_spec(r.unwrap().1),
{
    if let Some((k, t)) = r {
        assert(no_farther(roots, ray_t, k as int, t, j));
    } else {
        assert(hit_of(roots, j, ray_t).is_none());
    }
}

} // verus!
