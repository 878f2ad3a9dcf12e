//! The scene aggregate: an ordered collection of spheres.
//!
//! `hit` scans every sphere, shrinking the upper bound of the parameter
//! range to the nearest hit found so far, and returns the closest qualifying
//! hit. The whole scan is pinned by a spec mirror, and the nearest-hit
//! property is proved of it.

use vstd::prelude::*;
use crate::rat::{Q, ArithError, q_le_v, q_lt_v};
use crate::ray::{Ray, ray_wf};
use crate::hittable::{HitRecord, rec_wf};
use crate::sphere::{Sphere, sphere_wf, sphere_hit_m, t_in_range};

verus! {

/// The scene: every sphere in it, in insertion order.
#[derive(Debug)]
pub struct HittableList {
    pub objects: Vec<Sphere>,
}

/// Well-formedness of every sphere of the scene.
pub open spec fn list_wf(l: HittableList) -> bool {
    forall|i: int| 0 <= i < l.objects@.len() ==> sphere_wf(#[trigger] l.objects@[i])
}

/// The scan from index `i` on, carrying the nearest hit so far and the
/// shrunken upper bound: exactly what the executable loop computes.
pub open spec fn list_hit_loop(
    objs: Seq<Sphere>,
    i: int,
    r: Ray,
    t_min: Q,
    closest: Q,
    best: Option<HitRecord>,
) -> Option<Option<HitRecord>>
    decreases objs.len() - i,
{
    if i < 0 || i >= objs.len() {
        Some(best)
    } else {
        match sphere_hit_m(objs[i], r, t_min, closest) {
            None => None,
            Some(None) => list_hit_loop(objs, i + 1, r, t_min, closest, best),
            Some(Some(rec)) => list_hit_loop(objs, i + 1, r, t_min, rec.t, Some(rec)),
        }
    }
}

/// The exact scene intersection: the scan over all spheres with the upper
/// bound starting at `t_max` and no hit yet.
pub open spec fn list_hit_m(objs: Seq<Sphere>, r: Ray, t_min: Q, t_max: Q) -> Option<
    Option<HitRecord>,
> {
    list_hit_loop(objs, 0, r, t_min, t_max, None)
}

impl HittableList {
    /// An empty scene.
    pub fn new() -> (l: HittableList)
        ensures
            l.objects@.len() == 0,
            list_wf(l),
    {
        HittableList { objects: Vec::new() }
    }

    /// Removes every sphere.
    pub fn clear(&mut self)
        ensures
            final(self).objects@.len() == 0,
    {
        self.objects.clear()
    }

    /// Appends a sphere to the scene.
    pub fn add(&mut self, object: Sphere)
        ensures
            final(self).objects@ == old(self).objects@.push(object),
    {
        self.objects.push(object);
    }

    /// Intersects the ray with every sphere and returns the nearest
    /// qualifying hit, or `None` when every sphere misses, or an arithmetic
    /// error when a value leaves the representable range. The answer is
    /// exactly what the spec mirror gives.
    pub fn hit(&self, r: &Ray, t_min: Q, t_max: Q) -> (res: Result<
        Option<HitRecord>,
        ArithError,
    >)
        requires
            list_wf(*self),
            ray_wf(*r),
            t_min.wf(),
            t_max.wf(),
        ensures
            res is Ok <==> list_hit_m(self.objects@, *r, t_min, t_max) is Some,
            res is Ok ==> res->Ok_0 == list_hit_m(self.objects@, *r, t_min, t_max)->Some_0,
            res matches Ok(Some(rec)) ==> rec_wf(rec) && t_in_range(rec.t, t_min, t_max),
    {
        let ghost full = list_hit_m(self.objects@, *r, t_min, t_max);
        let mut best: Option<HitRecord> = None;
        let mut closest = t_max;
        let mut idx: usize = 0;
        while idx < self.objects.len()
            invariant
                list_wf(*self),
                ray_wf(*r),
                t_min.wf(),
                t_max.wf(),
                closest.wf(),
                idx <= self.objects@.len(),
                best is Some ==> rec_wf(best->Some_0) && t_in_range(
                    best->Some_0.t,
                    t_min,
                    t_max,
                ) && best->Some_0.t == closest,
                best is None ==> closest == t_max,
                list_hit_loop(self.objects@, idx as int, *r, t_min, closest, best) == full,
                full == list_hit_m(self.objects@, *r, t_min, t_max),
            decreases self.objects@.len() - idx,
        {
            let s = self.objects[idx];
            match s.hit(r, t_min, closest) {
                Err(e) => {
                    return Err(e);
                },
                Ok(Some(rec)) => {
                    proof {
                        lemma_range_widens(rec.t, t_min, closest, t_max);
                    }
                    closest = rec.t;
                    best = Some(rec);
                },
                Ok(None) => {},
            }
            idx = idx + 1;
        }
        Ok(best)
    }
}

/// The scene scan over two overlapping spheres answers with the record of
/// the nearer sphere, never the farther one: whenever both spheres report a
/// hit over the full range, the aggregate's answer is one of the two records
/// and its parameter is at or below both reported parameters.
pub proof fn lemma_two_spheres_nearest(sa: Sphere, sb: Sphere, r: Ray, t_min: Q, t_max: Q)
    requires
        sphere_wf(sa),
        sphere_wf(sb),
        ray_wf(r),
        t_min.wf(),
        t_max.wf(),
        sphere_hit_m(sa, r, t_min, t_max) is Some,
        sphere_hit_m(sa, r, t_min, t_max)->Some_0 is Some,
        sphere_hit_m(sb, r, t_min, t_max) is Some,
        sphere_hit_m(sb, r, t_min, t_max)->Some_0 is Some,
        list_hit_m(seq![sa, sb], r, t_min, t_max) is Some,
    ensures
        list_hit_m(seq![sa, sb], r, t_min, t_max)->Some_0 is Some,
        ({
            let rec = list_hit_m(seq![sa, sb], r, t_min, t_max)->Some_0->Some_0;
            let ra = sphere_hit_m(sa, r, t_min, t_max)->Some_0->Some_0;
            let rb = sphere_hit_m(sb, r, t_min, t_max)->Some_0->Some_0;
            &&& rec == ra || rec == rb
            &&& q_le_v(rec.t, ra.t)
            &&& q_le_v(rec.t, rb.t)
        }),
{
    let objs = seq![sa, sb];
    assert(objs.len() == 2 && objs[0] == sa && objs[1] == sb);
    let ra = sphere_hit_m(sa, r, t_min, t_max)->Some_0->Some_0;
    let rb = sphere_hit_m(sb, r, t_min, t_max)->Some_0->Some_0;
    crate::sphere::lemma_sphere_hit_in_range(sa, r, t_min, t_max);
    crate::sphere::lemma_sphere_hit_in_range(sb, r, t_min, t_max);
    assert(ra.t.wf() && rb.t.wf()) by {
        crate::sphere::lemma_sphere_hit_wf(sa, r, t_min, t_max);
        crate::sphere::lemma_sphere_hit_wf(sb, r, t_min, t_max);
    }
    assert(q_le_v(ra.t, t_max));
    crate::sphere::lemma_sphere_hit_narrow(sb, r, t_min, ra.t, t_max);
    reveal_with_fuel(list_hit_loop, 4);
    assert(list_hit_m(objs, r, t_min, t_max) == list_hit_loop(
        objs,
        1,
        r,
        t_min,
        ra.t,
        Some(ra),
    ));
    if t_in_range(rb.t, t_min, ra.t) {
        assert(list_hit_m(objs, r, t_min, t_max) == Some(Some(rb)));
    } else {
        assert(sphere_hit_m(sb, r, t_min, ra.t) == Some(Option::<HitRecord>::None));
        assert(list_hit_m(objs, r, t_min, t_max) == Some(Some(ra)));
        assert(q_lt_v(ra.t, rb.t));
    }
}

/// A parameter in range of a shrunken upper bound is in range of the
/// original one.
proof fn lemma_range_widens(t: Q, t_min: Q, closest: Q, t_max: Q)
    requires
        t.wf(),
        t_min.wf(),
        closest.wf(),
        t_max.wf(),
        t_in_range(t, t_min, closest),
        closest == t_max || q_le_v(closest, t_max),
    ensures
        t_in_range(t, t_min, t_max),
{
    if closest != t_max {
        assert(!crate::rat::q_lt_v(t_max, t)) by (nonlinear_arith)
            requires
                t.den > 0,
                closest.den > 0,
                t_max.den > 0,
                t.num * closest.den <= closest.num * t.den,
                closest.num * t_max.den <= t_max.num * closest.den,
        ;
    }
}

} // verus!
