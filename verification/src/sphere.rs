//! Sphere intersection.
//!
//! The quadratic in the half-b form: for a ray `A + t b` and a sphere with
//! center `C` and radius `r`, solve `(b.b) t^2 + 2 b.(A-C) t + (A-C).(A-C) -
//! r^2 = 0` with `a = b.b`, `half_b = b.(A-C)`, `c = (A-C).(A-C) - r^2` and
//! `discriminant = half_b^2 - a c`. A negative discriminant is a miss;
//! otherwise the smaller root is tried first and the larger only when the
//! smaller falls outside `[t_min, t_max]`, so the nearest valid intersection
//! wins. The square root is the grid square root, and the whole computation
//! is pinned by a spec mirror.

use vstd::prelude::*;
use crate::rat::{Q, ArithError, q_add, q_add_m, q_sub, q_sub_m, q_mul, q_mul_m, q_div, q_div_m,
    q_neg, q_neg_m, q_lt, q_lt_v, q_le_v};
use crate::sqrt::{q_sqrt, q_sqrt_m};
use crate::vec3::{Vec3, v_wf, v_sub_m, v_div_m, v_dot_m, v_len2_m, v_neg_m};
use crate::ray::{Ray, ray_wf, ray_at_m};
use crate::hittable::{HitRecord, rec_wf};
use crate::material::{Material, mat_wf};

verus! {

/// A scene primitive: a sphere with its material.
#[derive(Clone, Copy, Debug, PartialEq, Eq, Structural)]
pub struct Sphere {
    pub center: Vec3,
    pub radius: Q,
    pub material: Material,
}

/// Well-formedness of a sphere's fields.
pub open spec fn sphere_wf(s: Sphere) -> bool {
    v_wf(s.center) && s.radius.wf() && mat_wf(s.material)
}

/// Whether the parameter `t` lies in the closed range `[t_min, t_max]`.
pub open spec fn t_in_range(t: Q, t_min: Q, t_max: Q) -> bool {
    !q_lt_v(t, t_min) && !q_lt_v(t_max, t)
}

/// The chosen root of the quadratic: the smaller root `(-half_b - sq) / a`
/// when it lies in range, else the larger `(-half_b + sq) / a` when that one
/// does, else no root. The outer `None` reports a value out of the
/// representable range.
pub open spec fn sphere_root_m(a: Q, half_b: Q, sq: Q, t_min: Q, t_max: Q) -> Option<Option<Q>> {
    let nhb = q_neg_m(half_b);
    match q_sub_m(nhb, sq) {
        Some(n0) => match q_div_m(n0, a) {
            Some(t0) => {
                if t_in_range(t0, t_min, t_max) {
                    Some(Some(t0))
                } else {
                    match q_add_m(nhb, sq) {
                        Some(n1) => match q_div_m(n1, a) {
                            Some(t1) => if t_in_range(t1, t_min, t_max) {
                                Some(Some(t1))
                            } else {
                                Some(None)
                            },
                            None => None,
                        },
                        None => None,
                    }
                }
            },
            None => None,
        },
        None => None,
    }
}

/// The exact sphere intersection. `Some(Some(rec))` is a hit, `Some(None)` a
/// miss, `None` a value out of the representable range. On a hit the record
/// holds the point of the ray at the chosen root, the outward normal
/// `(point - center) / radius` oriented against the ray, and the sphere's
/// material.
pub open spec fn sphere_hit_m(s: Sphere, r: Ray, t_min: Q, t_max: Q) -> Option<Option<HitRecord>> {
    match v_sub_m(r.origin, s.center) {
        Some(oc) => match v_len2_m(r.direction) {
            Some(a) => match v_dot_m(r.direction, oc) {
                Some(half_b) => match q_mul_m(s.radius, s.radius) {
                    Some(r2) => match v_len2_m(oc) {
                        Some(oc2) => match q_sub_m(oc2, r2) {
                            Some(c) => match q_mul_m(half_b, half_b) {
                                Some(hb2) => match q_mul_m(a, c) {
                                    Some(ac) => match q_sub_m(hb2, ac) {
                                        Some(disc) => {
                                            if q_lt_v(disc, Q { num: 0, den: 1 }) {
                                                Some(None)
                                            } else {
                                                let sq = q_sqrt_m(disc);
                                                match sphere_root_m(a, half_b, sq, t_min, t_max) {
                                                    Some(Some(root)) => sphere_hit_rec_m(
                                                        s,
                                                        r,
                                                        root,
                                                    ),
                                                    Some(None) => Some(None),
                                                    None => None,
                                                }
                                            }
                                        },
                                        None => None,
                                    },
                                    None => None,
                                },
                                None => None,
                            },
                            None => None,
                        },
                        None => None,
                    },
                    None => None,
                },
                None => None,
            },
            None => None,
        },
        None => None,
    }
}

/// The hit record for a sphere hit at the chosen root: point on the ray,
/// outward normal `(point - center) / radius` oriented against the ray.
pub open spec fn sphere_hit_rec_m(s: Sphere, r: Ray, root: Q) -> Option<Option<HitRecord>> {
    match ray_at_m(r, root) {
        Some(point) => match v_sub_m(point, s.center) {
            Some(po) => match v_div_m(po, s.radius) {
                Some(outward) => match v_dot_m(r.direction, outward) {
                    Some(d) => {
                        let front = q_lt_v(d, Q { num: 0, den: 1 });
                        let normal = if front {
                            outward
                        } else {
                            v_neg_m(outward)
                        };
                        Some(
                            Some(
                                HitRecord {
                                    point,
                                    normal,
                                    t: root,
                                    front_face: front,
                                    material: s.material,
                                },
                            ),
                        )
                    },
                    None => None,
                },
                None => None,
            },
            None => None,
        },
        None => None,
    }
}

/// The vector `po` from the sphere's center to a point lies exactly on the
/// sphere: its squared length equals the squared radius, stated by cross
/// multiplication.
pub open spec fn on_sphere_sq(po: Vec3, radius: Q) -> bool {
    ((po.x.num * po.x.num) * ((po.y.den * po.y.den) * (po.z.den * po.z.den)) + (po.y.num
        * po.y.num) * ((po.x.den * po.x.den) * (po.z.den * po.z.den)) + (po.z.num * po.z.num) * ((
    po.x.den * po.x.den) * (po.y.den * po.y.den))) * (radius.den * radius.den) == (radius.num
        * radius.num) * ((po.x.den * po.x.den) * ((po.y.den * po.y.den) * (po.z.den * po.z.den)))
}

/// A vector of unit squared length arises from dividing a vector by a
/// positive length it has: the atomic algebra behind the normal law, over
/// the squared numerators `x`, squared denominators `o`, squared source
/// numerators `a`, squared source denominators `d`, squared radius `rr/ss`.
proof fn lemma_unit_from_sphere_atoms(
    xx: int,
    xy: int,
    xz: int,
    ox: int,
    oy: int,
    oz: int,
    ax: int,
    ay: int,
    az: int,
    dx: int,
    dy: int,
    dz: int,
    rr: int,
    ss: int,
)
    requires
        dx > 0,
        dy > 0,
        dz > 0,
        rr > 0,
        ox > 0,
        oy > 0,
        oz > 0,
        xx * (dx * rr) == ax * (ss * ox),
        xy * (dy * rr) == ay * (ss * oy),
        xz * (dz * rr) == az * (ss * oz),
        (ax * (dy * dz) + ay * (dx * dz) + az * (dx * dy)) * ss == rr * (dx * (dy * dz)),
    ensures
        xx * (oy * oz) + xy * (ox * oz) + xz * (ox * oy) == ox * (oy * oz),
{
    let c = (dx * (dy * dz)) * rr;
    let k = (oy * oz) * (dy * dz);
    assert((xx * (dx * rr)) * k == (ax * (ss * ox)) * k);
    assert((xx * (dx * rr)) * ((oy * oz) * (dy * dz)) == (xx * (oy * oz)) * ((dx * (dy * dz))
        * rr)) by (nonlinear_arith);
    assert((ax * (ss * ox)) * ((oy * oz) * (dy * dz)) == ((ax * (dy * dz)) * ss) * (ox * (oy
        * oz))) by (nonlinear_arith);
    assert((xx * (oy * oz)) * c == ((ax * (dy * dz)) * ss) * (ox * (oy * oz)));
    let ky = (ox * oz) * (dx * dz);
    assert((xy * (dy * rr)) * ky == (ay * (ss * oy)) * ky);
    assert((xy * (dy * rr)) * ((ox * oz) * (dx * dz)) == (xy * (ox * oz)) * ((dx * (dy * dz))
        * rr)) by (nonlinear_arith);
    assert((ay * (ss * oy)) * ((ox * oz) * (dx * dz)) == ((ay * (dx * dz)) * ss) * (ox * (oy
        * oz))) by (nonlinear_arith);
    assert((xy * (ox * oz)) * c == ((ay * (dx * dz)) * ss) * (ox * (oy * oz)));
    let kz = (ox * oy) * (dx * dy);
    assert((xz * (dz * rr)) * kz == (az * (ss * oz)) * kz);
    assert((xz * (dz * rr)) * ((ox * oy) * (dx * dy)) == (xz * (ox * oy)) * ((dx * (dy * dz))
        * rr)) by (nonlinear_arith);
    assert((az * (ss * oz)) * ((ox * oy) * (dx * dy)) == ((az * (dx * dy)) * ss) * (ox * (oy
        * oz))) by (nonlinear_arith);
    assert((xz * (ox * oy)) * c == ((az * (dx * dy)) * ss) * (ox * (oy * oz)));
    assert((xx * (oy * oz) + xy * (ox * oz) + xz * (ox * oy)) * c == (xx * (oy * oz)) * c + (xy
        * (ox * oz)) * c + (xz * (ox * oy)) * c) by (nonlinear_arith);
    assert(((ax * (dy * dz)) * ss) * (ox * (oy * oz)) + ((ay * (dx * dz)) * ss) * (ox * (oy * oz))
        + ((az * (dx * dy)) * ss) * (ox * (oy * oz)) == ((ax * (dy * dz) + ay * (dx * dz) + az
        * (dx * dy)) * ss) * (ox * (oy * oz))) by (nonlinear_arith);
    assert((xx * (oy * oz) + xy * (ox * oz) + xz * (ox * oy)) * c == ((ax * (dy * dz) + ay * (dx
        * dz) + az * (dx * dy)) * ss) * (ox * (oy * oz)));
    assert(((ax * (dy * dz) + ay * (dx * dz) + az * (dx * dy)) * ss) * (ox * (oy * oz)) == (rr
        * (dx * (dy * dz))) * (ox * (oy * oz)));
    assert((rr * (dx * (dy * dz))) * (ox * (oy * oz)) == (ox * (oy * oz)) * ((dx * (dy * dz))
        * rr)) by (nonlinear_arith);
    assert((xx * (oy * oz) + xy * (ox * oz) + xz * (ox * oy)) * c == (ox * (oy * oz)) * c)
        by (nonlinear_arith)
        requires
            c == (dx * (dy * dz)) * rr,
            (xx * (oy * oz) + xy * (ox * oz) + xz * (ox * oy)) * c == ((ax * (dy * dz) + ay * (dx
                * dz) + az * (dx * dy)) * ss) * (ox * (oy * oz)),
            ((ax * (dy * dz) + ay * (dx * dz) + az * (dx * dy)) * ss) * (ox * (oy * oz)) == (rr
                * (dx * (dy * dz))) * (ox * (oy * oz)),
            (rr * (dx * (dy * dz))) * (ox * (oy * oz)) == (ox * (oy * oz)) * ((dx * (dy * dz))
                * rr),
    ;
    assert(c > 0) by (nonlinear_arith)
        requires
            c == (dx * (dy * dz)) * rr,
            dx > 0,
            dy > 0,
            dz > 0,
            rr > 0,
    ;
    crate::rat::lemma_cancel_eq(
        xx * (oy * oz) + xy * (ox * oz) + xz * (ox * oy),
        ox * (oy * oz),
        c,
    );
}

/// For a hit point exactly on the sphere, the reported outward normal
/// `(point - center) / radius` is the unit vector from the center to the hit
/// point: it has squared length exactly one, and componentwise it denotes
/// the vector from center to point divided by the radius.
pub proof fn lemma_on_sphere_normal(po: Vec3, radius: Q, outward: Vec3)
    requires
        v_wf(po),
        radius.wf(),
        radius.num > 0,
        v_div_m(po, radius) == Some(outward),
        on_sphere_sq(po, radius),
    ensures
        crate::vec3::unit_sq_v(outward),
        crate::rat::q_denotes(outward.x, po.x.num * radius.den, po.x.den * radius.num),
        crate::rat::q_denotes(outward.y, po.y.num * radius.den, po.y.den * radius.num),
        crate::rat::q_denotes(outward.z, po.z.num * radius.den, po.z.den * radius.num),
{
    assert(po.x.den * radius.num > 0 && po.y.den * radius.num > 0 && po.z.den * radius.num > 0)
        by (nonlinear_arith)
        requires
            po.x.den > 0,
            po.y.den > 0,
            po.z.den > 0,
            radius.num > 0,
    ;
    crate::rat::lemma_norm_denotes(po.x.num * radius.den, po.x.den * radius.num);
    crate::rat::lemma_norm_denotes(po.y.num * radius.den, po.y.den * radius.num);
    crate::rat::lemma_norm_denotes(po.z.num * radius.den, po.z.den * radius.num);
    let oxn = outward.x.num as int;
    let oxd = outward.x.den as int;
    let oyn = outward.y.num as int;
    let oyd = outward.y.den as int;
    let ozn = outward.z.num as int;
    let ozd = outward.z.den as int;
    let pxn = po.x.num as int;
    let pxd = po.x.den as int;
    let pyn = po.y.num as int;
    let pyd = po.y.den as int;
    let pzn = po.z.num as int;
    let pzd = po.z.den as int;
    let rn = radius.num as int;
    let rd = radius.den as int;
    assert(oxn * (pxd * rn) == (pxn * rd) * oxd);
    assert((oxn * (pxd * rn)) * (oxn * (pxd * rn)) == ((pxn * rd) * oxd) * ((pxn * rd) * oxd));
    assert((oxn * (pxd * rn)) * (oxn * (pxd * rn)) == (oxn * oxn) * ((pxd * pxd) * (rn * rn)))
        by (nonlinear_arith);
    assert(((pxn * rd) * oxd) * ((pxn * rd) * oxd) == (pxn * pxn) * ((rd * rd) * (oxd * oxd)))
        by (nonlinear_arith);
    assert(oyn * (pyd * rn) == (pyn * rd) * oyd);
    assert((oyn * (pyd * rn)) * (oyn * (pyd * rn)) == ((pyn * rd) * oyd) * ((pyn * rd) * oyd));
    assert((oyn * (pyd * rn)) * (oyn * (pyd * rn)) == (oyn * oyn) * ((pyd * pyd) * (rn * rn)))
        by (nonlinear_arith);
    assert(((pyn * rd) * oyd) * ((pyn * rd) * oyd) == (pyn * pyn) * ((rd * rd) * (oyd * oyd)))
        by (nonlinear_arith);
    assert(ozn * (pzd * rn) == (pzn * rd) * ozd);
    assert((ozn * (pzd * rn)) * (ozn * (pzd * rn)) == ((pzn * rd) * ozd) * ((pzn * rd) * ozd));
    assert((ozn * (pzd * rn)) * (ozn * (pzd * rn)) == (ozn * ozn) * ((pzd * pzd) * (rn * rn)))
        by (nonlinear_arith);
    assert(((pzn * rd) * ozd) * ((pzn * rd) * ozd) == (pzn * pzn) * ((rd * rd) * (ozd * ozd)))
        by (nonlinear_arith);
    assert(pxd * pxd > 0 && pyd * pyd > 0 && pzd * pzd > 0 && rn * rn > 0 && oxd * oxd > 0 && oyd
        * oyd > 0 && ozd * ozd > 0) by (nonlinear_arith)
        requires
            pxd > 0,
            pyd > 0,
            pzd > 0,
            rn > 0,
            oxd > 0,
            oyd > 0,
            ozd > 0,
    ;
    lemma_unit_from_sphere_atoms(
        oxn * oxn,
        oyn * oyn,
        ozn * ozn,
        oxd * oxd,
        oyd * oyd,
        ozd * ozd,
        pxn * pxn,
        pyn * pyn,
        pzn * pzn,
        pxd * pxd,
        pyd * pyd,
        pzd * pzd,
        rn * rn,
        rd * rd,
    );
}

/// A reported hit lies in the requested parameter range.
pub proof fn lemma_sphere_hit_in_range(s: Sphere, r: Ray, t_min: Q, t_max: Q)
    requires
        sphere_hit_m(s, r, t_min, t_max) is Some,
        sphere_hit_m(s, r, t_min, t_max)->Some_0 is Some,
    ensures
        t_in_range(sphere_hit_m(s, r, t_min, t_max)->Some_0->Some_0.t, t_min, t_max),
{
}

/// A reported hit carries a well-formed parameter.
pub proof fn lemma_sphere_hit_wf(s: Sphere, r: Ray, t_min: Q, t_max: Q)
    requires
        sphere_hit_m(s, r, t_min, t_max) is Some,
        sphere_hit_m(s, r, t_min, t_max)->Some_0 is Some,
    ensures
        sphere_hit_m(s, r, t_min, t_max)->Some_0->Some_0.t.wf(),
{
    let oc = v_sub_m(r.origin, s.center)->Some_0;
    let a = v_len2_m(r.direction)->Some_0;
    let half_b = v_dot_m(r.direction, oc)->Some_0;
    let r2 = crate::rat::q_mul_m(s.radius, s.radius)->Some_0;
    let oc2 = v_len2_m(oc)->Some_0;
    let c = q_sub_m(oc2, r2)->Some_0;
    let hb2 = crate::rat::q_mul_m(half_b, half_b)->Some_0;
    let ac = crate::rat::q_mul_m(a, c)->Some_0;
    let disc = q_sub_m(hb2, ac)->Some_0;
    let sq = q_sqrt_m(disc);
    let nhb = q_neg_m(half_b);
    let n0 = q_sub_m(nhb, sq)->Some_0;
    let t0 = q_div_m(n0, a)->Some_0;
    crate::rat::lemma_div_wf(n0, a);
    if !t_in_range(t0, t_min, t_max) {
        let n1 = q_add_m(nhb, sq)->Some_0;
        crate::rat::lemma_div_wf(n1, a);
    }
}

/// Shrinking the upper bound of the parameter range cannot change which
/// intersection is reported: the narrowed call returns the same record when
/// its parameter still qualifies, and otherwise a miss (or a value out of
/// range where the wider call had no need of the larger root).
pub proof fn lemma_sphere_hit_narrow(s: Sphere, r: Ray, t_min: Q, cur: Q, t_max: Q)
    requires
        sphere_wf(s),
        ray_wf(r),
        t_min.wf(),
        cur.wf(),
        t_max.wf(),
        q_le_v(cur, t_max),
        sphere_hit_m(s, r, t_min, t_max) is Some,
        sphere_hit_m(s, r, t_min, t_max)->Some_0 is Some,
    ensures
        t_in_range(sphere_hit_m(s, r, t_min, t_max)->Some_0->Some_0.t, t_min, cur)
            ==> sphere_hit_m(s, r, t_min, cur) == sphere_hit_m(s, r, t_min, t_max),
        !t_in_range(sphere_hit_m(s, r, t_min, t_max)->Some_0->Some_0.t, t_min, cur) ==> (
        sphere_hit_m(s, r, t_min, cur) == Some(Option::<HitRecord>::None) || sphere_hit_m(
            s,
            r,
            t_min,
            cur,
        ) is None),
{
    let oc = v_sub_m(r.origin, s.center)->Some_0;
    let a = v_len2_m(r.direction)->Some_0;
    let half_b = v_dot_m(r.direction, oc)->Some_0;
    let r2 = crate::rat::q_mul_m(s.radius, s.radius)->Some_0;
    let oc2 = v_len2_m(oc)->Some_0;
    let c = q_sub_m(oc2, r2)->Some_0;
    let hb2 = crate::rat::q_mul_m(half_b, half_b)->Some_0;
    let ac = crate::rat::q_mul_m(a, c)->Some_0;
    let disc = q_sub_m(hb2, ac)->Some_0;
    let sq = q_sqrt_m(disc);
    let nhb = q_neg_m(half_b);
    let n0 = q_sub_m(nhb, sq)->Some_0;
    let t0 = q_div_m(n0, a)->Some_0;
    crate::vec3::lemma_len2_nonneg(r.direction);
    assert(disc.num >= 0);
    crate::sqrt::lemma_q_sqrt_m_bounds(disc);
    assert(a.num > 0);
    assert(sq.num >= 0 && sq.den == 256);
    // The raw difference and sum of `-half_b` and the root compare as their
    // numerators do over the shared raw denominator.
    crate::rat::lemma_norm_denotes(
        nhb.num * sq.den - sq.num * nhb.den,
        nhb.den * sq.den,
    );
    assert(nhb.den * sq.den > 0 && n0.den * a.num > 0) by (nonlinear_arith)
        requires
            nhb.den > 0,
            sq.den > 0,
            n0.den > 0,
            a.num > 0,
    ;
    crate::rat::lemma_norm_denotes(n0.num * a.den, n0.den * a.num);
    if t_in_range(t0, t_min, t_max) {
        // The wider call took the smaller root.
        if t_in_range(t0, t_min, cur) {
        } else {
            // The smaller root falls past `cur`; the larger root does too.
            assert(q_lt_v(cur, t0));
            if q_add_m(nhb, sq) is Some {
                let n1 = q_add_m(nhb, sq)->Some_0;
                crate::rat::lemma_norm_denotes(
                    nhb.num * sq.den + sq.num * nhb.den,
                    nhb.den * sq.den,
                );
                assert(nhb.num * sq.den - sq.num * nhb.den <= nhb.num * sq.den + sq.num
                    * nhb.den) by (nonlinear_arith)
                    requires
                        sq.num >= 0,
                        nhb.den > 0,
                ;
                crate::rat::lemma_le_from_denotes(
                    n0,
                    n1,
                    nhb.num * sq.den - sq.num * nhb.den,
                    nhb.num * sq.den + sq.num * nhb.den,
                    nhb.den * sq.den,
                );
                if q_div_m(n1, a) is Some {
                    let t1 = q_div_m(n1, a)->Some_0;
                    assert(n1.den * a.num > 0) by (nonlinear_arith)
                        requires
                            n1.den > 0,
                            a.num > 0,
                    ;
                    crate::rat::lemma_norm_denotes(n1.num * a.den, n1.den * a.num);
                    crate::rat::lemma_div_monotone(n0, n1, a, t0, t1);
                    crate::rat::lemma_lt_le_trans(cur, t0, t1);
                }
            }
        }
    } else {
        // The wider call took the larger root.
        let n1 = q_add_m(nhb, sq)->Some_0;
        let t1 = q_div_m(n1, a)->Some_0;
        if q_lt_v(t_max, t0) {
            crate::rat::lemma_le_lt_trans(cur, t_max, t0);
        }
        assert(!t_in_range(t0, t_min, cur));
    }
}

impl Sphere {
    /// Intersects the ray with this sphere over the parameter range
    /// `[t_min, t_max]`: the nearest valid intersection, or `None` on a
    /// miss, or an arithmetic error when a value leaves the representable
    /// range. The answer is exactly what the spec mirror gives.
    pub fn hit(&self, r: &Ray, t_min: Q, t_max: Q) -> (res: Result<Option<HitRecord>, ArithError>)
        requires
            sphere_wf(*self),
            ray_wf(*r),
            t_min.wf(),
            t_max.wf(),
        ensures
            res is Ok <==> sphere_hit_m(*self, *r, t_min, t_max) is Some,
            res is Ok ==> res->Ok_0 == sphere_hit_m(*self, *r, t_min, t_max)->Some_0,
            res matches Ok(Some(rec)) ==> rec_wf(rec) && t_in_range(rec.t, t_min, t_max)
                && rec.material == self.material,
    {
        let zero = Q { num: 0, den: 1 };
        let oc = match r.origin().sub(&self.center) {
            Some(v) => v,
            None => {
                return Err(ArithError);
            },
        };
        let a = match r.direction().length_squared() {
            Some(v) => v,
            None => {
                return Err(ArithError);
            },
        };
        let half_b = match r.direction().dot(&oc) {
            Some(v) => v,
            None => {
                return Err(ArithError);
            },
        };
        let r2 = match q_mul(self.radius, self.radius) {
            Some(v) => v,
            None => {
                return Err(ArithError);
            },
        };
        let oc2 = match oc.length_squared() {
            Some(v) => v,
            None => {
                return Err(ArithError);
            },
        };
        let c = match q_sub(oc2, r2) {
            Some(v) => v,
            None => {
                return Err(ArithError);
            },
        };
        let hb2 = match q_mul(half_b, half_b) {
            Some(v) => v,
            None => {
                return Err(ArithError);
            },
        };
        let ac = match q_mul(a, c) {
            Some(v) => v,
            None => {
                return Err(ArithError);
            },
        };
        let disc = match q_sub(hb2, ac) {
            Some(v) => v,
            None => {
                return Err(ArithError);
            },
        };
        if q_lt(disc, zero) {
            return Ok(None);
        }
        let sq = q_sqrt(disc);
        let nhb = q_neg(half_b);
        let n0 = match q_sub(nhb, sq) {
            Some(v) => v,
            None => {
                return Err(ArithError);
            },
        };
        let t0 = match q_div(n0, a) {
            Some(v) => v,
            None => {
                return Err(ArithError);
            },
        };
        let root = if !q_lt(t0, t_min) && !q_lt(t_max, t0) {
            t0
        } else {
            let n1 = match q_add(nhb, sq) {
                Some(v) => v,
                None => {
                    return Err(ArithError);
                },
            };
            let t1 = match q_div(n1, a) {
                Some(v) => v,
                None => {
                    return Err(ArithError);
                },
            };
            if !q_lt(t1, t_min) && !q_lt(t_max, t1) {
                t1
            } else {
                return Ok(None);
            }
        };
        let point = match r.at(root) {
            Some(v) => v,
            None => {
                return Err(ArithError);
            },
        };
        let po = match point.sub(&self.center) {
            Some(v) => v,
            None => {
                return Err(ArithError);
            },
        };
        let outward = match po.div(self.radius) {
            Some(v) => v,
            None => {
                return Err(ArithError);
            },
        };
        let d = match r.direction().dot(&outward) {
            Some(v) => v,
            None => {
                return Err(ArithError);
            },
        };
        let front = q_lt(d, zero);
        let normal = if front {
            outward
        } else {
            outward.neg()
        };
        Ok(
            Some(
                HitRecord {
                    point,
                    normal,
                    t: root,
                    front_face: front,
                    material: self.material,
                },
            ),
        )
    }
}

} // verus!
