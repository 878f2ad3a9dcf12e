//! Three-component rational vectors.
//!
//! The one value type of the geometry: used as a point, a direction and a
//! color. Every operation is exact rational arithmetic and carries a spec
//! mirror that gives the result precisely; an operation returns `None` exactly
//! when the reduced result of some step no longer fits in 64 bits.

use vstd::prelude::*;
use crate::rat::{Q, q_add, q_add_m, q_sub, q_sub_m, q_mul, q_mul_m, q_div, q_div_m, q_neg, q_norm_m,
    q_lt, q_lt_v, q_le_v, q_abs, q_min, q_min_m, iabs};
use crate::sqrt::{q_sqrt, q_sqrt_m};
use crate::rng::random_double;
use crate::rat::{gcd_s, q_denotes};

verus! {

/// A vector of three rational components.
#[derive(Clone, Copy, Debug, PartialEq, Eq, Structural)]
pub struct Vec3 {
    pub x: Q,
    pub y: Q,
    pub z: Q,
}

/// Componentwise well-formedness.
pub open spec fn v_wf(v: Vec3) -> bool {
    v.x.wf() && v.y.wf() && v.z.wf()
}

/// The exact componentwise sum.
pub open spec fn v_add_m(a: Vec3, b: Vec3) -> Option<Vec3> {
    match (q_add_m(a.x, b.x), q_add_m(a.y, b.y), q_add_m(a.z, b.z)) {
        (Some(x), Some(y), Some(z)) => Some(Vec3 { x, y, z }),
        _ => None,
    }
}

/// The exact componentwise difference.
pub open spec fn v_sub_m(a: Vec3, b: Vec3) -> Option<Vec3> {
    match (q_sub_m(a.x, b.x), q_sub_m(a.y, b.y), q_sub_m(a.z, b.z)) {
        (Some(x), Some(y), Some(z)) => Some(Vec3 { x, y, z }),
        _ => None,
    }
}

/// The exact componentwise product.
pub open spec fn v_mul_m(a: Vec3, b: Vec3) -> Option<Vec3> {
    match (q_mul_m(a.x, b.x), q_mul_m(a.y, b.y), q_mul_m(a.z, b.z)) {
        (Some(x), Some(y), Some(z)) => Some(Vec3 { x, y, z }),
        _ => None,
    }
}

/// The exact scaling of a vector by a rational.
pub open spec fn v_scale_m(v: Vec3, s: Q) -> Option<Vec3> {
    match (q_mul_m(v.x, s), q_mul_m(v.y, s), q_mul_m(v.z, s)) {
        (Some(x), Some(y), Some(z)) => Some(Vec3 { x, y, z }),
        _ => None,
    }
}

/// The exact division of a vector by a rational scalar.
pub open spec fn v_div_m(v: Vec3, s: Q) -> Option<Vec3> {
    match (q_div_m(v.x, s), q_div_m(v.y, s), q_div_m(v.z, s)) {
        (Some(x), Some(y), Some(z)) => Some(Vec3 { x, y, z }),
        _ => None,
    }
}

/// The exact negation (always in range).
pub open spec fn v_neg_m(v: Vec3) -> Vec3 {
    Vec3 {
        x: Q { num: -v.x.num as i64, den: v.x.den },
        y: Q { num: -v.y.num as i64, den: v.y.den },
        z: Q { num: -v.z.num as i64, den: v.z.den },
    }
}

/// The exact dot product.
pub open spec fn v_dot_m(a: Vec3, b: Vec3) -> Option<Q> {
    match (q_mul_m(a.x, b.x), q_mul_m(a.y, b.y), q_mul_m(a.z, b.z)) {
        (Some(px), Some(py), Some(pz)) => match q_add_m(px, py) {
            Some(s) => q_add_m(s, pz),
            None => None,
        },
        _ => None,
    }
}

/// The exact squared length.
pub open spec fn v_len2_m(v: Vec3) -> Option<Q> {
    v_dot_m(v, v)
}

/// The exact cross product.
pub open spec fn v_cross_m(a: Vec3, b: Vec3) -> Option<Vec3> {
    let x = match (q_mul_m(a.y, b.z), q_mul_m(a.z, b.y)) {
        (Some(p), Some(q)) => q_sub_m(p, q),
        _ => None,
    };
    let y = match (q_mul_m(a.z, b.x), q_mul_m(a.x, b.z)) {
        (Some(p), Some(q)) => q_sub_m(p, q),
        _ => None,
    };
    let z = match (q_mul_m(a.x, b.y), q_mul_m(a.y, b.x)) {
        (Some(p), Some(q)) => q_sub_m(p, q),
        _ => None,
    };
    match (x, y, z) {
        (Some(x), Some(y), Some(z)) => Some(Vec3 { x, y, z }),
        _ => None,
    }
}

/// Whether every component's magnitude is below 1 / 100 000 000, exactly.
pub open spec fn v_near_zero_v(v: Vec3) -> bool {
    &&& q_lt_v(Q { num: -v.x.num as i64, den: v.x.den }, Q { num: 1, den: 100_000_000 })
    &&& q_lt_v(v.x, Q { num: 1, den: 100_000_000 })
    &&& q_lt_v(Q { num: -v.y.num as i64, den: v.y.den }, Q { num: 1, den: 100_000_000 })
    &&& q_lt_v(v.y, Q { num: 1, den: 100_000_000 })
    &&& q_lt_v(Q { num: -v.z.num as i64, den: v.z.den }, Q { num: 1, den: 100_000_000 })
    &&& q_lt_v(v.z, Q { num: 1, den: 100_000_000 })
}

/// The exact reflection `v - 2 (v . n) n` about the normal `n`.
pub open spec fn v_reflect_m(v: Vec3, n: Vec3) -> Option<Vec3> {
    match v_dot_m(v, n) {
        Some(d) => match q_mul_m(Q { num: 2, den: 1 }, d) {
            Some(d2) => match v_scale_m(n, d2) {
                Some(s) => v_sub_m(v, s),
                None => None,
            },
            None => None,
        },
        None => None,
    }
}

/// The exact refraction by Snell's law of a direction `uv` against the normal
/// `n` with the given ratio of refractive indices: the perpendicular part
/// `eta (uv + cos_theta n)` plus the parallel part
/// `-sqrt(|1 - |perp|^2|) n`, with the square root taken on the grid.
pub open spec fn v_refract_m(uv: Vec3, n: Vec3, eta: Q) -> Option<Vec3> {
    match v_dot_m(v_neg_m(uv), n) {
        Some(c0) => {
            let cos = q_min_m(c0, Q { num: 1, den: 1 });
            match v_scale_m(n, cos) {
                Some(cn) => match v_add_m(uv, cn) {
                    Some(s) => match v_scale_m(s, eta) {
                        Some(perp) => match v_len2_m(perp) {
                            Some(pl2) => match q_sub_m(Q { num: 1, den: 1 }, pl2) {
                                Some(d) => {
                                    let a = Q { num: iabs(d.num as int) as i64, den: d.den };
                                    let sq = q_sqrt_m(a);
                                    let msq = Q { num: (-(sq.num as int)) as i64, den: sq.den };
                                    match v_scale_m(n, msq) {
                                        Some(par) => v_add_m(perp, par),
                                        None => None,
                                    }
                                },
                                None => None,
                            },
                            None => None,
                        },
                        None => None,
                    },
                    None => None,
                },
                None => None,
            }
        },
        None => None,
    }
}

/// The grid length: the grid square root of the squared length; `None` when
/// a step leaves the representable range.
pub open spec fn v_len_m(v: Vec3) -> Option<Q> {
    match v_len2_m(v) {
        Some(l2) => if l2.num < 0 { None } else { Some(q_sqrt_m(l2)) },
        None => None,
    }
}

/// The grid unit vector: the vector divided by its grid length; `None` for a
/// vector whose grid length is zero.
pub open spec fn v_unit_m(v: Vec3) -> Option<Vec3> {
    match v_len_m(v) {
        Some(l) => if l.num == 0 { None } else { v_div_m(v, l) },
        None => None,
    }
}

/// The squared length of the vector is exactly one, stated by cross
/// multiplication: the sum of the squared numerators, each over the other
/// components' squared denominators, equals the product of all squared
/// denominators.
pub open spec fn unit_sq_v(v: Vec3) -> bool {
    (v.x.num * v.x.num) * ((v.y.den * v.y.den) * (v.z.den * v.z.den)) + (v.y.num * v.y.num) * ((
    v.x.den * v.x.den) * (v.z.den * v.z.den)) + (v.z.num * v.z.num) * ((v.x.den * v.x.den) * (
    v.y.den * v.y.den)) == (v.x.den * v.x.den) * ((v.y.den * v.y.den) * (v.z.den * v.z.den))
}

/// Componentwise multiplication by the zero vector gives exactly the zero
/// vector.
pub proof fn lemma_mul_zero_vec(a: Vec3)
    requires
        v_wf(a),
    ensures
        v_mul_m(
            a,
            Vec3 { x: Q { num: 0, den: 1 }, y: Q { num: 0, den: 1 }, z: Q { num: 0, den: 1 } },
        ) == Some(
            Vec3 { x: Q { num: 0, den: 1 }, y: Q { num: 0, den: 1 }, z: Q { num: 0, den: 1 } },
        ),
{
    crate::rat::lemma_mul_zero(a.x);
    crate::rat::lemma_mul_zero(a.y);
    crate::rat::lemma_mul_zero(a.z);
}

/// A squared length is never negative: every component's square denotes a
/// non-negative fraction, and sums of those stay non-negative.
pub proof fn lemma_len2_nonneg(v: Vec3)
    requires
        v_wf(v),
        v_len2_m(v) is Some,
    ensures
        v_len2_m(v)->Some_0.num >= 0,
        v_len2_m(v)->Some_0.wf(),
{
    let px = q_mul_m(v.x, v.x)->Some_0;
    let py = q_mul_m(v.y, v.y)->Some_0;
    let pz = q_mul_m(v.z, v.z)->Some_0;
    assert(v.x.den * v.x.den > 0 && v.y.den * v.y.den > 0 && v.z.den * v.z.den > 0)
        by (nonlinear_arith)
        requires
            v.x.den > 0,
            v.y.den > 0,
            v.z.den > 0,
    ;
    crate::rat::lemma_norm_denotes(v.x.num * v.x.num, v.x.den * v.x.den);
    crate::rat::lemma_norm_denotes(v.y.num * v.y.num, v.y.den * v.y.den);
    crate::rat::lemma_norm_denotes(v.z.num * v.z.num, v.z.den * v.z.den);
    assert(px.num >= 0 && py.num >= 0 && pz.num >= 0) by (nonlinear_arith)
        requires
            v.x.den > 0,
            v.y.den > 0,
            v.z.den > 0,
            px.den > 0,
            py.den > 0,
            pz.den > 0,
            q_denotes(px, v.x.num * v.x.num, v.x.den * v.x.den),
            q_denotes(py, v.y.num * v.y.num, v.y.den * v.y.den),
            q_denotes(pz, v.z.num * v.z.num, v.z.den * v.z.den),
    ;
    let s = q_add_m(px, py)->Some_0;
    assert(px.den * py.den > 0) by (nonlinear_arith)
        requires
            px.den > 0,
            py.den > 0,
    ;
    crate::rat::lemma_norm_denotes(px.num * py.den + py.num * px.den, px.den * py.den);
    assert(s.num >= 0) by (nonlinear_arith)
        requires
            px.num >= 0,
            py.num >= 0,
            px.den > 0,
            py.den > 0,
            s.den > 0,
            q_denotes(s, px.num * py.den + py.num * px.den, px.den * py.den),
    ;
    let l2 = q_add_m(s, pz)->Some_0;
    assert(s.den * pz.den > 0) by (nonlinear_arith)
        requires
            s.den > 0,
            pz.den > 0,
    ;
    crate::rat::lemma_norm_denotes(s.num * pz.den + pz.num * s.den, s.den * pz.den);
    assert(l2.num >= 0) by (nonlinear_arith)
        requires
            s.num >= 0,
            pz.num >= 0,
            s.den > 0,
            pz.den > 0,
            l2.den > 0,
            q_denotes(l2, s.num * pz.den + pz.num * s.den, s.den * pz.den),
    ;
}

/// The squared length of the fixed fallback point (1/2, 0, 0) of the
/// rejection samplers is exactly one quarter.
proof fn lemma_fallback_len2(fb: Vec3)
    requires
        fb == (Vec3 {
            x: Q { num: 1, den: 2 },
            y: Q { num: 0, den: 1 },
            z: Q { num: 0, den: 1 },
        }),
    ensures
        v_len2_m(fb) == Some(Q { num: 1, den: 4 }),
        q_lt_v(v_len2_m(fb)->Some_0, Q { num: 1, den: 1 }),
{
    reveal_with_fuel(gcd_s, 6);
    let h = Q { num: 1, den: 2 };
    let z = Q { num: 0, den: 1 };
    let q14 = Q { num: 1, den: 4 };
    assert(gcd_s(1nat, 4nat) == 1nat);
    assert(gcd_s(0nat, 1nat) == 1nat);
    assert(h.num * h.num == 1 && h.den * h.den == 4) by (nonlinear_arith)
        requires
            h.num == 1i64 && h.den == 2i64,
    ;
    assert(z.num * z.num == 0 && z.den * z.den == 1) by (nonlinear_arith)
        requires
            z.num == 0i64 && z.den == 1i64,
    ;
    assert(q14.num * z.den + z.num * q14.den == 1 && q14.den * z.den == 4) by (nonlinear_arith)
        requires
            q14.num == 1i64 && q14.den == 4i64 && z.num == 0i64 && z.den == 1i64,
    ;
    assert(iabs(1) == 1 && iabs(0) == 0);
    crate::rat::lemma_norm_one(1, 4);
    crate::rat::lemma_norm_one(0, 1);
    assert(q_norm_m(1, 4) == Some(q14));
    assert(q_norm_m(0, 1) == Some(z));
    assert(q_mul_m(h, h) == Some(q14));
    assert(q_mul_m(z, z) == Some(z));
    assert(q_add_m(q14, z) == Some(q14));
    assert(v_len2_m(fb) == Some(q14));
}

impl Vec3 {
    /// The zero vector.
    pub fn zero() -> (r: Vec3)
        ensures
            v_wf(r),
            r.x.num == 0 && r.y.num == 0 && r.z.num == 0,
            r.x.den == 1 && r.y.den == 1 && r.z.den == 1,
    {
        Vec3 { x: Q::zero(), y: Q::zero(), z: Q::zero() }
    }

    /// Builds a vector from three rationals.
    pub fn new(x: Q, y: Q, z: Q) -> (r: Vec3)
        requires
            x.wf(),
            y.wf(),
            z.wf(),
        ensures
            v_wf(r),
            r == (Vec3 { x, y, z }),
    {
        Vec3 { x, y, z }
    }

    /// The first component.
    pub fn x(&self) -> (r: Q)
        ensures
            r == self.x,
    {
        self.x
    }

    /// The second component.
    pub fn y(&self) -> (r: Q)
        ensures
            r == self.y,
    {
        self.y
    }

    /// The third component.
    pub fn z(&self) -> (r: Q)
        ensures
            r == self.z,
    {
        self.z
    }

    /// Componentwise sum.
    pub fn add(&self, other: &Vec3) -> (r: Option<Vec3>)
        requires
            v_wf(*self),
            v_wf(*other),
        ensures
            r == v_add_m(*self, *other),
            r is Some ==> v_wf(r->Some_0),
    {
        match (q_add(self.x, other.x), q_add(self.y, other.y), q_add(self.z, other.z)) {
            (Some(x), Some(y), Some(z)) => Some(Vec3 { x, y, z }),
            _ => None,
        }
    }

    /// Componentwise difference.
    pub fn sub(&self, other: &Vec3) -> (r: Option<Vec3>)
        requires
            v_wf(*self),
            v_wf(*other),
        ensures
            r == v_sub_m(*self, *other),
            r is Some ==> v_wf(r->Some_0),
    {
        match (q_sub(self.x, other.x), q_sub(self.y, other.y), q_sub(self.z, other.z)) {
            (Some(x), Some(y), Some(z)) => Some(Vec3 { x, y, z }),
            _ => None,
        }
    }

    /// Componentwise product (used for color attenuation).
    pub fn mul(&self, other: &Vec3) -> (r: Option<Vec3>)
        requires
            v_wf(*self),
            v_wf(*other),
        ensures
            r == v_mul_m(*self, *other),
            r is Some ==> v_wf(r->Some_0),
    {
        match (q_mul(self.x, other.x), q_mul(self.y, other.y), q_mul(self.z, other.z)) {
            (Some(x), Some(y), Some(z)) => Some(Vec3 { x, y, z }),
            _ => None,
        }
    }

    /// Scaling by a rational scalar.
    pub fn scale(&self, s: Q) -> (r: Option<Vec3>)
        requires
            v_wf(*self),
            s.wf(),
        ensures
            r == v_scale_m(*self, s),
            r is Some ==> v_wf(r->Some_0),
    {
        match (q_mul(self.x, s), q_mul(self.y, s), q_mul(self.z, s)) {
            (Some(x), Some(y), Some(z)) => Some(Vec3 { x, y, z }),
            _ => None,
        }
    }

    /// Division by a rational scalar; `None` when the scalar is zero.
    pub fn div(&self, s: Q) -> (r: Option<Vec3>)
        requires
            v_wf(*self),
            s.wf(),
        ensures
            r == v_div_m(*self, s),
            r is Some ==> v_wf(r->Some_0),
    {
        match (q_div(self.x, s), q_div(self.y, s), q_div(self.z, s)) {
            (Some(x), Some(y), Some(z)) => Some(Vec3 { x, y, z }),
            _ => None,
        }
    }

    /// Negation; always exact.
    pub fn neg(&self) -> (r: Vec3)
        requires
            v_wf(*self),
        ensures
            r == v_neg_m(*self),
            v_wf(r),
    {
        Vec3 { x: q_neg(self.x), y: q_neg(self.y), z: q_neg(self.z) }
    }

    /// The dot product.
    pub fn dot(&self, v: &Vec3) -> (r: Option<Q>)
        requires
            v_wf(*self),
            v_wf(*v),
        ensures
            r == v_dot_m(*self, *v),
            r is Some ==> r->Some_0.wf(),
    {
        match (q_mul(self.x, v.x), q_mul(self.y, v.y), q_mul(self.z, v.z)) {
            (Some(px), Some(py), Some(pz)) => match q_add(px, py) {
                Some(s) => q_add(s, pz),
                None => None,
            },
            _ => None,
        }
    }

    /// The cross product.
    pub fn cross(&self, v: &Vec3) -> (r: Option<Vec3>)
        requires
            v_wf(*self),
            v_wf(*v),
        ensures
            r == v_cross_m(*self, *v),
            r is Some ==> v_wf(r->Some_0),
    {
        let x = match (q_mul(self.y, v.z), q_mul(self.z, v.y)) {
            (Some(p), Some(q)) => q_sub(p, q),
            _ => None,
        };
        let y = match (q_mul(self.z, v.x), q_mul(self.x, v.z)) {
            (Some(p), Some(q)) => q_sub(p, q),
            _ => None,
        };
        let z = match (q_mul(self.x, v.y), q_mul(self.y, v.x)) {
            (Some(p), Some(q)) => q_sub(p, q),
            _ => None,
        };
        match (x, y, z) {
            (Some(x), Some(y), Some(z)) => Some(Vec3 { x, y, z }),
            _ => None,
        }
    }

    /// The squared length.
    pub fn length_squared(&self) -> (r: Option<Q>)
        requires
            v_wf(*self),
        ensures
            r == v_len2_m(*self),
            r is Some ==> r->Some_0.wf(),
    {
        self.dot(self)
    }

    /// The grid length: the grid square root of the squared length.
    pub fn length(&self) -> (r: Option<Q>)
        requires
            v_wf(*self),
        ensures
            r == v_len_m(*self),
            r is Some ==> r->Some_0.wf() && r->Some_0.num >= 0,
    {
        match self.length_squared() {
            Some(l2) => {
                if l2.num < 0 {
                    None
                } else {
                    Some(q_sqrt(l2))
                }
            },
            None => None,
        }
    }

    /// The grid unit vector: this vector divided by its grid length.
    pub fn unit_vector(&self) -> (r: Option<Vec3>)
        requires
            v_wf(*self),
        ensures
            r == v_unit_m(*self),
            r is Some ==> v_wf(r->Some_0),
    {
        match self.length() {
            Some(l) => {
                if l.num == 0 {
                    None
                } else {
                    self.div(l)
                }
            },
            None => None,
        }
    }

    /// Whether the vector is close to zero in every component, below
    /// 1 / 100 000 000 in magnitude; always exact.
    pub fn near_zero(&self) -> (r: bool)
        requires
            v_wf(*self),
        ensures
            r == v_near_zero_v(*self),
    {
        let eps = Q { num: 1, den: 100_000_000 };
        q_lt(q_neg(self.x), eps) && q_lt(self.x, eps) && q_lt(q_neg(self.y), eps) && q_lt(
            self.y,
            eps,
        ) && q_lt(q_neg(self.z), eps) && q_lt(self.z, eps)
    }

    /// The reflection `v - 2 (v . n) n` of this vector about a normal.
    pub fn reflect(&self, n: Vec3) -> (r: Option<Vec3>)
        requires
            v_wf(*self),
            v_wf(n),
        ensures
            r == v_reflect_m(*self, n),
            r is Some ==> v_wf(r->Some_0),
    {
        match self.dot(&n) {
            Some(d) => match q_mul(Q { num: 2, den: 1 }, d) {
                Some(d2) => match n.scale(d2) {
                    Some(s) => self.sub(&s),
                    None => None,
                },
                None => None,
            },
            None => None,
        }
    }

    /// A vector of three independent random draws, each between `min` and
    /// `max` whenever `min <= max`.
    pub fn random(min: Q, max: Q) -> (r: Option<Vec3>)
        requires
            min.wf(),
            max.wf(),
        ensures
            r is Some ==> v_wf(r->Some_0),
            r is Some && q_le_v(min, max) ==> {
                let v = r->Some_0;
                &&& q_le_v(min, v.x) && q_le_v(v.x, max)
                &&& q_le_v(min, v.y) && q_le_v(v.y, max)
                &&& q_le_v(min, v.z) && q_le_v(v.z, max)
            },
            r is Some && q_lt_v(min, max) ==> {
                let v = r->Some_0;
                q_lt_v(v.x, max) && q_lt_v(v.y, max) && q_lt_v(v.z, max)
            },
    {
        match (random_double(min, max), random_double(min, max), random_double(min, max)) {
            (Some(x), Some(y), Some(z)) => Some(Vec3 { x, y, z }),
            _ => None,
        }
    }

    /// A random point strictly inside the unit ball, by rejection sampling;
    /// after a bounded number of tries the draw falls back to a fixed
    /// interior point, so the squared length is always below one.
    pub fn random_in_unit_sphere() -> (r: Vec3)
        ensures
            v_wf(r),
            v_len2_m(r) is Some,
            q_lt_v(v_len2_m(r)->Some_0, Q { num: 1, den: 1 }),
    {
        let one = Q { num: 1, den: 1 };
        let minus_one = Q { num: -1, den: 1 };
        let mut tries: u32 = 0;
        while tries < 64
            invariant
                one == (Q { num: 1, den: 1 }),
                minus_one == (Q { num: -1i64, den: 1 }),
            decreases 64 - tries,
        {
            match Vec3::random(minus_one, one) {
                Some(p) => {
                    match p.length_squared() {
                        Some(l2) => {
                            if q_lt(l2, one) {
                                return p;
                            }
                        },
                        None => {},
                    }
                },
                None => {},
            }
            tries = tries + 1;
        }
        let fb = Vec3 {
            x: Q { num: 1, den: 2 },
            y: Q { num: 0, den: 1 },
            z: Q { num: 0, den: 1 },
        };
        proof {
            lemma_fallback_len2(fb);
        }
        fb
    }

    /// A random point strictly inside the unit disk of the first two axes;
    /// the third component is exactly zero.
    pub fn random_in_unit_disk() -> (r: Vec3)
        ensures
            v_wf(r),
            r.z.num == 0,
            v_len2_m(r) is Some,
            q_lt_v(v_len2_m(r)->Some_0, Q { num: 1, den: 1 }),
    {
        let one = Q { num: 1, den: 1 };
        let minus_one = Q { num: -1, den: 1 };
        let zero = Q { num: 0, den: 1 };
        let mut tries: u32 = 0;
        while tries < 64
            invariant
                one == (Q { num: 1, den: 1 }),
                minus_one == (Q { num: -1i64, den: 1 }),
                zero == (Q { num: 0, den: 1 }),
            decreases 64 - tries,
        {
            match Vec3::random(minus_one, one) {
                Some(p0) => {
                    let p = Vec3 { x: p0.x, y: p0.y, z: zero };
                    match p.length_squared() {
                        Some(l2) => {
                            if q_lt(l2, one) {
                                return p;
                            }
                        },
                        None => {},
                    }
                },
                None => {},
            }
            tries = tries + 1;
        }
        let fb = Vec3 {
            x: Q { num: 1, den: 2 },
            y: Q { num: 0, den: 1 },
            z: Q { num: 0, den: 1 },
        };
        proof {
            lemma_fallback_len2(fb);
        }
        fb
    }

    /// A random direction of grid length close to one: a rejection sample
    /// from the unit ball, normalized on the grid. `None` only when the grid
    /// length of the sample is zero or a step leaves the representable range.
    /// A returned direction is always the grid normalization of a point
    /// strictly inside the unit ball.
    pub fn random_unit_vector() -> (r: Option<Vec3>)
        ensures
            r is Some ==> v_wf(r->Some_0),
            r is Some ==> exists|p: Vec3|
                v_wf(p) && v_len2_m(p) is Some && q_lt_v(
                    v_len2_m(p)->Some_0,
                    Q { num: 1, den: 1 },
                ) && #[trigger] v_unit_m(p) == Some(r->Some_0),
    {
        let p = Vec3::random_in_unit_sphere();
        let r = p.unit_vector();
        proof {
            if r is Some {
                assert(v_unit_m(p) == Some(r->Some_0));
            }
        }
        r
    }

    /// The refraction of this (unit-length) direction against the normal `n`
    /// by Snell's law, with the given ratio of refractive indices.
    pub fn refract(&self, n: Vec3, etai_over_etat: Q) -> (r: Option<Vec3>)
        requires
            v_wf(*self),
            v_wf(n),
            etai_over_etat.wf(),
        ensures
            r == v_refract_m(*self, n, etai_over_etat),
            r is Some ==> v_wf(r->Some_0),
    {
        match self.neg().dot(&n) {
            Some(c0) => {
                let cos = q_min(c0, Q { num: 1, den: 1 });
                match n.scale(cos) {
                    Some(cn) => match self.add(&cn) {
                        Some(s) => match s.scale(etai_over_etat) {
                            Some(perp) => match perp.length_squared() {
                                Some(pl2) => match q_sub(Q { num: 1, den: 1 }, pl2) {
                                    Some(d) => {
                                        let a = q_abs(d);
                                        let sq = q_sqrt(a);
                                        match n.scale(q_neg(sq)) {
                                            Some(par) => perp.add(&par),
                                            None => None,
                                        }
                                    },
                                    None => None,
                                },
                                None => None,
                            },
                            None => None,
                        },
                        None => None,
                    },
                    None => None,
                }
            },
            None => None,
        }
    }
}

} // verus!
