//! Random draws for sampling.
//!
//! The one entry point to the process-wide random source: a trusted wrapper
//! around the `rand` crate hands out raw 32-bit draws, and verified code maps
//! them onto the rational grid. Nothing is promised of a draw's value, only of
//! the range of the rational built from it.

use vstd::prelude::*;
use crate::rat::{Q, q_add, q_sub, q_mul, q_denotes, q_le_v, q_lt_v};

verus! {

/// Relies on rand::random::<u32>: one draw from the process-wide
/// thread-local random source; nothing is promised of its value.
#[verifier::external_body]
pub(crate) fn rand_u32() -> u32 {
    rand::random::<u32>()
}

/// A random rational sitting between `min` and `max` whenever
/// `min <= max`: `min + (max - min) k / 256` for a draw `k` below 256.
pub fn random_double(min: Q, max: Q) -> (r: Option<Q>)
    requires
        min.wf(),
        max.wf(),
    ensures
        r is Some ==> r->Some_0.wf(),
        r is Some && q_le_v(min, max) ==> q_le_v(min, r->Some_0) && q_le_v(r->Some_0, max),
        r is Some && q_lt_v(min, max) ==> q_lt_v(r->Some_0, max),
{
    let k: u32 = rand_u32() % 256;
    let t = Q { num: k as i64, den: 256 };
    let d = match q_sub(max, min) {
        Some(d) => d,
        None => {
            return None;
        },
    };
    let p = match q_mul(d, t) {
        Some(p) => p,
        None => {
            return None;
        },
    };
    let r = match q_add(min, p) {
        Some(r) => r,
        None => {
            return None;
        },
    };
    proof {
        if q_le_v(min, max) {
            lemma_affine_sandwich(min, max, d, p, r, k as int);
        }
    }
    Some(r)
}

/// An affine blend `min + (max - min) k / 256` with `0 <= k < 256` lies
/// between `min` and `max` when `min <= max`, and strictly below `max` when
/// `min < max`.
proof fn lemma_affine_sandwich(min: Q, max: Q, d: Q, p: Q, r: Q, k: int)
    requires
        min.wf(),
        max.wf(),
        d.wf(),
        p.wf(),
        r.wf(),
        0 <= k < 256,
        q_le_v(min, max),
        q_denotes(d, max.num * min.den - min.num * max.den, max.den * min.den),
        q_denotes(p, d.num * k, d.den * 256),
        q_denotes(r, min.num * p.den + p.num * min.den, min.den * p.den),
    ensures
        q_le_v(min, r),
        q_le_v(r, max),
        q_lt_v(min, max) ==> q_lt_v(r, max),
{
    assert(d.num >= 0) by (nonlinear_arith)
        requires
            d.num * (max.den * min.den) == (max.num * min.den - min.num * max.den) * d.den,
            min.num * max.den <= max.num * min.den,
            max.den > 0,
            min.den > 0,
            d.den > 0,
    ;
    assert(p.num >= 0) by (nonlinear_arith)
        requires
            p.num * (d.den * 256) == (d.num * k) * p.den,
            d.num >= 0,
            0 <= k,
            p.den > 0,
            d.den > 0,
    ;
    assert(q_le_v(min, r)) by (nonlinear_arith)
        requires
            r.num * (min.den * p.den) == (min.num * p.den + p.num * min.den) * r.den,
            p.num >= 0,
            min.den > 0,
            p.den > 0,
            r.den > 0,
    ;
    assert(p.num * d.den <= d.num * p.den) by (nonlinear_arith)
        requires
            p.num * (d.den * 256) == (d.num * k) * p.den,
            d.num >= 0,
            k < 256,
            p.den > 0,
            d.den > 0,
    ;
    assert((min.num * p.den + p.num * min.den) * (max.den * d.den) <= max.num * (min.den
        * p.den) * d.den) by (nonlinear_arith)
        requires
            p.num * d.den <= d.num * p.den,
            d.num * (max.den * min.den) == (max.num * min.den - min.num * max.den) * d.den,
            min.den > 0,
            max.den > 0,
            p.den > 0,
            d.den > 0,
    ;
    assert(q_le_v(r, max)) by (nonlinear_arith)
        requires
            r.num * (min.den * p.den) == (min.num * p.den + p.num * min.den) * r.den,
            (min.num * p.den + p.num * min.den) * (max.den * d.den) <= max.num * (min.den
                * p.den) * d.den,
            min.den > 0,
            max.den > 0,
            p.den > 0,
            r.den > 0,
            d.den > 0,
    ;
    if q_lt_v(min, max) {
        assert(d.num > 0) by (nonlinear_arith)
            requires
                d.num * (max.den * min.den) == (max.num * min.den - min.num * max.den) * d.den,
                min.num * max.den < max.num * min.den,
                max.den > 0,
                min.den > 0,
                d.den > 0,
        ;
        assert(p.num * d.den < d.num * p.den) by (nonlinear_arith)
            requires
                p.num * (d.den * 256) == (d.num * k) * p.den,
                d.num > 0,
                k < 256,
                p.den > 0,
                d.den > 0,
        ;
        assert((min.num * p.den + p.num * min.den) * (max.den * d.den) < max.num * (min.den
            * p.den) * d.den) by (nonlinear_arith)
            requires
                p.num * d.den < d.num * p.den,
                d.num * (max.den * min.den) == (max.num * min.den - min.num * max.den) * d.den,
                min.den > 0,
                max.den > 0,
                p.den > 0,
                d.den > 0,
        ;
        assert(q_lt_v(r, max)) by (nonlinear_arith)
            requires
                r.num * (min.den * p.den) == (min.num * p.den + p.num * min.den) * r.den,
                (min.num * p.den + p.num * min.den) * (max.den * d.den) < max.num * (min.den
                    * p.den) * d.den,
                min.den > 0,
                max.den > 0,
                p.den > 0,
                r.den > 0,
                d.den > 0,
        ;
    }
}

} // verus!
