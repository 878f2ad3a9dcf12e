//! Square roots on the rational grid.
//!
//! A square root of a rational is irrational in general, so the core uses the
//! floor square root on a fixed grid of denominator 256: the result is the
//! largest multiple of 1/256 whose square does not exceed the argument. The
//! contract pins the result exactly, so a perfect square of a grid point (such
//! as 1, 1/4 or 1/16) comes back exactly.

use vstd::prelude::*;
use crate::rat::Q;

verus! {

/// The floor integer square root, defined by counting up.
pub open spec fn isqrt_s(m: int) -> int
    decreases m,
{
    if m < 1 {
        0
    } else {
        let r = isqrt_s(m - 1);
        if (r + 1) * (r + 1) <= m {
            r + 1
        } else {
            r
        }
    }
}

/// The floor integer square root brackets its argument between two
/// consecutive squares.
pub proof fn lemma_isqrt_bounds(m: int)
    requires
        m >= 0,
    ensures
        isqrt_s(m) >= 0,
        isqrt_s(m) * isqrt_s(m) <= m,
        m < (isqrt_s(m) + 1) * (isqrt_s(m) + 1),
    decreases m,
{
    if m >= 1 {
        lemma_isqrt_bounds(m - 1);
        let r = isqrt_s(m - 1);
        if (r + 1) * (r + 1) <= m {
            assert(m < ((r + 1) + 1) * ((r + 1) + 1)) by (nonlinear_arith)
                requires
                    r >= 0,
                    m - 1 < (r + 1) * (r + 1),
                    (r + 1) * (r + 1) <= m,
            ;
        }
    }
}

/// The floor integer square root is never negative.
pub proof fn lemma_isqrt_nonneg(m: int)
    ensures
        isqrt_s(m) >= 0,
    decreases m,
{
    if m >= 1 {
        lemma_isqrt_nonneg(m - 1);
    }
}

/// Any bracketing value is the floor integer square root: the bracket
/// determines the root uniquely.
pub proof fn lemma_isqrt_unique(m: int, r: int)
    requires
        m >= 0,
        r >= 0,
        r * r <= m,
        m < (r + 1) * (r + 1),
    ensures
        r == isqrt_s(m),
{
    lemma_isqrt_bounds(m);
    let s = isqrt_s(m);
    assert(r == s) by (nonlinear_arith)
        requires
            r >= 0,
            s >= 0,
            r * r <= m,
            m < (r + 1) * (r + 1),
            s * s <= m,
            m < (s + 1) * (s + 1),
    ;
}

/// The floor integer square root, by binary search.
pub fn isqrt_u128(m: u128) -> (r: u128)
    ensures
        r as int == isqrt_s(m as int),
        r * r <= m,
        m < (r + 1) * (r + 1),
{
    let mut lo: u128 = 0;
    let mut hi: u128 = 0x1_0000_0000_0000_0000;
    assert(m < hi * hi) by (nonlinear_arith)
        requires
            hi == 0x1_0000_0000_0000_0000,
            m <= 0xffff_ffff_ffff_ffff_ffff_ffff_ffff_ffff,
    ;
    while lo + 1 < hi
        invariant
            lo < hi,
            hi <= 0x1_0000_0000_0000_0000,
            lo * lo <= m,
            m < hi * hi,
        decreases hi - lo,
    {
        let mid: u128 = lo + (hi - lo) / 2;
        assert(mid * mid <= 0xffff_ffff_ffff_ffff_ffff_ffff_ffff_ffff) by (nonlinear_arith)
            requires
                mid < 0x1_0000_0000_0000_0000,
        ;
        if mid * mid <= m {
            lo = mid;
        } else {
            hi = mid;
        }
    }
    proof {
        lemma_isqrt_unique(m as int, lo as int);
    }
    lo
}

/// The grid square root: the largest multiple of 1/256 whose square is at
/// most `x`, written as the fraction `k / 256`.
pub open spec fn q_sqrt_m(x: Q) -> Q {
    Q { num: isqrt_s((x.num as int * 65536) / (x.den as int)) as i64, den: 256 }
}

/// The grid square root of a non-negative in-range value is itself
/// non-negative and in range, with denominator 256.
pub proof fn lemma_q_sqrt_m_bounds(x: Q)
    requires
        x.wf(),
        x.num >= 0,
    ensures
        q_sqrt_m(x).den == 256,
        0 <= q_sqrt_m(x).num <= 0x2_0000_0000_0000,
{
    let ai = x.num as int * 65536;
    let di = x.den as int;
    let m = ai / di;
    vstd::arithmetic::div_mod::lemma_fundamental_div_mod(ai, di);
    assert(0 <= m <= ai) by (nonlinear_arith)
        requires
            ai >= 0,
            di > 0,
            ai == di * m + ai % di,
            0 <= ai % di < di,
    ;
    lemma_isqrt_bounds(m);
    let k = isqrt_s(m);
    assert(k <= 0x2_0000_0000_0000) by (nonlinear_arith)
        requires
            k >= 0,
            k * k <= m,
            m <= 0x8_0000_0000_0000_0000_0000,
    ;
}

/// The grid square root of a non-negative rational. The bracketing clauses
/// say, in cross-multiplied form, that the square of the result is at most
/// `x` and that one grid step higher already overshoots.
pub fn q_sqrt(x: Q) -> (r: Q)
    requires
        x.wf(),
        x.num >= 0,
    ensures
        r == q_sqrt_m(x),
        r.wf(),
        r.den == 256,
        0 <= r.num <= 0x2_0000_0000_0000,
        r.num * r.num * x.den <= x.num * 65536,
        x.num * 65536 < (r.num + 1) * (r.num + 1) * x.den,
{
    let a: u128 = (x.num as u128) * 65536;
    let m: u128 = a / (x.den as u128);
    let k: u128 = isqrt_u128(m);
    proof {
        let ai = x.num as int * 65536;
        let di = x.den as int;
        let mi = ai / di;
        let ki = k as int;
        vstd::arithmetic::div_mod::lemma_fundamental_div_mod(ai, di);
        assert(ki * ki * di <= ai && ki <= 0x2_0000_0000_0000) by (nonlinear_arith)
            requires
                ki >= 0,
                di > 0,
                ki * ki <= mi,
                ai == di * mi + ai % di,
                0 <= ai % di < di,
                ai <= 0x8_0000_0000_0000_0000_0000,
                di <= 0x8000_0000_0000_0000,
        ;
        assert(ai < (ki + 1) * (ki + 1) * di) by (nonlinear_arith)
            requires
                ki >= 0,
                di > 0,
                mi < (ki + 1) * (ki + 1),
                ai == di * mi + ai % di,
                0 <= ai % di < di,
        ;
    }
    Q { num: k as i64, den: 256 }
}

} // verus!
