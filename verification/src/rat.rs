//! Exact rational scalars.
//!
//! Every quantity in the rendering core is a fraction `num / den` of 64-bit
//! integers with a positive denominator. Arithmetic is carried out exactly in
//! 128-bit intermediates, reduced by the greatest common divisor, and an
//! operation reports `None` when the reduced result does not fit back into
//! 64 bits. Each operation's contract gives the result exactly, through a
//! spec-level mirror of the computation, so nothing about rounding or
//! representation is left open.

use vstd::prelude::*;

verus! {

/// The error of a computation whose exact rational result no longer fits in
/// 64 bits after reduction (or whose grid normalization degenerated).
#[derive(Clone, Copy, Debug, PartialEq, Eq, Structural)]
pub struct ArithError;

/// A rational scalar: `num / den`, with `den` always positive and `num`
/// never the minimum 64-bit value, so that negation cannot overflow.
#[derive(Clone, Copy, Debug, PartialEq, Eq, Structural)]
pub struct Q {
    pub num: i64,
    pub den: i64,
}

impl Q {
    /// A rational is well formed when its denominator is positive and its
    /// numerator's magnitude fits in 63 bits.
    pub open spec fn wf(self) -> bool {
        self.den > 0 && -0x7fff_ffff_ffff_ffff <= self.num
    }

    /// The rational number zero.
    pub fn zero() -> (r: Q)
        ensures
            r.wf(),
            r.num == 0 && r.den == 1,
    {
        Q { num: 0, den: 1 }
    }

    /// The rational number one.
    pub fn one() -> (r: Q)
        ensures
            r.wf(),
            r.num == 1 && r.den == 1,
    {
        Q { num: 1, den: 1 }
    }

    /// The rational with the given integer value.
    pub fn from_i64(n: i64) -> (r: Q)
        requires
            -0x7fff_ffff_ffff_ffff <= n,
        ensures
            r.wf(),
            r.num == n && r.den == 1,
    {
        Q { num: n, den: 1 }
    }

    /// The rational `n / d`.
    pub fn frac(n: i64, d: i64) -> (r: Q)
        requires
            -0x7fff_ffff_ffff_ffff <= n,
            d > 0,
        ensures
            r.wf(),
            r.num == n && r.den == d,
    {
        Q { num: n, den: d }
    }
}

/// The magnitude of an integer.
pub open spec fn iabs(n: int) -> int {
    if n < 0 { -n } else { n }
}

/// Whether an integer's magnitude fits in 63 bits.
pub open spec fn fits_i64(n: int) -> bool {
    -0x7fff_ffff_ffff_ffff <= n <= 0x7fff_ffff_ffff_ffff
}

/// Euclid's greatest-common-divisor recursion.
pub open spec fn gcd_s(a: nat, b: nat) -> nat
    decreases b,
{
    if b == 0 { a } else { gcd_s(b, a % b) }
}

/// What two rationals denote the same number: cross multiplication agrees.
pub open spec fn q_eqv_v(a: Q, b: Q) -> bool {
    a.num * b.den == b.num * a.den
}

/// Whether the rational `a` denotes a number strictly below `b`
/// (both well formed, so the cross multiplication keeps the order).
pub open spec fn q_lt_v(a: Q, b: Q) -> bool {
    a.num * b.den < b.num * a.den
}

/// Whether the rational `a` denotes a number at or below `b`.
pub open spec fn q_le_v(a: Q, b: Q) -> bool {
    a.num * b.den <= b.num * a.den
}

/// Whether the rational `q` denotes the fraction `n / d`.
pub open spec fn q_denotes(q: Q, n: int, d: int) -> bool {
    q.num * d == n * q.den
}

/// Reduction of the fraction `n / d` by the greatest common divisor, and the
/// check that the reduced fraction fits in 64 bits: the exact meaning of what
/// the executable normalization step returns.
pub open spec fn q_norm_m(n: int, d: int) -> Option<Q> {
    let un = iabs(n);
    let g = gcd_s(un as nat, d as nat) as int;
    if g >= 1 && un % g == 0 && d % g == 0 {
        let um = un / g;
        let dd = d / g;
        let nn: int = if n < 0 { -um } else { um };
        if um <= 0x7fff_ffff_ffff_ffff && 1 <= dd <= 0x7fff_ffff_ffff_ffff {
            Some(Q { num: nn as i64, den: dd as i64 })
        } else {
            None
        }
    } else {
        None
    }
}

/// The exact sum of two rationals, reduced, or `None` when it does not fit.
pub open spec fn q_add_m(a: Q, b: Q) -> Option<Q> {
    q_norm_m(a.num * b.den + b.num * a.den, a.den * b.den)
}

/// The exact difference of two rationals, reduced, or `None` when it does not fit.
pub open spec fn q_sub_m(a: Q, b: Q) -> Option<Q> {
    q_norm_m(a.num * b.den - b.num * a.den, a.den * b.den)
}

/// The exact product of two rationals, reduced, or `None` when it does not fit.
pub open spec fn q_mul_m(a: Q, b: Q) -> Option<Q> {
    q_norm_m(a.num * b.num, a.den * b.den)
}

/// The exact quotient of two rationals, reduced; `None` when the divisor is
/// zero or the result does not fit.
pub open spec fn q_div_m(a: Q, b: Q) -> Option<Q> {
    if b.num == 0 {
        None
    } else if b.num < 0 {
        q_norm_m(-(a.num * b.den), a.den * -b.num)
    } else {
        q_norm_m(a.num * b.den, a.den * b.num)
    }
}

/// Magnitudes of 64-bit factors: a product of a 64-bit value and a positive
/// 63-bit value stays clear of the 128-bit limits.
pub proof fn lemma_mul_i64(a: int, b: int) by (nonlinear_arith)
    requires
        -0x8000_0000_0000_0000 <= a <= 0x7fff_ffff_ffff_ffff,
        -0x8000_0000_0000_0000 <= b <= 0x7fff_ffff_ffff_ffff,
    ensures
        -0x4000_0000_0000_0000_0000_0000_0000_0000 <= a * b
            <= 0x4000_0000_0000_0000_0000_0000_0000_0000,
        b > 0 ==> -0x3fff_ffff_ffff_ffff_c000_0000_0000_0000 <= a * b
            <= 0x3fff_ffff_ffff_ffff_8000_0000_0000_0001,
{
}

/// A reduced fraction denotes the same number as the fraction it came from.
pub proof fn lemma_norm_denotes(n: int, d: int)
    requires
        d > 0,
        q_norm_m(n, d) is Some,
    ensures
        q_norm_m(n, d)->Some_0.wf(),
        q_denotes(q_norm_m(n, d)->Some_0, n, d),
{
    let un = iabs(n);
    let g = gcd_s(un as nat, d as nat) as int;
    let um = un / g;
    let dd = d / g;
    let nn: int = if n < 0 { -um } else { um };
    vstd::arithmetic::div_mod::lemma_fundamental_div_mod(un, g);
    vstd::arithmetic::div_mod::lemma_fundamental_div_mod(d, g);
    assert(un == g * um);
    assert(d == g * dd);
    assert(dd >= 1);
    assert(n == g * nn) by (nonlinear_arith)
        requires
            un == g * um,
            un == iabs(n),
            nn == (if n < 0 { -um } else { um }),
    ;
    assert(nn * d == n * dd) by (nonlinear_arith)
        requires
            n == g * nn,
            d == g * dd,
            g >= 1,
    ;
}

/// Normalization leaves a fraction with coprime parts as it stands.
pub proof fn lemma_norm_one(n: int, d: int)
    requires
        0 < d <= 0x7fff_ffff_ffff_ffff,
        fits_i64(n),
        gcd_s(iabs(n) as nat, d as nat) == 1,
    ensures
        q_norm_m(n, d) == Some(Q { num: n as i64, den: d as i64 }),
{
    let un = iabs(n);
    assert(un % 1 == 0 && un / 1 == un && d % 1 == 0 && d / 1 == d) by (nonlinear_arith)
        requires
            un >= 0,
            d > 0,
    ;
}

/// Normalization of a zero numerator gives exactly zero over one.
pub proof fn lemma_norm_zero(d: int)
    requires
        0 < d <= 0x7fff_ffff_ffff_ffff,
    ensures
        q_norm_m(0, d) == Some(Q { num: 0, den: 1 }),
{
    reveal_with_fuel(gcd_s, 3);
    assert(0int % d == 0 && d % d == 0 && 0int / d == 0 && d / d == 1) by (nonlinear_arith)
        requires
            d > 0,
    ;
    assert(gcd_s(0, d as nat) == d as nat);
}

/// Multiplying any rational by zero-over-one gives exactly zero-over-one.
pub proof fn lemma_mul_zero(a: Q)
    requires
        a.wf(),
    ensures
        q_mul_m(a, Q { num: 0, den: 1 }) == Some(Q { num: 0, den: 1 }),
{
    assert(a.num * 0 == 0 && a.den * 1 == a.den) by (nonlinear_arith);
    lemma_norm_zero(a.den as int);
}

/// Whatever normalization returns is well formed.
pub proof fn lemma_norm_wf(n: int, d: int)
    requires
        q_norm_m(n, d) is Some,
    ensures
        q_norm_m(n, d)->Some_0.wf(),
{
}

/// Whatever division returns is well formed.
pub proof fn lemma_div_wf(a: Q, b: Q)
    requires
        q_div_m(a, b) is Some,
    ensures
        q_div_m(a, b)->Some_0.wf(),
{
    if b.num < 0 {
        lemma_norm_wf(-(a.num * b.den), a.den * -b.num);
    } else {
        lemma_norm_wf(a.num * b.den, a.den * b.num);
    }
}

/// A common positive factor cancels from an equality.
pub proof fn lemma_cancel_eq(x: int, y: int, c: int) by (nonlinear_arith)
    requires
        c > 0,
        x * c == y * c,
    ensures
        x == y,
{
}

/// Two rationals that denote fractions over one denominator compare as the
/// numerators do.
pub proof fn lemma_le_from_denotes(x: Q, y: Q, nx: int, ny: int, d: int) by (nonlinear_arith)
    requires
        x.den > 0,
        y.den > 0,
        d > 0,
        q_denotes(x, nx, d),
        q_denotes(y, ny, d),
        nx <= ny,
    ensures
        q_le_v(x, y),
{
}

/// Division by one positive rational keeps the order of the numerators'
/// fractions.
pub proof fn lemma_div_monotone(n0: Q, n1: Q, a: Q, t0: Q, t1: Q) by (nonlinear_arith)
    requires
        n0.den > 0,
        n1.den > 0,
        a.den > 0,
        a.num > 0,
        t0.den > 0,
        t1.den > 0,
        q_le_v(n0, n1),
        q_denotes(t0, n0.num * a.den, n0.den * a.num),
        q_denotes(t1, n1.num * a.den, n1.den * a.num),
    ensures
        q_le_v(t0, t1),
{
}

/// Order is transitive: at-or-below then strictly-below.
pub proof fn lemma_le_lt_trans(x: Q, y: Q, z: Q) by (nonlinear_arith)
    requires
        x.den > 0,
        y.den > 0,
        z.den > 0,
        q_le_v(x, y),
        q_lt_v(y, z),
    ensures
        q_lt_v(x, z),
{
}

/// Order is transitive: strictly-below then at-or-below.
pub proof fn lemma_lt_le_trans(x: Q, y: Q, z: Q) by (nonlinear_arith)
    requires
        x.den > 0,
        y.den > 0,
        z.den > 0,
        q_lt_v(x, y),
        q_le_v(y, z),
    ensures
        q_lt_v(x, z),
{
}

/// Euclid's algorithm, executable: returns exactly what the spec-level
/// recursion computes.
pub fn gcd_u128(a0: u128, b0: u128) -> (g: u128)
    ensures
        g as nat == gcd_s(a0 as nat, b0 as nat),
        b0 > 0 ==> g >= 1,
{
    let mut x: u128 = a0;
    let mut y: u128 = b0;
    while y != 0
        invariant
            gcd_s(x as nat, y as nat) == gcd_s(a0 as nat, b0 as nat),
            (x > 0 || y > 0) == (a0 > 0 || b0 > 0),
        decreases y,
    {
        let t: u128 = x % y;
        assert(gcd_s(x as nat, y as nat) == gcd_s(y as nat, t as nat));
        x = y;
        y = t;
    }
    x
}

/// Reduces the fraction `n / d` and fits it into a rational scalar.
pub fn q_norm(n: i128, d: i128) -> (r: Option<Q>)
    requires
        d > 0,
        -0x7fff_ffff_ffff_ffff_ffff_ffff_ffff_ffff <= n,
    ensures
        r == q_norm_m(n as int, d as int),
        r is Some ==> r->Some_0.wf(),
{
    let un: u128 = if n < 0 { (-n) as u128 } else { n as u128 };
    let ud: u128 = d as u128;
    assert(un as int == iabs(n as int));
    let g: u128 = gcd_u128(un, ud);
    if g >= 1 && un % g == 0 && ud % g == 0 {
        let um: u128 = un / g;
        let dd: u128 = ud / g;
        if um <= 0x7fff_ffff_ffff_ffff && 1 <= dd && dd <= 0x7fff_ffff_ffff_ffff {
            let nn: i64 = if n < 0 { -(um as i64) } else { um as i64 };
            let q = Q { num: nn, den: dd as i64 };
            proof {
                lemma_norm_denotes(n as int, d as int);
            }
            Some(q)
        } else {
            None
        }
    } else {
        None
    }
}

/// The exact sum of two rationals.
pub fn q_add(a: Q, b: Q) -> (r: Option<Q>)
    requires
        a.wf(),
        b.wf(),
    ensures
        r == q_add_m(a, b),
        r is Some ==> r->Some_0.wf() && q_denotes(
            r->Some_0,
            a.num * b.den + b.num * a.den,
            a.den * b.den,
        ),
{
    proof {
        lemma_mul_i64(a.num as int, b.den as int);
        lemma_mul_i64(b.num as int, a.den as int);
        lemma_mul_i64(a.den as int, b.den as int);
    }
    let n: i128 = (a.num as i128) * (b.den as i128) + (b.num as i128) * (a.den as i128);
    let d: i128 = (a.den as i128) * (b.den as i128);
    assert(d > 0) by (nonlinear_arith)
        requires
            a.den > 0,
            b.den > 0,
            d == a.den as int * b.den as int,
    ;
    let r = q_norm(n, d);
    proof {
        if r is Some {
            lemma_norm_denotes(n as int, d as int);
        }
    }
    r
}

/// The exact difference of two rationals.
pub fn q_sub(a: Q, b: Q) -> (r: Option<Q>)
    requires
        a.wf(),
        b.wf(),
    ensures
        r == q_sub_m(a, b),
        r is Some ==> r->Some_0.wf() && q_denotes(
            r->Some_0,
            a.num * b.den - b.num * a.den,
            a.den * b.den,
        ),
{
    proof {
        lemma_mul_i64(a.num as int, b.den as int);
        lemma_mul_i64(b.num as int, a.den as int);
        lemma_mul_i64(a.den as int, b.den as int);
    }
    let n: i128 = (a.num as i128) * (b.den as i128) - (b.num as i128) * (a.den as i128);
    let d: i128 = (a.den as i128) * (b.den as i128);
    assert(d > 0) by (nonlinear_arith)
        requires
            a.den > 0,
            b.den > 0,
            d == a.den as int * b.den as int,
    ;
    let r = q_norm(n, d);
    proof {
        if r is Some {
            lemma_norm_denotes(n as int, d as int);
        }
    }
    r
}

/// The exact product of two rationals.
pub fn q_mul(a: Q, b: Q) -> (r: Option<Q>)
    requires
        a.wf(),
        b.wf(),
    ensures
        r == q_mul_m(a, b),
        r is Some ==> r->Some_0.wf() && q_denotes(r->Some_0, a.num * b.num, a.den * b.den),
{
    proof {
        lemma_mul_i64(a.num as int, b.num as int);
        lemma_mul_i64(a.den as int, b.den as int);
    }
    let n: i128 = (a.num as i128) * (b.num as i128);
    let d: i128 = (a.den as i128) * (b.den as i128);
    assert(d > 0) by (nonlinear_arith)
        requires
            a.den > 0,
            b.den > 0,
            d == a.den as int * b.den as int,
    ;
    let r = q_norm(n, d);
    proof {
        if r is Some {
            lemma_norm_denotes(n as int, d as int);
        }
    }
    r
}

/// The exact quotient of two rationals; `None` when the divisor is zero.
pub fn q_div(a: Q, b: Q) -> (r: Option<Q>)
    requires
        a.wf(),
        b.wf(),
    ensures
        r == q_div_m(a, b),
        r is Some ==> r->Some_0.wf(),
        b.num == 0 ==> r is None,
{
    if b.num == 0 {
        return None;
    }
    proof {
        lemma_mul_i64(a.num as int, b.den as int);
        lemma_mul_i64(a.den as int, b.num as int);
        lemma_mul_i64(a.den as int, -(b.num as int));
    }
    if b.num < 0 {
        let n: i128 = -((a.num as i128) * (b.den as i128));
        let d: i128 = (a.den as i128) * (-(b.num as i128));
        assert(d > 0) by (nonlinear_arith)
            requires
                a.den > 0,
                b.num < 0,
                d == a.den as int * -(b.num as int),
        ;
        q_norm(n, d)
    } else {
        let n: i128 = (a.num as i128) * (b.den as i128);
        let d: i128 = (a.den as i128) * (b.num as i128);
        assert(d > 0) by (nonlinear_arith)
            requires
                a.den > 0,
                b.num > 0,
                d == a.den as int * b.num as int,
        ;
        q_norm(n, d)
    }
}

/// The magnitude of a rational; always exact, never out of range.
pub fn q_abs(a: Q) -> (r: Q)
    requires
        a.wf(),
    ensures
        r.wf(),
        r.num == iabs(a.num as int) && r.den == a.den,
        r.num >= 0,
{
    if a.num < 0 {
        Q { num: -a.num, den: a.den }
    } else {
        a
    }
}

/// The smaller of two rationals by value (the first on a tie).
pub open spec fn q_min_m(a: Q, b: Q) -> Q {
    if q_le_v(a, b) { a } else { b }
}

/// Returns the smaller of two rationals by value.
pub fn q_min(a: Q, b: Q) -> (r: Q)
    requires
        a.wf(),
        b.wf(),
    ensures
        r == q_min_m(a, b),
        r.wf(),
{
    if q_le(a, b) {
        a
    } else {
        b
    }
}

/// The exact negation.
pub open spec fn q_neg_m(a: Q) -> Q {
    Q { num: (-(a.num as int)) as i64, den: a.den }
}

/// Negation; always exact, never out of range.
pub fn q_neg(a: Q) -> (r: Q)
    requires
        a.wf(),
    ensures
        r.wf(),
        r.num == -a.num && r.den == a.den,
        r == q_neg_m(a),
{
    Q { num: -a.num, den: a.den }
}

/// Exact order test: whether `a` is strictly below `b`.
pub fn q_lt(a: Q, b: Q) -> (r: bool)
    requires
        a.wf(),
        b.wf(),
    ensures
        r == q_lt_v(a, b),
{
    proof {
        lemma_mul_i64(a.num as int, b.den as int);
        lemma_mul_i64(b.num as int, a.den as int);
    }
    (a.num as i128) * (b.den as i128) < (b.num as i128) * (a.den as i128)
}

/// Exact order test: whether `a` is at or below `b`.
pub fn q_le(a: Q, b: Q) -> (r: bool)
    requires
        a.wf(),
        b.wf(),
    ensures
        r == q_le_v(a, b),
{
    proof {
        lemma_mul_i64(a.num as int, b.den as int);
        lemma_mul_i64(b.num as int, a.den as int);
    }
    (a.num as i128) * (b.den as i128) <= (b.num as i128) * (a.den as i128)
}

/// Exact value-equality test.
pub fn q_eq(a: Q, b: Q) -> (r: bool)
    requires
        a.wf(),
        b.wf(),
    ensures
        r == q_eqv_v(a, b),
{
    proof {
        lemma_mul_i64(a.num as int, b.den as int);
        lemma_mul_i64(b.num as int, a.den as int);
    }
    (a.num as i128) * (b.den as i128) == (b.num as i128) * (a.den as i128)
}

} // verus!
