//! Colors: the background gradient and pixel finalization.
//!
//! The background is the vertical gradient between white at the horizon and
//! sky blue straight up. Pixel finalization averages the accumulated color
//! over the samples, applies gamma-2 correction by a componentwise square
//! root on the grid, clamps each channel to [0, 999/1000], scales by 256 and
//! truncates to a byte.

use vstd::prelude::*;
use crate::rat::{Q, ArithError, q_add_m, q_mul, q_mul_m, q_sub_m, q_lt, q_lt_v};
use crate::sqrt::{q_sqrt, q_sqrt_m};
use crate::vec3::{Vec3, v_wf, v_add_m, v_scale_m};

verus! {

/// The pure white endpoint of the gradient.
pub open spec fn bg_white() -> Vec3 {
    Vec3 { x: Q { num: 1, den: 1 }, y: Q { num: 1, den: 1 }, z: Q { num: 1, den: 1 } }
}

/// The sky-blue endpoint of the gradient: (1/2, 7/10, 1).
pub open spec fn bg_blue() -> Vec3 {
    Vec3 { x: Q { num: 1, den: 2 }, y: Q { num: 7, den: 10 }, z: Q { num: 1, den: 1 } }
}

/// The exact background gradient at a unit direction: with
/// `t = (y + 1) / 2`, the blend `(1 - t) * white + t * blue`.
pub open spec fn bg_m(unit_direction: Vec3) -> Option<Vec3> {
    let one = Q { num: 1, den: 1 };
    match q_add_m(unit_direction.y, one) {
        Some(s) => match q_mul_m(Q { num: 1, den: 2 }, s) {
            Some(t) => match q_sub_m(one, t) {
                Some(omt) => match v_scale_m(bg_white(), omt) {
                    Some(w) => match v_scale_m(bg_blue(), t) {
                        Some(b) => v_add_m(w, b),
                        None => None,
                    },
                    None => None,
                },
                None => None,
            },
            None => None,
        },
        None => None,
    }
}

/// The background color seen along a unit direction: white at the horizon
/// blending to sky blue straight up.
pub fn background(unit_direction: &Vec3) -> (r: Option<Vec3>)
    requires
        v_wf(*unit_direction),
    ensures
        r == bg_m(*unit_direction),
        r is Some ==> v_wf(r->Some_0),
{
    let one = Q { num: 1, den: 1 };
    let s = match crate::rat::q_add(unit_direction.y, one) {
        Some(v) => v,
        None => {
            return None;
        },
    };
    let t = match q_mul(Q { num: 1, den: 2 }, s) {
        Some(v) => v,
        None => {
            return None;
        },
    };
    let omt = match crate::rat::q_sub(one, t) {
        Some(v) => v,
        None => {
            return None;
        },
    };
    let white = Vec3 { x: one, y: one, z: one };
    let blue = Vec3 { x: Q { num: 1, den: 2 }, y: Q { num: 7, den: 10 }, z: one };
    let w = match white.scale(omt) {
        Some(v) => v,
        None => {
            return None;
        },
    };
    let b = match blue.scale(t) {
        Some(v) => v,
        None => {
            return None;
        },
    };
    w.add(&b)
}

/// The exact clamp of `x` to `[min, max]`.
pub open spec fn clamp_m(x: Q, min: Q, max: Q) -> Q {
    if q_lt_v(x, min) {
        min
    } else if q_lt_v(max, x) {
        max
    } else {
        x
    }
}

/// Clamps a rational to the closed range `[min, max]`.
pub fn clamp(x: Q, min: Q, max: Q) -> (r: Q)
    requires
        x.wf(),
        min.wf(),
        max.wf(),
    ensures
        r == clamp_m(x, min, max),
        r.wf(),
{
    if q_lt(x, min) {
        min
    } else if q_lt(max, x) {
        max
    } else {
        x
    }
}

/// The exact finalization of one channel: average over the samples, gamma-2
/// square root on the grid (a negative average is clamped at zero first),
/// clamp to [0, 999/1000], scale by 256 and truncate.
pub open spec fn wc_chan_m(c: Q, spp: int) -> Option<u8> {
    let scale = Q { num: 1, den: spp as i64 };
    match q_mul_m(c, scale) {
        Some(v) => {
            let v2 = if v.num < 0 {
                Q { num: 0, den: 1 }
            } else {
                v
            };
            let g = q_sqrt_m(v2);
            let cl = clamp_m(g, Q { num: 0, den: 1 }, Q { num: 999, den: 1000 });
            Some(((cl.num as int * 256) / (cl.den as int)) as u8)
        },
        None => None,
    }
}

/// The exact finalization of a pixel: each channel finalized in turn.
pub open spec fn write_color_m(color: Vec3, spp: int) -> Option<(u8, u8, u8)> {
    match (wc_chan_m(color.x, spp), wc_chan_m(color.y, spp), wc_chan_m(color.z, spp)) {
        (Some(r), Some(g), Some(b)) => Some((r, g, b)),
        _ => None,
    }
}

/// Finalizes one channel of an accumulated pixel color.
fn wc_chan(c: Q, samples_per_pixel: u32) -> (r: Result<u8, ArithError>)
    requires
        c.wf(),
        samples_per_pixel >= 1,
    ensures
        r is Ok <==> wc_chan_m(c, samples_per_pixel as int) is Some,
        r is Ok ==> r->Ok_0 == wc_chan_m(c, samples_per_pixel as int)->Some_0,
{
    let scale = Q { num: 1, den: samples_per_pixel as i64 };
    let v = match q_mul(c, scale) {
        Some(v) => v,
        None => {
            return Err(ArithError);
        },
    };
    let v2 = if v.num < 0 {
        Q { num: 0, den: 1 }
    } else {
        v
    };
    let g = q_sqrt(v2);
    let cl = clamp(g, Q { num: 0, den: 1 }, Q { num: 999, den: 1000 });
    proof {
        lemma_byte_range(cl);
    }
    let byte: u128 = ((cl.num as u128) * 256) / (cl.den as u128);
    Ok(byte as u8)
}

/// A clamped non-negative channel value, scaled by 256 and truncated, is a
/// byte.
proof fn lemma_byte_range(cl: Q)
    requires
        cl.wf(),
        cl.num >= 0,
        cl.num * 1000 <= 999 * cl.den,
    ensures
        0 <= (cl.num as int * 256) / (cl.den as int) <= 255,
{
    let n: int = cl.num as int * 256;
    let d: int = cl.den as int;
    assert(n * 1000 <= 999 * 256 * d) by (nonlinear_arith)
        requires
            n == cl.num as int * 256,
            d == cl.den as int,
            cl.num * 1000 <= 999 * cl.den,
    ;
    vstd::arithmetic::div_mod::lemma_fundamental_div_mod(n, d);
    assert(0 <= n / d && n / d <= 255) by (nonlinear_arith)
        requires
            d > 0,
            n >= 0,
            n * 1000 <= 999 * 256 * d,
            n == d * (n / d) + n % d,
            0 <= n % d < d,
    ;
}

/// Finalizes an accumulated pixel color into a byte triple: average by the
/// number of samples, gamma-2 square root, clamp to [0, 999/1000], scale by
/// 256 and truncate.
pub fn write_color(color: &Vec3, samples_per_pixel: u32) -> (r: Result<(u8, u8, u8), ArithError>)
    requires
        v_wf(*color),
        samples_per_pixel >= 1,
    ensures
        r is Ok <==> write_color_m(*color, samples_per_pixel as int) is Some,
        r is Ok ==> r->Ok_0 == write_color_m(*color, samples_per_pixel as int)->Some_0,
{
    let rb = match wc_chan(color.x, samples_per_pixel) {
        Ok(v) => v,
        Err(e) => {
            return Err(e);
        },
    };
    let gb = match wc_chan(color.y, samples_per_pixel) {
        Ok(v) => v,
        Err(e) => {
            return Err(e);
        },
    };
    let bb = match wc_chan(color.z, samples_per_pixel) {
        Ok(v) => v,
        Err(e) => {
            return Err(e);
        },
    };
    Ok((rb, gb, bb))
}

} // verus!
