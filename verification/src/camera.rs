//! The camera: maps normalized image-plane coordinates to world-space rays.
//!
//! The orientation is fixed: the camera sits at the origin and looks down the
//! negative third axis at a viewport one focal length away. The vertical
//! field of view enters as the tangent of its half angle, a plain rational;
//! the trigonometry that produces it from an angle in degrees belongs to the
//! caller.

use vstd::prelude::*;
use crate::rat::{Q, q_mul, q_mul_m, q_div, q_div_m};
use crate::vec3::{Vec3, v_wf, v_add_m, v_sub_m, v_scale_m};
use crate::ray::{Ray, ray_wf};

verus! {

/// The camera: an origin and the viewport frame it shoots through.
#[derive(Clone, Copy, Debug, PartialEq, Eq, Structural)]
pub struct Camera {
    pub origin: Vec3,
    pub lower_left_corner: Vec3,
    pub horizontal: Vec3,
    pub vertical: Vec3,
}

/// Well-formedness of every field of the camera.
pub open spec fn camera_wf(c: Camera) -> bool {
    v_wf(c.origin) && v_wf(c.lower_left_corner) && v_wf(c.horizontal) && v_wf(c.vertical)
}

/// The exact camera construction from the tangent of the half field of view
/// and the aspect ratio: viewport height `2 h`, width `aspect * height`,
/// frame one focal length down the negative third axis.
pub open spec fn camera_new_m(half_tan_vfov: Q, aspect_ratio: Q) -> Option<Camera> {
    let zero = Q { num: 0, den: 1 };
    match q_mul_m(Q { num: 2, den: 1 }, half_tan_vfov) {
        Some(vh) => match q_mul_m(aspect_ratio, vh) {
            Some(vw) => match q_div_m(vh, Q { num: 2, den: 1 }) {
                Some(half_vh) => match q_div_m(vw, Q { num: 2, den: 1 }) {
                    Some(half_vw) => {
                        let neg_half_vw = Q { num: (-(half_vw.num as int)) as i64, den: half_vw.den };
                        let neg_half_vh = Q { num: (-(half_vh.num as int)) as i64, den: half_vh.den };
                        Some(
                            Camera {
                                origin: Vec3 { x: zero, y: zero, z: zero },
                                horizontal: Vec3 { x: vw, y: zero, z: zero },
                                vertical: Vec3 { x: zero, y: vh, z: zero },
                                lower_left_corner: Vec3 {
                                    x: neg_half_vw,
                                    y: neg_half_vh,
                                    z: Q { num: -1i64, den: 1 },
                                },
                            },
                        )
                    },
                    None => None,
                },
                None => None,
            },
            None => None,
        },
        None => None,
    }
}

/// The exact ray through the viewport point `(u, v)`: from the origin toward
/// `lower_left_corner + u * horizontal + v * vertical - origin`.
pub open spec fn get_ray_m(c: Camera, u: Q, v: Q) -> Option<Ray> {
    match v_scale_m(c.horizontal, u) {
        Some(uh) => match v_scale_m(c.vertical, v) {
            Some(vv) => match v_add_m(c.lower_left_corner, uh) {
                Some(s1) => match v_add_m(s1, vv) {
                    Some(s2) => match v_sub_m(s2, c.origin) {
                        Some(dir) => Some(Ray { origin: c.origin, direction: dir }),
                        None => None,
                    },
                    None => None,
                },
                None => None,
            },
            None => None,
        },
        None => None,
    }
}

impl Default for Camera {
    /// The default camera: a viewport of height 2 and width 32/9 (a 16:9
    /// aspect ratio) one focal length down the negative third axis.
    fn default() -> (c: Camera)
        ensures
            camera_wf(c),
            c.origin == (Vec3 {
                x: Q { num: 0, den: 1 },
                y: Q { num: 0, den: 1 },
                z: Q { num: 0, den: 1 },
            }),
            c.horizontal == (Vec3 {
                x: Q { num: 32, den: 9 },
                y: Q { num: 0, den: 1 },
                z: Q { num: 0, den: 1 },
            }),
            c.vertical == (Vec3 {
                x: Q { num: 0, den: 1 },
                y: Q { num: 2, den: 1 },
                z: Q { num: 0, den: 1 },
            }),
            c.lower_left_corner == (Vec3 {
                x: Q { num: -16i64, den: 9 },
                y: Q { num: -1i64, den: 1 },
                z: Q { num: -1i64, den: 1 },
            }),
    {
        let zero = Q { num: 0, den: 1 };
        Camera {
            origin: Vec3 { x: zero, y: zero, z: zero },
            horizontal: Vec3 { x: Q { num: 32, den: 9 }, y: zero, z: zero },
            vertical: Vec3 { x: zero, y: Q { num: 2, den: 1 }, z: zero },
            lower_left_corner: Vec3 {
                x: Q { num: -16, den: 9 },
                y: Q { num: -1, den: 1 },
                z: Q { num: -1, den: 1 },
            },
        }
    }
}

impl Camera {
    /// Builds a camera from the tangent of the half vertical field of view
    /// and the aspect ratio, as the spec mirror gives it.
    pub fn new(half_tan_vfov: Q, aspect_ratio: Q) -> (r: Option<Camera>)
        requires
            half_tan_vfov.wf(),
            aspect_ratio.wf(),
        ensures
            r == camera_new_m(half_tan_vfov, aspect_ratio),
            r is Some ==> camera_wf(r->Some_0),
    {
        let zero = Q { num: 0, den: 1 };
        let two = Q { num: 2, den: 1 };
        let vh = match q_mul(two, half_tan_vfov) {
            Some(v) => v,
            None => {
                return None;
            },
        };
        let vw = match q_mul(aspect_ratio, vh) {
            Some(v) => v,
            None => {
                return None;
            },
        };
        let half_vh = match q_div(vh, two) {
            Some(v) => v,
            None => {
                return None;
            },
        };
        let half_vw = match q_div(vw, two) {
            Some(v) => v,
            None => {
                return None;
            },
        };
        Some(
            Camera {
                origin: Vec3 { x: zero, y: zero, z: zero },
                horizontal: Vec3 { x: vw, y: zero, z: zero },
                vertical: Vec3 { x: zero, y: vh, z: zero },
                lower_left_corner: Vec3 {
                    x: crate::rat::q_neg(half_vw),
                    y: crate::rat::q_neg(half_vh),
                    z: Q { num: -1, den: 1 },
                },
            },
        )
    }

    /// The ray through the viewport point `(u, v)`, with `u` and `v` in
    /// `[0, 1]` spanning the image plane.
    pub fn get_ray(&self, u: Q, v: Q) -> (r: Option<Ray>)
        requires
            camera_wf(*self),
            u.wf(),
            v.wf(),
        ensures
            r == get_ray_m(*self, u, v),
            r is Some ==> ray_wf(r->Some_0) && r->Some_0.origin == self.origin,
    {
        let uh = match self.horizontal.scale(u) {
            Some(w) => w,
            None => {
                return None;
            },
        };
        let vv = match self.vertical.scale(v) {
            Some(w) => w,
            None => {
                return None;
            },
        };
        let s1 = match self.lower_left_corner.add(&uh) {
            Some(w) => w,
            None => {
                return None;
            },
        };
        let s2 = match s1.add(&vv) {
            Some(w) => w,
            None => {
                return None;
            },
        };
        match s2.sub(&self.origin) {
            Some(dir) => Some(Ray { origin: self.origin, direction: dir }),
            None => None,
        }
    }
}

} // verus!
