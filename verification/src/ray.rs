//! Rays: an origin and a direction.

use vstd::prelude::*;
use crate::rat::Q;
use crate::vec3::{Vec3, v_wf, v_add_m, v_scale_m};

verus! {

/// A ray: all points `origin + t * direction` for a parameter `t`.
#[derive(Clone, Copy, Debug, PartialEq, Eq, Structural)]
pub struct Ray {
    pub origin: Vec3,
    pub direction: Vec3,
}

/// Well-formedness of both endpoints.
pub open spec fn ray_wf(r: Ray) -> bool {
    v_wf(r.origin) && v_wf(r.direction)
}

/// The exact point of the ray at parameter `t`.
pub open spec fn ray_at_m(r: Ray, t: Q) -> Option<Vec3> {
    match v_scale_m(r.direction, t) {
        Some(s) => v_add_m(r.origin, s),
        None => None,
    }
}

impl Ray {
    /// The ray's origin.
    pub fn origin(&self) -> (r: Vec3)
        ensures
            r == self.origin,
    {
        self.origin
    }

    /// The ray's direction.
    pub fn direction(&self) -> (r: Vec3)
        ensures
            r == self.direction,
    {
        self.direction
    }

    /// The point `origin + t * direction`.
    pub fn at(&self, t: Q) -> (r: Option<Vec3>)
        requires
            ray_wf(*self),
            t.wf(),
        ensures
            r == ray_at_m(*self, t),
            r is Some ==> v_wf(r->Some_0),
    {
        match self.direction.scale(t) {
            Some(s) => self.origin.add(&s),
            None => None,
        }
    }
}

} // verus!
