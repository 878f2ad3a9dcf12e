//! Hit records: what a successful ray/geometry intersection carries.

use vstd::prelude::*;
use crate::rat::{Q, q_lt, q_lt_v};
use crate::vec3::{Vec3, v_wf, v_dot_m, v_neg_m};
use crate::ray::Ray;
use crate::material::{Material, mat_wf};

verus! {

/// The result of a successful intersection: the point, the normal oriented
/// against the incoming ray, the ray parameter, which side was struck, and
/// the material of the surface.
#[derive(Clone, Copy, Debug, PartialEq, Eq, Structural)]
pub struct HitRecord {
    pub point: Vec3,
    pub normal: Vec3,
    pub t: Q,
    pub front_face: bool,
    pub material: Material,
}

/// Well-formedness of every field of a hit record.
pub open spec fn rec_wf(rec: HitRecord) -> bool {
    v_wf(rec.point) && v_wf(rec.normal) && rec.t.wf() && mat_wf(rec.material)
}

impl HitRecord {
    /// Orients the stored normal against the incoming ray: the record's
    /// `front_face` flag says whether the geometric outward normal already
    /// opposes the ray, and the stored normal is the outward normal or its
    /// negation accordingly. Returns false, leaving the record unchanged,
    /// when the deciding dot product leaves the representable range.
    pub fn set_face_normal(&mut self, r: &Ray, outward_normal: &Vec3) -> (ok: bool)
        requires
            v_wf(old(self).normal),
            v_wf(r.direction),
            v_wf(*outward_normal),
        ensures
            ok == (v_dot_m(r.direction, *outward_normal) is Some),
            ok ==> {
                let d = v_dot_m(r.direction, *outward_normal)->Some_0;
                &&& final(self).front_face == q_lt_v(d, Q { num: 0, den: 1 })
                &&& final(self).normal == (if final(self).front_face {
                    *outward_normal
                } else {
                    v_neg_m(*outward_normal)
                })
                &&& v_wf(final(self).normal)
            },
            !ok ==> *final(self) == *old(self),
            final(self).point == old(self).point,
            final(self).t == old(self).t,
            final(self).material == old(self).material,
    {
        match r.direction().dot(outward_normal) {
            Some(d) => {
                self.front_face = q_lt(d, Q { num: 0, den: 1 });
                self.normal = if self.front_face {
                    *outward_normal
                } else {
                    outward_normal.neg()
                };
                true
            },
            None => false,
        }
    }
}

} // verus!
