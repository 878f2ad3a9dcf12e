//! Materials and their scatter rule.
//!
//! A closed set of three materials. Given the incoming ray and a hit record,
//! `scatter` answers with a scattered ray and an attenuation color, with
//! nothing (the ray is absorbed), or with an arithmetic error when a step of
//! the exact computation leaves the representable range.

use vstd::prelude::*;
use crate::rat::{Q, ArithError, q_div, q_div_m, q_mul, q_mul_m, q_sub, q_sub_m, q_min, q_min_m,
    q_lt, q_lt_v};
use crate::sqrt::{q_sqrt, q_sqrt_m};
use crate::vec3::{Vec3, v_wf, v_dot_m, v_neg_m, v_unit_m, v_reflect_m, v_refract_m,
    v_near_zero_v};
use crate::ray::{Ray, ray_wf};
use crate::hittable::HitRecord;

verus! {

/// A surface material: diffuse, metal with a fuzz radius, or dielectric with
/// a refractive index.
#[derive(Clone, Copy, Debug, PartialEq, Eq, Structural)]
pub enum Material {
    Lambertian { albedo: Vec3 },
    Metal { albedo: Vec3, fuzz: Q },
    Dielectric { ir: Q },
}

/// Well-formedness of a material's parameters.
pub open spec fn mat_wf(m: Material) -> bool {
    match m {
        Material::Lambertian { albedo } => v_wf(albedo),
        Material::Metal { albedo, fuzz } => v_wf(albedo) && fuzz.wf(),
        Material::Dielectric { ir } => ir.wf(),
    }
}

/// The fully transparent attenuation of a dielectric: pure white.
pub open spec fn white_v() -> Vec3 {
    Vec3 { x: Q { num: 1, den: 1 }, y: Q { num: 1, den: 1 }, z: Q { num: 1, den: 1 } }
}

/// The exact dielectric scatter: refraction ratio by side, grid-unit incoming
/// direction, total internal reflection when Snell's law has no solution,
/// refraction otherwise; the attenuation is always white. `None` when a step
/// leaves the representable range.
pub open spec fn dielectric_m(ir: Q, ray_in: Ray, rec: HitRecord) -> Option<(Ray, Vec3)> {
    let one = Q { num: 1, den: 1 };
    let ratio_o = if rec.front_face {
        q_div_m(one, ir)
    } else {
        Some(ir)
    };
    match ratio_o {
        Some(ratio) => match v_unit_m(ray_in.direction) {
            Some(unit) => match v_dot_m(v_neg_m(unit), rec.normal) {
                Some(c0) => {
                    let cos = q_min_m(c0, one);
                    match q_mul_m(cos, cos) {
                        Some(c2) => match q_sub_m(one, c2) {
                            Some(sin2) => {
                                let sin2c = if sin2.num < 0 {
                                    Q { num: 0, den: 1 }
                                } else {
                                    sin2
                                };
                                let sin = q_sqrt_m(sin2c);
                                match q_mul_m(ratio, sin) {
                                    Some(rs) => {
                                        let dir_o = if q_lt_v(one, rs) {
                                            v_reflect_m(unit, rec.normal)
                                        } else {
                                            v_refract_m(unit, rec.normal, ratio)
                                        };
                                        match dir_o {
                                            Some(dir) => Some(
                                                (
                                                    Ray { origin: rec.point, direction: dir },
                                                    white_v(),
                                                ),
                                            ),
                                            None => None,
                                        }
                                    },
                                    None => None,
                                }
                            },
                            None => None,
                        },
                        None => None,
                    }
                },
                None => None,
            },
            None => None,
        },
        None => None,
    }
}

/// The attenuation a material applies to a scattered ray: the albedo of a
/// diffuse or metal surface, pure white for a dielectric.
pub open spec fn mat_attenuation(m: Material) -> Vec3 {
    match m {
        Material::Lambertian { albedo } => albedo,
        Material::Metal { albedo, fuzz } => albedo,
        Material::Dielectric { ir } => white_v(),
    }
}

/// The dot product, against the surface normal, of the perfect reflection of
/// the grid-unit incoming direction: what decides a fuzz-free metal scatter.
pub open spec fn metal_refl_dot(ray_in: Ray, rec: HitRecord) -> Option<Q> {
    match v_unit_m(ray_in.direction) {
        Some(u) => match v_reflect_m(u, rec.normal) {
            Some(refl) => v_dot_m(refl, rec.normal),
            None => None,
        },
        None => None,
    }
}

/// The direction of a scatter answer (the zero vector for an absorbed ray).
pub open spec fn scattered_dir(o: Option<(Ray, Vec3)>) -> Vec3 {
    match o {
        Some(p) => p.0.direction,
        None => Vec3 {
            x: Q { num: 0, den: 1 },
            y: Q { num: 0, den: 1 },
            z: Q { num: 0, den: 1 },
        },
    }
}

/// What a fuzz-free metal scatter answers: a scattered ray exactly when the
/// perfect reflection points away from the surface, and then exactly the
/// perfect reflection of the grid-unit incoming direction.
pub open spec fn metal_zero_fuzz_post(ray_in: Ray, rec: HitRecord, o: Option<(Ray, Vec3)>) -> bool {
    &&& metal_refl_dot(ray_in, rec) is Some
    &&& (o is Some <==> q_lt_v(Q { num: 0, den: 1 }, metal_refl_dot(ray_in, rec)->Some_0))
    &&& (o is Some ==> scattered_dir(o) == v_reflect_m(
        v_unit_m(ray_in.direction)->Some_0,
        rec.normal,
    )->Some_0)
}

impl Material {
    /// The scatter rule. A diffuse surface always scatters, toward the normal
    /// plus a random unit draw (the bare normal when that sum is degenerate),
    /// attenuated by its albedo. A metal reflects the unit incoming direction,
    /// perturbed by fuzz times a random interior point of the unit ball, and
    /// absorbs the ray unless the result points away from the surface. A
    /// dielectric always scatters: it refracts by Snell's law or, when the
    /// law has no solution, reflects, and attenuates by pure white.
    pub fn scatter(&self, ray_in: &Ray, rec: &HitRecord) -> (r: Result<
        Option<(Ray, Vec3)>,
        ArithError,
    >)
        requires
            mat_wf(*self),
            v_wf(ray_in.direction),
            v_wf(rec.point),
            v_wf(rec.normal),
        ensures
            r matches Ok(Some(p)) ==> ray_wf(p.0) && v_wf(p.1),
            r matches Ok(Some(p)) ==> p.1 == mat_attenuation(*self),
            self matches Material::Lambertian { albedo } ==> {
                &&& r is Ok ==> r->Ok_0 is Some
                &&& r matches Ok(Some((sray, att))) ==> att == albedo && sray.origin == rec.point
                    && v_wf(sray.direction) && (sray.direction == rec.normal || !v_near_zero_v(
                    sray.direction,
                ))
            },
            self matches Material::Metal { albedo, fuzz } ==> {
                &&& r matches Ok(Some((sray, att))) ==> att == albedo && sray.origin == rec.point
                    && v_wf(sray.direction) && v_dot_m(sray.direction, rec.normal) is Some
                    && q_lt_v(
                    Q { num: 0, den: 1 },
                    v_dot_m(sray.direction, rec.normal)->Some_0,
                )
                &&& fuzz.num == 0 && r is Ok ==> metal_zero_fuzz_post(*ray_in, *rec, r->Ok_0)
                &&& fuzz.num == 0 ==> (r is Ok <==> metal_refl_dot(*ray_in, *rec) is Some)
            },
            self matches Material::Dielectric { ir } ==> {
                &&& r is Ok <==> dielectric_m(*ir, *ray_in, *rec) is Some
                &&& r is Ok ==> r->Ok_0 == dielectric_m(*ir, *ray_in, *rec)
            },
    {
        match self {
            Material::Lambertian { albedo } => {
                let ruv = match Vec3::random_unit_vector() {
                    Some(v) => v,
                    None => {
                        return Err(ArithError);
                    },
                };
                let d0 = match rec.normal.add(&ruv) {
                    Some(v) => v,
                    None => {
                        return Err(ArithError);
                    },
                };
                let dir = if d0.near_zero() {
                    rec.normal
                } else {
                    d0
                };
                Ok(Some((Ray { origin: rec.point, direction: dir }, *albedo)))
            },
            Material::Metal { albedo, fuzz } => {
                let unit = match ray_in.direction().unit_vector() {
                    Some(u) => u,
                    None => {
                        return Err(ArithError);
                    },
                };
                let refl = match unit.reflect(rec.normal) {
                    Some(v) => v,
                    None => {
                        return Err(ArithError);
                    },
                };
                let dir = if fuzz.num == 0 {
                    refl
                } else {
                    let fz = Vec3::random_in_unit_sphere();
                    let pert = match fz.scale(*fuzz) {
                        Some(v) => v,
                        None => {
                            return Err(ArithError);
                        },
                    };
                    match refl.add(&pert) {
                        Some(v) => v,
                        None => {
                            return Err(ArithError);
                        },
                    }
                };
                let d = match dir.dot(&rec.normal) {
                    Some(d) => d,
                    None => {
                        return Err(ArithError);
                    },
                };
                if q_lt(Q { num: 0, den: 1 }, d) {
                    Ok(Some((Ray { origin: rec.point, direction: dir }, *albedo)))
                } else {
                    Ok(None)
                }
            },
            Material::Dielectric { ir } => {
                let one = Q { num: 1, den: 1 };
                let ratio = if rec.front_face {
                    match q_div(one, *ir) {
                        Some(v) => v,
                        None => {
                            return Err(ArithError);
                        },
                    }
                } else {
                    *ir
                };
                let unit = match ray_in.direction().unit_vector() {
                    Some(u) => u,
                    None => {
                        return Err(ArithError);
                    },
                };
                let c0 = match unit.neg().dot(&rec.normal) {
                    Some(c) => c,
                    None => {
                        return Err(ArithError);
                    },
                };
                let cos = q_min(c0, one);
                let c2 = match q_mul(cos, cos) {
                    Some(v) => v,
                    None => {
                        return Err(ArithError);
                    },
                };
                let sin2 = match q_sub(one, c2) {
                    Some(v) => v,
                    None => {
                        return Err(ArithError);
                    },
                };
                let sin2c = if sin2.num < 0 {
                    Q { num: 0, den: 1 }
                } else {
                    sin2
                };
                let sin = q_sqrt(sin2c);
                let rs = match q_mul(ratio, sin) {
                    Some(v) => v,
                    None => {
                        return Err(ArithError);
                    },
                };
                let dir_o = if q_lt(one, rs) {
                    unit.reflect(rec.normal)
                } else {
                    unit.refract(rec.normal, ratio)
                };
                match dir_o {
                    Some(dir) => Ok(
                        Some(
                            (
                                Ray { origin: rec.point, direction: dir },
                                Vec3 {
                                    x: Q { num: 1, den: 1 },
                                    y: Q { num: 1, den: 1 },
                                    z: Q { num: 1, den: 1 },
                                },
                            ),
                        ),
                    ),
                    None => Err(ArithError),
                }
            },
        }
    }
}

} // verus!
