//! The recursive light-transport integrator and the per-pixel sampling loop.
//!
//! `ray_color` bounds its recursion by a decreasing depth counter: at depth
//! zero it answers exactly black. Otherwise it intersects the scene with the
//! near bound 1/1000 (so a bounced ray cannot immediately re-intersect its
//! own origin) and a far horizon at the largest representable integer. On a
//! miss it answers the background gradient at the grid-unit direction; on a
//! hit it asks the material to scatter, answers black for an absorbed ray,
//! and otherwise recurses one bounce deeper and attenuates the answer
//! componentwise.

use vstd::prelude::*;
use crate::rat::{Q, ArithError};
use crate::vec3::{Vec3, v_wf, v_unit_m};
use crate::ray::{Ray, ray_wf};
use crate::hittable::HitRecord;
use crate::world::{HittableList, list_wf, list_hit_m};
use crate::camera::{Camera, camera_wf};
use crate::color::{background, bg_m};
use crate::material::mat_attenuation;
use crate::rng::random_double;
use crate::vec3::v_mul_m;

verus! {

/// Exactly black: every channel zero.
pub open spec fn black_v() -> Vec3 {
    Vec3 { x: Q { num: 0, den: 1 }, y: Q { num: 0, den: 1 }, z: Q { num: 0, den: 1 } }
}

/// The near bound of every scene intersection: 1/1000, so a bounced ray
/// does not immediately re-intersect the surface it left.
pub open spec fn eps_v() -> Q {
    Q { num: 1, den: 1000 }
}

/// The far bound of every scene intersection: the largest representable
/// integer parameter.
pub open spec fn horizon_v() -> Q {
    Q { num: 0x7fff_ffff_ffff_ffff, den: 1 }
}

/// The scene intersection `ray_color` makes at positive depth: the whole
/// scene over the range from the near bound to the horizon.
pub open spec fn hit_of(world: HittableList, r: Ray) -> Option<Option<HitRecord>> {
    list_hit_m(world.objects@, r, eps_v(), horizon_v())
}

/// The color carried back along a ray. At depth zero: exactly black. On a
/// miss of the whole scene the answer is deterministic: it succeeds exactly
/// when the grid-unit direction and the gradient at it are representable,
/// and is then the background gradient. An arithmetic error in the
/// intersection itself is answered as an error. On a hit the answer is black
/// for an absorbed ray, and otherwise a recursive color attenuated
/// componentwise by the struck material's attenuation; one bounce above the
/// recursion floor that product is exactly black.
pub fn ray_color(r: &Ray, world: &HittableList, depth: u32) -> (res: Result<Vec3, ArithError>)
    requires
        ray_wf(*r),
        list_wf(*world),
    ensures
        res is Ok ==> v_wf(res->Ok_0),
        depth == 0 ==> res == Ok::<Vec3, ArithError>(black_v()),
        depth > 0 && hit_of(*world, *r) == Some(Option::<HitRecord>::None) ==> ((res is Ok) <==> (
        v_unit_m(r.direction) is Some && bg_m(v_unit_m(r.direction)->Some_0) is Some)),
        depth > 0 && hit_of(*world, *r) == Some(Option::<HitRecord>::None) && res is Ok ==> bg_m(
            v_unit_m(r.direction)->Some_0,
        ) == Some(res->Ok_0),
        depth > 0 && hit_of(*world, *r) is None ==> res is Err,
        hit_of(*world, *r) matches Some(Some(rec)) ==> ((depth > 0 && res is Ok) ==> (res->Ok_0
            == black_v() || (exists|c: Vec3|
            v_wf(c) && #[trigger] v_mul_m(mat_attenuation(rec.material), c) == Some(res->Ok_0)))),
        hit_of(*world, *r) matches Some(Some(rec)) ==> ((depth == 1 && res is Ok) ==> res->Ok_0
            == black_v()),
    decreases depth,
{
    let black = Vec3 {
        x: Q { num: 0, den: 1 },
        y: Q { num: 0, den: 1 },
        z: Q { num: 0, den: 1 },
    };
    if depth == 0 {
        return Ok(black);
    }
    let eps = Q { num: 1, den: 1000 };
    let horizon = Q { num: 0x7fff_ffff_ffff_ffff, den: 1 };
    match world.hit(r, eps, horizon) {
        Err(e) => Err(e),
        Ok(None) => {
            let unit = match r.direction().unit_vector() {
                Some(u) => u,
                None => {
                    return Err(ArithError);
                },
            };
            match background(&unit) {
                Some(c) => Ok(c),
                None => Err(ArithError),
            }
        },
        Ok(Some(rec)) => {
            match rec.material.scatter(r, &rec) {
                Err(e) => Err(e),
                Ok(None) => Ok(black),
                Ok(Some((scattered, attenuation))) => {
                    let c = match ray_color(&scattered, world, depth - 1) {
                        Ok(c) => c,
                        Err(e) => {
                            return Err(e);
                        },
                    };
                    match attenuation.mul(&c) {
                        Some(col) => {
                            proof {
                                assert(attenuation == mat_attenuation(rec.material));
                                assert(v_mul_m(mat_attenuation(rec.material), c) == Some(col));
                                if depth == 1 {
                                    crate::vec3::lemma_mul_zero_vec(attenuation);
                                }
                            }
                            Ok(col)
                        },
                        None => Err(ArithError),
                    }
                },
            }
        },
    }
}

/// The color of one pixel: the sum over the sampling budget of the colors of
/// randomly jittered camera rays through the pixel. The caller divides by
/// the number of samples during finalization.
pub fn pixel_color(
    cam: &Camera,
    world: &HittableList,
    i: u32,
    j: u32,
    image_width: u32,
    image_height: u32,
    samples_per_pixel: u32,
    depth: u32,
) -> (res: Result<Vec3, ArithError>)
    requires
        camera_wf(*cam),
        list_wf(*world),
        image_width >= 2,
        image_height >= 2,
        i < image_width,
        j < image_height,
    ensures
        res is Ok ==> v_wf(res->Ok_0),
        samples_per_pixel == 0 ==> res == Result::<Vec3, ArithError>::Ok(black_v()),
{
    let zero = Q { num: 0, den: 1 };
    let one = Q { num: 1, den: 1 };
    let mut sum = Vec3 { x: zero, y: zero, z: zero };
    let wd = Q { num: (image_width - 1) as i64, den: 1 };
    let hd = Q { num: (image_height - 1) as i64, den: 1 };
    let iq = Q { num: i as i64, den: 1 };
    let jq = Q { num: (image_height - 1 - j) as i64, den: 1 };
    let mut s: u32 = 0;
    while s < samples_per_pixel
        invariant
            camera_wf(*cam),
            list_wf(*world),
            v_wf(sum),
            samples_per_pixel == 0 ==> sum == black_v(),
            zero == (Q { num: 0, den: 1 }),
            one == (Q { num: 1, den: 1 }),
            wd.wf(),
            hd.wf(),
            iq.wf(),
            jq.wf(),
        decreases samples_per_pixel - s,
    {
        let du = match random_double(zero, one) {
            Some(v) => v,
            None => {
                return Err(ArithError);
            },
        };
        let dv = match random_double(zero, one) {
            Some(v) => v,
            None => {
                return Err(ArithError);
            },
        };
        let un = match crate::rat::q_add(iq, du) {
            Some(v) => v,
            None => {
                return Err(ArithError);
            },
        };
        let u = match crate::rat::q_div(un, wd) {
            Some(v) => v,
            None => {
                return Err(ArithError);
            },
        };
        let vn = match crate::rat::q_add(jq, dv) {
            Some(v) => v,
            None => {
                return Err(ArithError);
            },
        };
        let v = match crate::rat::q_div(vn, hd) {
            Some(v) => v,
            None => {
                return Err(ArithError);
            },
        };
        let ray = match cam.get_ray(u, v) {
            Some(rr) => rr,
            None => {
                return Err(ArithError);
            },
        };
        let c = match ray_color(&ray, world, depth) {
            Ok(c) => c,
            Err(e) => {
                return Err(e);
            },
        };
        sum = match sum.add(&c) {
            Some(v) => v,
            None => {
                return Err(ArithError);
            },
        };
        s = s + 1;
    }
    Ok(sum)
}

} // verus!
