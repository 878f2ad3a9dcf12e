use raytrace_core::rat::{Q, q_add, q_sub, q_mul, q_div, q_lt, q_le, q_eq, q_neg, q_abs, q_min};
use raytrace_core::sqrt::q_sqrt;
use raytrace_core::vec3::Vec3;
use raytrace_core::rng::random_double;

fn q(n: i64, d: i64) -> Q {
    Q { num: n, den: d }
}

#[test]
fn rational_add_reduces() {
    // 1/2 + 1/3 = 5/6, reduced.
    let r = q_add(q(1, 2), q(1, 3)).unwrap();
    assert_eq!(r.num, 5);
    assert_eq!(r.den, 6);
    // 1/2 + 1/2 = 1, fully reduced.
    let r = q_add(q(1, 2), q(1, 2)).unwrap();
    assert_eq!(r.num, 1);
    assert_eq!(r.den, 1);
}

#[test]
fn rational_mul_div() {
    let r = q_mul(q(2, 3), q(3, 4)).unwrap();
    assert_eq!((r.num, r.den), (1, 2));
    let r = q_div(q(1, 2), q(3, 4)).unwrap();
    assert_eq!((r.num, r.den), (2, 3));
    // Division by a negative keeps the denominator positive.
    let r = q_div(q(1, 2), q(-3, 4)).unwrap();
    assert_eq!((r.num, r.den), (-2, 3));
    // Division by zero has no answer.
    assert!(q_div(q(1, 2), q(0, 1)).is_none());
}

#[test]
fn rational_overflow_is_reported() {
    // A product whose reduced numerator no longer fits in 64 bits.
    let big = q(0x4000_0000_0000_0000, 1);
    assert!(q_mul(big, big).is_none());
    assert!(q_add(big, big).is_none());
}

#[test]
fn rational_order() {
    assert!(q_lt(q(1, 3), q(1, 2)));
    assert!(!q_lt(q(1, 2), q(1, 3)));
    assert!(q_le(q(2, 4), q(1, 2)));
    assert!(q_eq(q(2, 4), q(1, 2)));
    assert!(q_eq(q_neg(q(1, 2)), q(-1, 2)));
    assert_eq!(q_abs(q(-7, 3)).num, 7);
    let m = q_min(q(1, 2), q(1, 3));
    assert_eq!((m.num, m.den), (1, 3));
}

#[test]
fn grid_sqrt_exact_on_perfect_squares() {
    // sqrt(1) is exactly 256/256.
    let r = q_sqrt(q(1, 1));
    assert_eq!((r.num, r.den), (256, 256));
    // sqrt(4) is exactly 512/256 = 2.
    let r = q_sqrt(q(4, 1));
    assert_eq!((r.num, r.den), (512, 256));
    // sqrt(1/4) is exactly 128/256 = 1/2.
    let r = q_sqrt(q(1, 4));
    assert_eq!((r.num, r.den), (128, 256));
    // sqrt(0) is exactly 0.
    let r = q_sqrt(q(0, 1));
    assert_eq!(r.num, 0);
}

#[test]
fn grid_sqrt_brackets_inexact_values() {
    // sqrt(2) on the grid: 362/256, and (362/256)^2 <= 2 < (363/256)^2.
    let r = q_sqrt(q(2, 1));
    assert_eq!((r.num, r.den), (362, 256));
    assert!(362 * 362 <= 2 * 65536);
    assert!(2 * 65536 < 363 * 363);
}

#[test]
fn vector_componentwise_ops() {
    let a = Vec3 { x: q(1, 2), y: q(0, 1), z: q(-1, 1) };
    let b = Vec3 { x: q(1, 2), y: q(2, 1), z: q(1, 1) };
    let s = a.add(&b).unwrap();
    assert_eq!((s.x.num, s.x.den), (1, 1));
    assert_eq!((s.y.num, s.y.den), (2, 1));
    assert_eq!((s.z.num, s.z.den), (0, 1));
    let d = a.sub(&b).unwrap();
    assert_eq!((d.x.num, d.x.den), (0, 1));
    let p = a.mul(&b).unwrap();
    assert_eq!((p.x.num, p.x.den), (1, 4));
    let n = a.neg();
    assert_eq!((n.z.num, n.z.den), (1, 1));
}

#[test]
fn vector_dot_cross_length() {
    let a = Vec3 { x: q(1, 1), y: q(2, 1), z: q(3, 1) };
    let b = Vec3 { x: q(4, 1), y: q(-5, 1), z: q(6, 1) };
    let d = a.dot(&b).unwrap();
    assert_eq!((d.num, d.den), (12, 1));
    let c = a.cross(&b).unwrap();
    assert_eq!((c.x.num, c.x.den), (27, 1));
    assert_eq!((c.y.num, c.y.den), (6, 1));
    assert_eq!((c.z.num, c.z.den), (-13, 1));
    let l2 = a.length_squared().unwrap();
    assert_eq!((l2.num, l2.den), (14, 1));
    // The length of (0, 3, 4) is exactly 5.
    let v = Vec3 { x: q(0, 1), y: q(3, 1), z: q(4, 1) };
    let l = v.length().unwrap();
    assert_eq!((l.num, l.den), (1280, 256));
}

#[test]
fn unit_vector_of_axis_direction_is_exact() {
    let v = Vec3 { x: q(0, 1), y: q(2, 1), z: q(0, 1) };
    let u = v.unit_vector().unwrap();
    assert_eq!((u.x.num, u.y.num, u.y.den, u.z.num), (0, 1, 1, 0));
    // The zero vector has no unit vector.
    let z = Vec3 { x: q(0, 1), y: q(0, 1), z: q(0, 1) };
    assert!(z.unit_vector().is_none());
}

#[test]
fn near_zero_threshold() {
    let tiny = Vec3 { x: q(1, 200_000_000), y: q(0, 1), z: q(-1, 300_000_000) };
    assert!(tiny.near_zero());
    let not_tiny = Vec3 { x: q(1, 200_000_000), y: q(1, 2), z: q(0, 1) };
    assert!(!not_tiny.near_zero());
}

#[test]
fn reflect_twice_restores_direction() {
    // Reflection about a unit normal is an involution.
    let v = Vec3 { x: q(1, 1), y: q(0, 1), z: q(-1, 1) };
    let n = Vec3 { x: q(0, 1), y: q(0, 1), z: q(1, 1) };
    let r1 = v.reflect(n).unwrap();
    assert_eq!((r1.x.num, r1.y.num, r1.z.num), (1, 0, 1));
    let r2 = r1.reflect(n).unwrap();
    assert_eq!((r2.x.num, r2.x.den), (1, 1));
    assert_eq!((r2.y.num, r2.y.den), (0, 1));
    assert_eq!((r2.z.num, r2.z.den), (-1, 1));
}

#[test]
fn refraction_straight_through() {
    // A ray straight along the negative normal passes straight through for
    // a matched index: refract((0,0,-1), (0,0,1), 1) = (0,0,-1).
    let v = Vec3 { x: q(0, 1), y: q(0, 1), z: q(-1, 1) };
    let n = Vec3 { x: q(0, 1), y: q(0, 1), z: q(1, 1) };
    let r = v.refract(n, q(1, 1)).unwrap();
    assert_eq!((r.x.num, r.y.num), (0, 0));
    assert_eq!((r.z.num, r.z.den), (-1, 1));
}

#[test]
fn random_draws_sit_in_their_range() {
    for _ in 0..32 {
        let r = random_double(q(0, 1), q(1, 1)).unwrap();
        assert!(q_le(q(0, 1), r));
        assert!(q_lt(r, q(1, 1)));
        let p = Vec3::random_in_unit_sphere();
        let l2 = p.length_squared().unwrap();
        assert!(q_lt(l2, q(1, 1)));
        let d = Vec3::random_in_unit_disk();
        assert_eq!(d.z.num, 0);
        let l2 = d.length_squared().unwrap();
        assert!(q_lt(l2, q(1, 1)));
        let v = Vec3::random(q(-1, 1), q(1, 1)).unwrap();
        assert!(q_le(q(-1, 1), v.x) && q_lt(v.x, q(1, 1)));
        assert!(q_lt(v.y, q(1, 1)) && q_lt(v.z, q(1, 1)));
    }
}
