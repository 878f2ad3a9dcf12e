use raytrace_core::rat::Q;
use raytrace_core::vec3::Vec3;
use raytrace_core::ray::Ray;
use raytrace_core::material::Material;
use raytrace_core::hittable::HitRecord;
use raytrace_core::sphere::Sphere;
use raytrace_core::world::HittableList;
use raytrace_core::camera::Camera;
use raytrace_core::color::{background, clamp, write_color};
use raytrace_core::tracer::{ray_color, pixel_color};

fn q(n: i64, d: i64) -> Q {
    Q { num: n, den: d }
}

fn v(x: Q, y: Q, z: Q) -> Vec3 {
    Vec3 { x, y, z }
}

fn gray() -> Material {
    Material::Lambertian { albedo: v(q(1, 2), q(1, 2), q(1, 2)) }
}

#[test]
fn background_straight_up_is_sky_blue() {
    // At the unit direction (0, 1, 0) the gradient is the blue endpoint.
    let up = v(q(0, 1), q(1, 1), q(0, 1));
    let c = background(&up).unwrap();
    assert_eq!((c.x.num, c.x.den), (1, 2));
    assert_eq!((c.y.num, c.y.den), (7, 10));
    assert_eq!((c.z.num, c.z.den), (1, 1));
}

#[test]
fn background_straight_down_is_white() {
    let down = v(q(0, 1), q(-1, 1), q(0, 1));
    let c = background(&down).unwrap();
    assert_eq!((c.x.num, c.x.den), (1, 1));
    assert_eq!((c.y.num, c.y.den), (1, 1));
    assert_eq!((c.z.num, c.z.den), (1, 1));
}

#[test]
fn miss_returns_background_through_the_tracer() {
    // An empty scene: the ray straight up sees the blue endpoint.
    let world = HittableList::new();
    let r = Ray { origin: v(q(0, 1), q(0, 1), q(0, 1)), direction: v(q(0, 1), q(1, 1), q(0, 1)) };
    let c = ray_color(&r, &world, 8).unwrap();
    assert_eq!((c.x.num, c.x.den), (1, 2));
    assert_eq!((c.y.num, c.y.den), (7, 10));
    assert_eq!((c.z.num, c.z.den), (1, 1));
}

#[test]
fn ray_color_depth_zero_is_black() {
    let mut world = HittableList::new();
    world.add(Sphere { center: v(q(0, 1), q(0, 1), q(-1, 1)), radius: q(1, 2), material: gray() });
    let r = Ray { origin: v(q(0, 1), q(0, 1), q(0, 1)), direction: v(q(0, 1), q(0, 1), q(-1, 1)) };
    let c = ray_color(&r, &world, 0).unwrap();
    assert_eq!((c.x.num, c.y.num, c.z.num), (0, 0, 0));
}

#[test]
fn sphere_hit_reports_nearest_root_and_oriented_normal() {
    // Ray from the origin at a sphere of radius 1/2 centered at (0,0,-1):
    // nearest root 1/2, hit point (0,0,-1/2), outward normal (0,0,1),
    // front face.
    let s = Sphere { center: v(q(0, 1), q(0, 1), q(-1, 1)), radius: q(1, 2), material: gray() };
    let r = Ray { origin: v(q(0, 1), q(0, 1), q(0, 1)), direction: v(q(0, 1), q(0, 1), q(-1, 1)) };
    let rec = s.hit(&r, q(1, 1000), q(i64::MAX, 1)).unwrap().unwrap();
    assert_eq!((rec.t.num, rec.t.den), (1, 2));
    assert_eq!((rec.point.z.num, rec.point.z.den), (-1, 2));
    assert_eq!((rec.normal.x.num, rec.normal.y.num), (0, 0));
    assert_eq!((rec.normal.z.num, rec.normal.z.den), (1, 1));
    assert!(rec.front_face);
    // The normal is the unit vector from the center to the hit point.
    let from_center = rec.point.sub(&s.center).unwrap();
    let u = from_center.unit_vector().unwrap();
    assert_eq!((u.x.num, u.y.num), (0, 0));
    assert_eq!((u.z.num, u.z.den), (1, 1));
}

#[test]
fn sphere_miss_is_none_and_far_range_is_respected() {
    let s = Sphere { center: v(q(0, 1), q(0, 1), q(-1, 1)), radius: q(1, 2), material: gray() };
    // A ray pointing away misses.
    let r = Ray { origin: v(q(0, 1), q(0, 1), q(0, 1)), direction: v(q(0, 1), q(0, 1), q(1, 1)) };
    assert!(s.hit(&r, q(1, 1000), q(i64::MAX, 1)).unwrap().is_none());
    // A hit beyond t_max does not count.
    let toward = Ray {
        origin: v(q(0, 1), q(0, 1), q(0, 1)),
        direction: v(q(0, 1), q(0, 1), q(-1, 1)),
    };
    assert!(s.hit(&toward, q(1, 1000), q(1, 4)).unwrap().is_none());
}

#[test]
fn inside_hit_flips_the_normal() {
    // From the center of the sphere the outward normal at the hit points
    // along the ray, so the stored normal is flipped and front_face false.
    let s = Sphere { center: v(q(0, 1), q(0, 1), q(0, 1)), radius: q(1, 1), material: gray() };
    let r = Ray { origin: v(q(0, 1), q(0, 1), q(0, 1)), direction: v(q(0, 1), q(0, 1), q(-1, 1)) };
    let rec = s.hit(&r, q(1, 1000), q(i64::MAX, 1)).unwrap().unwrap();
    assert!(!rec.front_face);
    assert_eq!((rec.normal.z.num, rec.normal.z.den), (1, 1));
}

#[test]
fn aggregate_returns_the_nearer_of_two_overlapping_spheres() {
    // Two spheres along the same ray: the nearer one wins, in either
    // insertion order.
    let near = Sphere { center: v(q(0, 1), q(0, 1), q(-2, 1)), radius: q(1, 2), material: gray() };
    let far = Sphere {
        center: v(q(0, 1), q(0, 1), q(-5, 1)),
        radius: q(1, 2),
        material: Material::Metal { albedo: v(q(1, 1), q(1, 1), q(1, 1)), fuzz: q(0, 1) },
    };
    let r = Ray { origin: v(q(0, 1), q(0, 1), q(0, 1)), direction: v(q(0, 1), q(0, 1), q(-1, 1)) };
    let mut world = HittableList::new();
    world.add(near);
    world.add(far);
    let rec = world.hit(&r, q(1, 1000), q(i64::MAX, 1)).unwrap().unwrap();
    assert_eq!((rec.t.num, rec.t.den), (3, 2));
    assert!(matches!(rec.material, Material::Lambertian { .. }));

    let mut world2 = HittableList::new();
    world2.add(far);
    world2.add(near);
    let rec2 = world2.hit(&r, q(1, 1000), q(i64::MAX, 1)).unwrap().unwrap();
    assert_eq!((rec2.t.num, rec2.t.den), (3, 2));
    assert!(matches!(rec2.material, Material::Lambertian { .. }));
}

#[test]
fn lambertian_scatter_always_answers() {
    let rec = HitRecord {
        point: v(q(0, 1), q(0, 1), q(-1, 2)),
        normal: v(q(0, 1), q(0, 1), q(1, 1)),
        t: q(1, 2),
        front_face: true,
        material: gray(),
    };
    let r = Ray { origin: v(q(0, 1), q(0, 1), q(0, 1)), direction: v(q(0, 1), q(0, 1), q(-1, 1)) };
    for _ in 0..16 {
        let (sray, att) = gray().scatter(&r, &rec).unwrap().unwrap();
        assert_eq!((att.x.num, att.x.den), (1, 2));
        assert_eq!((sray.origin.z.num, sray.origin.z.den), (-1, 2));
    }
}

#[test]
fn metal_without_fuzz_reflects_or_absorbs_exactly() {
    let m = Material::Metal { albedo: v(q(9, 10), q(9, 10), q(9, 10)), fuzz: q(0, 1) };
    let rec = HitRecord {
        point: v(q(0, 1), q(0, 1), q(0, 1)),
        normal: v(q(0, 1), q(0, 1), q(1, 1)),
        t: q(1, 1),
        front_face: true,
        material: m,
    };
    // Incoming straight along the negative normal: reflected straight back.
    let down = Ray {
        origin: v(q(0, 1), q(0, 1), q(1, 1)),
        direction: v(q(0, 1), q(0, 1), q(-1, 1)),
    };
    let (sray, att) = m.scatter(&down, &rec).unwrap().unwrap();
    assert_eq!((att.x.num, att.x.den), (9, 10));
    assert_eq!((sray.direction.z.num, sray.direction.z.den), (1, 1));
    // Incoming along the normal itself: the reflection points into the
    // surface and the ray is absorbed.
    let up = Ray { origin: v(q(0, 1), q(0, 1), q(-1, 1)), direction: v(q(0, 1), q(0, 1), q(1, 1)) };
    assert!(m.scatter(&up, &rec).unwrap().is_none());
}

#[test]
fn dielectric_always_scatters_white() {
    let m = Material::Dielectric { ir: q(3, 2) };
    let rec = HitRecord {
        point: v(q(0, 1), q(0, 1), q(0, 1)),
        normal: v(q(0, 1), q(0, 1), q(1, 1)),
        t: q(1, 1),
        front_face: true,
        material: m,
    };
    let down = Ray {
        origin: v(q(0, 1), q(0, 1), q(1, 1)),
        direction: v(q(0, 1), q(0, 1), q(-1, 1)),
    };
    let (sray, att) = m.scatter(&down, &rec).unwrap().unwrap();
    assert_eq!((att.x.num, att.y.num, att.z.num), (1, 1, 1));
    // Straight through: the direction keeps pointing down.
    assert!(sray.direction.z.num < 0);
}

#[test]
fn write_color_round_trip_white_and_black() {
    // (1,1,1) at one sample becomes (255,255,255); black stays black.
    let white = v(q(1, 1), q(1, 1), q(1, 1));
    assert_eq!(write_color(&white, 1).unwrap(), (255, 255, 255));
    let black = v(q(0, 1), q(0, 1), q(0, 1));
    assert_eq!(write_color(&black, 1).unwrap(), (0, 0, 0));
    // Averaging: (4,4,4) over 4 samples is (1,1,1) again.
    let sum = v(q(4, 1), q(4, 1), q(4, 1));
    assert_eq!(write_color(&sum, 4).unwrap(), (255, 255, 255));
}

#[test]
fn clamp_selects_bound_or_value() {
    let lo = q(0, 1);
    let hi = q(999, 1000);
    let c = clamp(q(3, 2), lo, hi);
    assert_eq!((c.num, c.den), (999, 1000));
    let c = clamp(q(-1, 2), lo, hi);
    assert_eq!((c.num, c.den), (0, 1));
    let c = clamp(q(1, 2), lo, hi);
    assert_eq!((c.num, c.den), (1, 2));
}

#[test]
fn camera_new_builds_the_requested_viewport() {
    // A half-angle tangent of 1 (a 90 degree field of view) and a 16:9
    // aspect ratio: viewport 2 high and 32/9 wide.
    let c = Camera::new(q(1, 1), q(16, 9)).unwrap();
    assert_eq!((c.vertical.y.num, c.vertical.y.den), (2, 1));
    assert_eq!((c.horizontal.x.num, c.horizontal.x.den), (32, 9));
    assert_eq!((c.lower_left_corner.x.num, c.lower_left_corner.x.den), (-16, 9));
    assert_eq!((c.lower_left_corner.z.num, c.lower_left_corner.z.den), (-1, 1));
}

#[test]
fn center_pixel_ray_hits_the_centered_sphere() {
    // The camera ray through the viewport center goes straight down the
    // negative third axis and must strike the sphere at (0,0,-1), not the
    // background.
    let cam = Camera::default();
    let ray = cam.get_ray(q(1, 2), q(1, 2)).unwrap();
    assert_eq!((ray.direction.x.num, ray.direction.y.num), (0, 0));
    assert_eq!((ray.direction.z.num, ray.direction.z.den), (-1, 1));
    let mut world = HittableList::new();
    world.add(Sphere { center: v(q(0, 1), q(0, 1), q(-1, 1)), radius: q(1, 2), material: gray() });
    let rec = world.hit(&ray, q(1, 1000), q(i64::MAX, 1)).unwrap().unwrap();
    assert_eq!((rec.t.num, rec.t.den), (1, 2));
    // One bounce deep the color is the attenuated black of the recursion
    // floor, which differs from the background along this direction.
    let c = ray_color(&ray, &world, 1).unwrap();
    assert_eq!((c.x.num, c.y.num, c.z.num), (0, 0, 0));
    let empty = HittableList::new();
    let bg = ray_color(&ray, &empty, 1).unwrap();
    assert!(bg.x.num != 0 && bg.y.num != 0 && bg.z.num != 0);
}

#[test]
fn arithmetic_out_of_range_is_an_error_not_a_wrong_answer() {
    // A sphere so far away that the squared distance cannot be represented.
    let s = Sphere {
        center: v(q(0x4000_0000_0000_0000, 1), q(0, 1), q(0, 1)),
        radius: q(1, 2),
        material: gray(),
    };
    let r = Ray { origin: v(q(0, 1), q(0, 1), q(0, 1)), direction: v(q(1, 1), q(0, 1), q(0, 1)) };
    assert!(s.hit(&r, q(1, 1000), q(i64::MAX, 1)).is_err());
}

#[test]
fn set_face_normal_orients_against_the_ray() {
    let mut rec = HitRecord {
        point: v(q(0, 1), q(0, 1), q(0, 1)),
        normal: v(q(0, 1), q(0, 1), q(0, 1)),
        t: q(1, 1),
        front_face: false,
        material: gray(),
    };
    let r = Ray { origin: v(q(0, 1), q(0, 1), q(0, 1)), direction: v(q(0, 1), q(0, 1), q(-1, 1)) };
    let outward = v(q(0, 1), q(0, 1), q(1, 1));
    assert!(rec.set_face_normal(&r, &outward));
    assert!(rec.front_face);
    assert_eq!((rec.normal.z.num, rec.normal.z.den), (1, 1));
    let against = v(q(0, 1), q(0, 1), q(-1, 1));
    assert!(rec.set_face_normal(&r, &against));
    assert!(!rec.front_face);
    assert_eq!((rec.normal.z.num, rec.normal.z.den), (1, 1));
}

#[test]
fn pixel_color_accumulates_samples() {
    // A tiny render: an empty scene, every sample sees the background, so
    // the sum of four samples has every channel at most 4.
    let cam = Camera::default();
    let world = HittableList::new();
    let sum = pixel_color(&cam, &world, 1, 1, 4, 4, 4, 2).unwrap();
    let four = q(4, 1);
    assert!(raytrace_core::rat::q_le(sum.x, four));
    assert!(raytrace_core::rat::q_le(sum.z, four));
    // And finalization turns it into bytes.
    let bytes = write_color(&sum, 4).unwrap();
    assert!(bytes.2 >= bytes.0);
}

#[test]
fn clear_empties_the_scene() {
    let mut world = HittableList::new();
    world.add(Sphere { center: v(q(0, 1), q(0, 1), q(-1, 1)), radius: q(1, 2), material: gray() });
    world.clear();
    let r = Ray { origin: v(q(0, 1), q(0, 1), q(0, 1)), direction: v(q(0, 1), q(0, 1), q(-1, 1)) };
    assert!(world.hit(&r, q(1, 1000), q(i64::MAX, 1)).unwrap().is_none());
}
