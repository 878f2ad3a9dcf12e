//! An exact-arithmetic ray-tracing core: spheres, materials, a camera and a
//! recursive path-tracing integrator, all computed over rational numbers so
//! that every step carries a precise contract.

pub mod rat;
pub mod sqrt;
pub mod rng;
pub mod vec3;
pub mod ray;
pub mod material;
pub mod hittable;
pub mod sphere;
pub mod world;
pub mod camera;
pub mod color;
pub mod tracer;

pub use rat::Q;
