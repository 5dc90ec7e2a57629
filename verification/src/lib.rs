//! A Monte-Carlo ray tracer over fixed-point arithmetic: sphere geometry,
//! diffuse / metal / dielectric materials, a depth-of-field camera, a
//! recursive radiance integrator and a parallel per-pixel renderer.

pub mod camera;
pub mod common;
pub mod fixed;
pub mod hittable;
pub mod material;
pub mod ray;
pub mod render;
pub mod rng;
pub mod scene;
pub mod vec3;
