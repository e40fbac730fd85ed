//! An offline path-tracing renderer over an exact fixed-point scalar.
//!
//! The scene is a flat collection of spheres with diffuse, specular and
//! dielectric materials; the radiance estimator bounces rays through the
//! scene up to a depth cutoff and gathers light from a sky gradient.
//! All geometry and color arithmetic is done in a binary fixed-point
//! representation, so every function of the renderer has an exact
//! mathematical contract; pseudo-randomness enters only through a seeded
//! generator whose output stream is a function of the seed, which makes
//! a whole render reproducible.

pub mod camera;
pub mod color;
pub mod fixed;
pub mod hittable;
pub mod material;
pub mod progress;
pub mod ray;
pub mod renderer;
pub mod sampler;
pub mod vec3;

pub use camera::SimpleCamera;
pub use color::Color;
pub use fixed::Fx;
pub use hittable::{Hit, Hittables, Sphere};
pub use material::Material;
pub use progress::LoadingBar;
pub use ray::Ray;
pub use renderer::Renderer;
pub use sampler::Sampler;
pub use vec3::Vec3;
