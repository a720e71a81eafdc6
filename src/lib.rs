//! Decision logic of a stochastic path tracer, verified.
//!
//! Scalars are binary64 values kept as bit patterns (`scalar`); everything the
//! tracer decides by comparison lives here: interval tests, the choice of a
//! sphere's root, the nearest-hit scan over a scene, the orientation of a
//! hit's normal, the scattering choices of each material, the camera's ray
//! origin, the bounce budget, and the plain-text pixmap that an image becomes.
pub mod scalar;
pub mod utils;
pub mod vec3;
pub mod ray;
pub mod hittable;
pub mod material;
pub mod scene;
pub mod camera;
pub mod pixmap;
