//! A ray tracer for scenes of spheres.
//!
//! Rays leave a camera through the pixels of its viewport, hit the nearest
//! sphere, scatter at its material, and carry back the sky's colour times
//! the attenuation of every surface on their way. All numbers are
//! fixed-point, with saturating arithmetic, so that every function is total
//! and its contract says exactly what it returns. Random numbers enter as
//! arguments of the functions named `*_with`; the functions without that
//! suffix draw them.

pub mod camera;
pub mod color;
pub mod fixed;
pub mod interval;
pub mod material;
pub mod ppm;
pub mod raster;
pub mod ray;
pub mod render;
pub mod shape;
pub mod utils;
pub mod vec3;
