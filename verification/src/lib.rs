//! The core of a recursive path tracer over analytic spheres.
//!
//! Every real quantity is carried as a [`Scalar`]: the bit pattern of a
//! double-precision number, held as an integer key whose order is the numeric
//! order. On such keys the library decides everything that the tracer
//! decides: which root of the intersection equation is the hit, which hit is
//! the nearest, whether and where a material sends a ray on, when a path
//! ends, in which order the pixels are written and how the image is spelled
//! out. Comparison and change of sign are exact on keys and are done here.
//! Arithmetic that rounds is not: the caller hands it in, as values already
//! computed or as functions that the library calls, and every contract says
//! what is returned for whatever those hand back.
//!
//! - [`scalar`], [`vec3`], [`ray`]: quantities, vectors and rays.
//! - [`sphere`], [`hit`]: the accepted root, hit records, the nearest hit.
//! - [`material`]: diffuse, metal and dielectric surfaces.
//! - [`sample`]: the acceptance rule of rejection sampling.
//! - [`trace`]: the course of a path from bounce to bounce.
//! - [`pixels`], [`render`], [`ppm`]: scan order, shading and image text.

pub mod scalar;
pub mod vec3;
pub mod ray;
pub mod hit;
pub mod sphere;
pub mod material;
pub mod sample;
pub mod trace;
pub mod pixels;
pub mod ppm;
pub mod render;

pub use ray::Ray;
pub use scalar::Scalar;
pub use vec3::Vec3;
