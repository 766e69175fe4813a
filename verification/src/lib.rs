//! Verified core of an interactive Mandelbrot viewer: the animation clock, the
//! interaction controller with its frame invalidation policy, the escape-time
//! iteration and the raster pipeline that assembles a frame buffer.
//!
//! Coordinates on the complex plane and on the screen never enter this crate as
//! numbers. Screen points are carried through as an opaque type parameter, and the
//! arithmetic of an orbit is supplied by the caller as closures, so that every
//! contract here holds for whatever number representation the caller picks.

pub mod clock;
pub mod controller;
pub mod escape;
pub mod raster;
