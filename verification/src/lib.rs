//! A fixed-point fireworks particle simulation: rockets ascend under
//! randomized thrust, burst into fading stars, and are rasterized through a
//! rotating oblique projection into a flat RGBA pixel buffer.
//!
//! All quantities (positions, velocities, ages, elapsed time) are carried in
//! signed fixed-point milli-units: the stored value is one thousand times the
//! real one. This keeps every computation in exact integer arithmetic.

pub mod fixed;

pub mod color;

pub mod object;

pub mod raster;

pub mod star;

pub mod firework;

pub mod trail;

pub mod static_point;

mod rng;
