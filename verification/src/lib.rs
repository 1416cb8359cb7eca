//! Validation of three points in the plane as a triangle, and the decisions
//! behind its classification.
//!
//! Numbers are double-precision values held by their bit patterns (see
//! [`scalar`]). The library decides; it does not round. Whatever needs
//! rounding arithmetic (a difference, a cross product, a distance) is measured
//! by the caller and handed in.

pub mod scalar;
pub mod value;
pub mod text;
pub mod point;
pub mod triangle;
pub mod errors;
pub mod geometry;
