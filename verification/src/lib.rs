//! A recursive ray tracer for scenes of spheres.
//!
//! Every real number is an IEEE 754 binary64 value held by its bit pattern,
//! so that the whole renderer works on integers: ordering and sign handling
//! are decided on the bits, and the four rounding operations (sum, product,
//! quotient, square root) are taken from a software implementation.

pub mod ieee;
pub mod scalar;
pub mod convert;
pub mod customtypes;
pub mod tracer;
pub mod camera;
pub mod image;
