//! A verified 2D gradient-noise field.
//!
//! A sparse grid of unit gradient vectors, one per grid vertex, induces a
//! continuous scalar field over pixel space: a sampled point is located in
//! its cell, the gradients at the four cell corners are dotted with the
//! offsets from each corner to the point, and the four influences are
//! blended with an eased bilinear interpolation.
//!
//! All scalars are fixed-point integers counted in millionths (`SCALE`
//! units per 1.0), and gradient directions are whole degrees, so the whole
//! pipeline is exact integer arithmetic with explicit rounding.

use vstd::prelude::*;

pub mod math;
pub mod perlin;
pub mod trig;

verus! {

/// Fixed-point units per 1.0: every scalar, weight and vector component in
/// the crate is an integer count of millionths.
pub const SCALE: i64 = 1_000_000;

} // verus!
