//! A letterboxed pixel-grid viewport calculator.
//!
//! Given a window's physical pixel size and either a desired virtual
//! resolution or a fixed zoom factor, the library computes an integer or
//! fractional zoom, the orthographic projection bounds for a virtual camera,
//! and the centered sub-rectangle of the window that the virtual frame is
//! scaled into, with leftover space letterboxed. A second kernel maps a
//! physical cursor or touch position through that same sub-rectangle back
//! into world coordinates. All scale factors and coordinates are exact
//! rational numbers, so every result is stated and proved without rounding
//! slack.

use vstd::prelude::*;

pub mod cursor;
pub mod frac;
pub mod layers;
pub mod limit;
pub mod scaled;
pub mod texture;
pub mod viewport;

verus! {

/// Largest window dimension, desired resolution, or zoom numerator and
/// denominator the kernels accept. Keeping every input below this bound lets
/// all intermediate products fit comfortably in 64-bit integers.
pub const MAX_DIM: u64 = 1048576;

/// Bound on the numerator of a computed projection bound: twice the square
/// of `MAX_DIM`, since a bound is at most a span plus a half-span away from
/// the origin and a span numerator is a window length times a zoom
/// denominator.
pub const MAX_BOUND: i64 = 2199023255552;

} // verus!
