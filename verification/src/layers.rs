//! Depth layering for sprites.
//!
//! Sprites are sorted by layer; the value inside a layer also affects the
//! ordering, and every foreground layer sits above the background band.

use vstd::prelude::*;

verus! {

/// A sprite's depth layer. The value inside the variant refines the
/// ordering within the band.
#[derive(Debug, Copy, Clone, PartialEq, Eq, Hash)]
pub enum PixelLayer {
    Background(u8),
    Foreground(u8),
}

impl PixelLayer {
    /// The depth coordinate of the layer: background layers occupy the
    /// first 256 slots, foreground layers the 256 slots above them.
    pub open spec fn spec_z(self) -> int {
        match self {
            PixelLayer::Background(v) => v as int,
            PixelLayer::Foreground(v) => 255 + v,
        }
    }

    /// Convert the layer to its depth coordinate.
    pub fn as_z_coordinate(&self) -> (z: u16)
        ensures
            z == self.spec_z(),
    {
        match *self {
            PixelLayer::Background(v) => v as u16,
            PixelLayer::Foreground(v) => 255 + v as u16,
        }
    }
}

} // verus!
