//! The sub-rectangle of the physical window that receives rendered output.

use vstd::prelude::*;

use crate::MAX_DIM;

verus! {

/// A rectangle in physical window pixels: an offset from the window's
/// corner and a size. Leftover window space outside the rectangle is
/// letterboxed.
#[derive(Clone, Copy, Debug, PartialEq, Eq, Structural)]
pub struct ViewportRect {
    pub offset_x: u32,
    pub offset_y: u32,
    pub width: u32,
    pub height: u32,
}

impl ViewportRect {
    /// The rectangle has positive area and lies within a window of bounded
    /// size, so no physical coordinate inside it overflows.
    pub open spec fn wf(self) -> bool {
        &&& 1 <= self.width
        &&& 1 <= self.height
        &&& self.offset_x + self.width <= MAX_DIM
        &&& self.offset_y + self.height <= MAX_DIM
    }
}

} // verus!
