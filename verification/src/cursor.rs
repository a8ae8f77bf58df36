//! Mapping physical cursor and touch positions back into world coordinates.
//!
//! The unprojector clamps a physical pointer position into the active
//! viewport rectangle, normalises it along each axis, and rescales it into
//! the world span of the projection — the inverse of the viewport
//! transform. When no pointer position is available the previous world
//! position is kept; render-to-texture cameras are reported as unsupported.

use vstd::arithmetic::div_mod::lemma_fundamental_div_mod;
use vstd::prelude::*;

use crate::frac::Frac;
use crate::scaled::ScaledPixelProjection;
use crate::viewport::ViewportRect;
use crate::{MAX_BOUND, MAX_DIM};

verus! {

/// Failure of the cursor unprojector.
#[derive(Clone, Copy, Debug, PartialEq, Eq, Structural)]
pub enum CursorError {
    /// The camera renders to a texture, which has no viewport mapping to
    /// invert; cursor mapping is not supported for it.
    TextureModeUnsupported,
}

/// The cursor's last known position in world coordinates.
#[derive(Clone, Copy, Debug, PartialEq, Eq, Structural)]
pub struct WorldCursorPostion {
    pub x: Frac,
    pub y: Frac,
}

/// `v` clamped into the closed interval from `lo` to `hi`.
pub open spec fn spec_clamp(v: int, lo: int, hi: int) -> int {
    if v < lo {
        lo
    } else if v > hi {
        hi
    } else {
        v
    }
}

/// The world coordinate of a physical position along one axis: the position
/// is clamped into the viewport interval, normalised by the viewport
/// length, and rescaled into the world span from `low` to `high`. The
/// result is the exact rational `low + (clamped - off) / len * (high - low)`.
pub open spec fn spec_unproject_axis(p: u32, off: u32, len: u32, low: int, high: Frac)
    -> Frac
{
    let dx = spec_clamp(p as int, off as int, off + len) - off;
    Frac {
        num: (low * (high.den * len) + dx * (high.num - low * high.den)) as i64,
        den: (high.den * len) as i64,
    }
}

/// The world position of the cursor. A texture-mode camera is rejected; a
/// missing pointer keeps the previous position; with no viewport rectangle
/// the whole window is the mapping region, and a window with a zero
/// dimension keeps the previous position.
pub open spec fn spec_update_world_cursor(
    cursor: Option<(u32, u32)>,
    viewport: Option<ViewportRect>,
    window_width: u32,
    window_height: u32,
    proj: ScaledPixelProjection,
    texture_mode: bool,
    prev: WorldCursorPostion,
) -> Result<WorldCursorPostion, CursorError> {
    if texture_mode {
        Err(CursorError::TextureModeUnsupported)
    } else {
        match cursor {
            None => Ok(prev),
            Some(c) => match viewport {
                Some(v) => Ok(
                    WorldCursorPostion {
                        x: spec_unproject_axis(c.0, v.offset_x, v.width, proj.left as int,
                            proj.right),
                        y: spec_unproject_axis(c.1, v.offset_y, v.height, proj.bottom as int,
                            proj.top),
                    },
                ),
                None => if window_width == 0 || window_height == 0 {
                    Ok(prev)
                } else {
                    Ok(
                        WorldCursorPostion {
                            x: spec_unproject_axis(c.0, 0, window_width, proj.left as int,
                                proj.right),
                            y: spec_unproject_axis(c.1, 0, window_height, proj.bottom as int,
                                proj.top),
                        },
                    )
                },
            },
        }
    }
}

/// Bounds on the products of one unprojected axis, so that every
/// intermediate value, including the full numerator, fits in an `i64`.
proof fn lemma_unproject_bounds(dx: int, len: int, low: int, high: Frac)
    by (nonlinear_arith)
    requires
        0 <= dx <= len,
        1 <= len <= 1048576,
        -1048576 <= low <= 1048576,
        -2199023255552 <= high.num <= 2199023255552,
        1 <= high.den <= 1048576,
    ensures
        1 <= high.den * len <= 1099511627776int,
        -1099511627776int <= low * high.den <= 1099511627776int,
        -3458764513820540928int <= dx * (high.num - low * high.den) <= 3458764513820540928int,
        -1152921504606846976int <= low * (high.den * len) <= 1152921504606846976int,
{
}

/// The world coordinate of a physical position along one axis.
fn unproject_axis(p: u32, off: u32, len: u32, low: i64, high: Frac) -> (r: Frac)
    requires
        1 <= len,
        off + len <= MAX_DIM,
        -(MAX_DIM as int) <= low <= MAX_DIM,
        high.bounded(MAX_BOUND as int),
        1 <= high.den <= MAX_DIM,
    ensures
        r == spec_unproject_axis(p, off, len, low as int, high),
        r.wf(),
{
    let hi: u32 = off + len;
    let c: u32 = if p < off {
        off
    } else if p > hi {
        hi
    } else {
        p
    };
    let dx: i64 = (c - off) as i64;
    proof {
        lemma_unproject_bounds(dx as int, len as int, low as int, high);
    }
    let den: i64 = high.den * (len as i64);
    let span_num: i64 = high.num - low * high.den;
    Frac { num: low * den + dx * span_num, den }
}

/// Unprojecting the midpoint of an axis interval of even length lands
/// exactly on the midpoint of the world span: the value of the result
/// equals `(low + high) / 2`.
proof fn lemma_center_axis(off: u32, len: u32, low: int, high: Frac)
    requires
        1 <= len,
        off + len <= MAX_DIM,
        len % 2 == 0,
        -(MAX_DIM as int) <= low <= MAX_DIM,
        high.bounded(MAX_BOUND as int),
        1 <= high.den <= MAX_DIM,
    ensures
        ({
            let w = spec_unproject_axis((off + len / 2) as u32, off, len, low, high);
            let center = Frac {
                num: (low * high.den + high.num) as i64,
                den: (2 * high.den) as i64,
            };
            w.eq_val(center)
        }),
{
    let t = len as int / 2;
    lemma_fundamental_div_mod(len as int, 2);
    assert(len == 2 * t);
    let p = (off + len / 2) as u32;
    assert(spec_clamp(p as int, off as int, off + len) == p);
    let dx = p - off;
    assert(dx == t);
    lemma_unproject_bounds(dx as int, len as int, low, high);
    let n = low * (high.den * len) + dx * (high.num - low * high.den);
    let d = high.den * len;
    assert(i64::MIN <= n <= i64::MAX);
    assert(i64::MIN <= d <= i64::MAX);
    let w = spec_unproject_axis(p, off, len, low, high);
    assert(w.num == n && w.den == d);
    let cn = low * high.den + high.num;
    let cd = 2 * high.den;
    // With dx exactly half the length, the affine combination collapses to
    // the midpoint of the span: n * (2 den) == (low den + num) * (den len).
    assert(n * cd == cn * d) by (nonlinear_arith)
        requires
            n == low * (high.den * len) + t * (high.num - low * high.den),
            d == high.den * len,
            cn == low * high.den + high.num,
            cd == 2 * high.den,
            len == 2 * t,
    ;
}

/// A physical point at the exact center of the viewport rectangle maps to
/// the world-space center of the projection: for a centered projection this
/// is the camera's world-space center.
pub proof fn lemma_cursor_center_roundtrip(proj: ScaledPixelProjection, v: ViewportRect)
    requires
        proj.wf(),
        proj.centered,
        v.wf(),
        v.width % 2 == 0,
        v.height % 2 == 0,
    ensures
        ({
            let c = ((v.offset_x + v.width / 2) as u32, (v.offset_y + v.height / 2) as u32);
            let w = spec_unproject_axis(c.0, v.offset_x, v.width, proj.left as int, proj.right);
            let center_x = Frac {
                num: (proj.left * proj.right.den + proj.right.num) as i64,
                den: (2 * proj.right.den) as i64,
            };
            w.eq_val(center_x)
        }),
        ({
            let c = ((v.offset_x + v.width / 2) as u32, (v.offset_y + v.height / 2) as u32);
            let w = spec_unproject_axis(c.1, v.offset_y, v.height, proj.bottom as int, proj.top);
            let center_y = Frac {
                num: (proj.bottom * proj.top.den + proj.top.num) as i64,
                den: (2 * proj.top.den) as i64,
            };
            w.eq_val(center_y)
        }),
{
    lemma_center_axis(v.offset_x, v.width, proj.left as int, proj.right);
    lemma_center_axis(v.offset_y, v.height, proj.bottom as int, proj.top);
}

/// Map a physical pointer or touch position to world coordinates through
/// the active viewport.
///
/// A texture-mode camera yields an error instead of a mapping. A missing
/// pointer keeps the previous world position. With a viewport rectangle the
/// position is clamped into it and unprojected through the projection
/// bounds; without one the whole window serves as the mapping region, and a
/// window with a zero dimension keeps the previous position.
pub fn update_world_cursor(
    cursor: Option<(u32, u32)>,
    viewport: Option<ViewportRect>,
    window_width: u32,
    window_height: u32,
    proj: &ScaledPixelProjection,
    texture_mode: bool,
    prev: WorldCursorPostion,
) -> (r: Result<WorldCursorPostion, CursorError>)
    requires
        proj.wf(),
        window_width <= MAX_DIM,
        window_height <= MAX_DIM,
        viewport matches Some(v) ==> v.wf(),
    ensures
        r == spec_update_world_cursor(cursor, viewport, window_width, window_height, *proj,
            texture_mode, prev),
{
    if texture_mode {
        return Err(CursorError::TextureModeUnsupported);
    }
    match cursor {
        None => Ok(prev),
        Some(c) => match viewport {
            Some(v) => Ok(
                WorldCursorPostion {
                    x: unproject_axis(c.0, v.offset_x, v.width, proj.left, proj.right),
                    y: unproject_axis(c.1, v.offset_y, v.height, proj.bottom, proj.top),
                },
            ),
            None => {
                if window_width == 0 || window_height == 0 {
                    Ok(prev)
                } else {
                    Ok(
                        WorldCursorPostion {
                            x: unproject_axis(c.0, 0, window_width, proj.left, proj.right),
                            y: unproject_axis(c.1, 0, window_height, proj.bottom, proj.top),
                        },
                    )
                }
            },
        },
    }
}

} // verus!
