//! Render-to-texture camera configuration and its letterbox fit.
//!
//! A texture camera renders the scene onto a virtual canvas of a fixed
//! pixel size; the canvas is then scaled into the largest sub-rectangle of
//! the window that keeps the canvas's aspect ratio, centered, with the
//! leftover window space letterboxed.

use vstd::prelude::*;

use crate::frac::Frac;
use crate::viewport::ViewportRect;
use crate::MAX_DIM;

verus! {

/// Configuration of a camera that renders to a fixed-size virtual canvas.
#[derive(Clone, Copy, Debug, PartialEq, Eq)]
pub struct TexturePixelCamera {
    /// Size of the virtual canvas in pixels. A zero dimension leaves that
    /// axis unconstrained and disables the letterbox fit.
    pub size: (u32, u32),
    /// Which axis, if any, is held fixed while the other may grow:
    /// `Some(false)` keeps the height, `Some(true)` keeps the width.
    pub fixed_axis: Option<bool>,
}

impl TexturePixelCamera {
    /// The canvas fits inside the bounded coordinate range.
    pub open spec fn wf(self) -> bool {
        &&& self.size.0 <= MAX_DIM
        &&& self.size.1 <= MAX_DIM
    }

    /// A camera with the given canvas size and fixed axis.
    pub fn new(size: (u32, u32), axis: Option<bool>) -> (r: Self)
        requires
            size.0 <= MAX_DIM,
            size.1 <= MAX_DIM,
        ensures
            r.size == size,
            r.fixed_axis == axis,
            r.wf(),
    {
        TexturePixelCamera { size, fixed_axis: axis }
    }

    /// A camera with a fixed canvas height, free to scale horizontally.
    pub fn from_height(height: u32) -> (r: Self)
        requires
            height <= MAX_DIM,
        ensures
            r.size == (0u32, height),
            r.fixed_axis == Some(false),
            r.wf(),
    {
        TexturePixelCamera { size: (0, height), fixed_axis: Some(false) }
    }

    /// A camera with a fixed canvas width, free to scale vertically.
    pub fn from_width(width: u32) -> (r: Self)
        requires
            width <= MAX_DIM,
        ensures
            r.size == (width, 0u32),
            r.fixed_axis == Some(true),
            r.wf(),
    {
        TexturePixelCamera { size: (width, 0), fixed_axis: Some(true) }
    }

    /// A camera with a fixed canvas resolution.
    pub fn from_resolution(width: u32, height: u32) -> (r: Self)
        requires
            width <= MAX_DIM,
            height <= MAX_DIM,
        ensures
            r.size == (width, height),
            r.fixed_axis == None::<bool>,
            r.wf(),
    {
        TexturePixelCamera { size: (width, height), fixed_axis: None }
    }
}

impl Default for TexturePixelCamera {
    /// The default virtual canvas of 256 by 224 pixels.
    fn default() -> (r: Self)
        ensures
            r.size == (256u32, 224u32),
            r.fixed_axis == None::<bool>,
            r.wf(),
    {
        TexturePixelCamera { size: (256, 224), fixed_axis: None }
    }
}

/// The largest sub-rectangle of a `w` by `h` window with the aspect ratio
/// `dw : dh`, as a pair of side lengths, each clamped to the window. When
/// the window is taller than the canvas shape, the width is kept and the
/// height is scaled down; otherwise the height is kept.
pub open spec fn spec_aspect_fit(w: u32, h: u32, dw: u32, dh: u32) -> (int, int) {
    if h > w || h * dw > w * dh {
        let vh = (w * dh) / (dw as int);
        (w as int, if vh <= h { vh } else { h as int })
    } else {
        let vw = (h * dw) / (dh as int);
        (if vw <= w { vw } else { w as int }, h as int)
    }
}

/// The letterbox fit of a virtual canvas into a window: the centered
/// viewport rectangle with the canvas's aspect ratio, and the horizontal
/// and vertical scale factors from canvas pixels to window pixels. A window
/// or canvas with a zero dimension, or a fit with a zero dimension, yields
/// nothing and the caller keeps its previous state.
pub open spec fn spec_scale_render_image(size: (u32, u32), w: u32, h: u32)
    -> Option<(ViewportRect, Frac, Frac)>
{
    let dw = size.0;
    let dh = size.1;
    if w == 0 || h == 0 || dw == 0 || dh == 0 {
        None
    } else {
        let fit = spec_aspect_fit(w, h, dw, dh);
        let vw = fit.0;
        let vh = fit.1;
        if vw == 0 || vh == 0 {
            None
        } else {
            Some(
                (
                    ViewportRect {
                        offset_x: ((w - vw) / 2) as u32,
                        offset_y: ((h - vh) / 2) as u32,
                        width: vw as u32,
                        height: vh as u32,
                    },
                    Frac { num: vw as i64, den: dw as i64 },
                    Frac { num: vh as i64, den: dh as i64 },
                ),
            )
        }
    }
}

/// Compute how the rendered canvas is scaled into the window: the largest
/// centered sub-rectangle with the canvas's aspect ratio, and the per-axis
/// scale factors for the canvas quad. Degenerate windows, canvases, and
/// zero-area fits are rejected so the caller keeps its previous viewport.
pub fn scale_render_image(cam: &TexturePixelCamera, width: u32, height: u32)
    -> (r: Option<(ViewportRect, Frac, Frac)>)
    requires
        cam.wf(),
        width <= MAX_DIM,
        height <= MAX_DIM,
    ensures
        r == spec_scale_render_image(cam.size, width, height),
        r matches Some(t) ==> t.0.wf() && t.1.wf() && t.2.wf(),
{
    let (dw, dh) = cam.size;
    if width == 0 || height == 0 || dw == 0 || dh == 0 {
        return None;
    }
    proof {
        lemma_aspect_products(width as int, height as int, dw as int, dh as int);
    }
    let tall = height > width || (height as u64) * (dw as u64) > (width as u64) * (dh as u64);
    let (vw, vh): (u32, u32) = if tall {
        let v = ((width as u64) * (dh as u64)) / (dw as u64);
        (width, if v <= height as u64 { v as u32 } else { height })
    } else {
        let v = ((height as u64) * (dw as u64)) / (dh as u64);
        (if v <= width as u64 { v as u32 } else { width }, height)
    };
    if vw == 0 || vh == 0 {
        return None;
    }
    proof {
        crate::frac::lemma_div_range((width - vw) as int, 2);
        crate::frac::lemma_div_range((height - vh) as int, 2);
    }
    Some(
        (
            ViewportRect {
                offset_x: (width - vw) / 2,
                offset_y: (height - vh) / 2,
                width: vw,
                height: vh,
            },
            Frac { num: vw as i64, den: dw as i64 },
            Frac { num: vh as i64, den: dh as i64 },
        ),
    )
}

/// A computed letterbox fit always lies within the window: whenever the
/// fit succeeds, the viewport's offset plus its size stays inside each
/// window dimension.
pub proof fn lemma_fit_within_window(size: (u32, u32), w: u32, h: u32)
    requires
        size.0 <= MAX_DIM,
        size.1 <= MAX_DIM,
        w <= MAX_DIM,
        h <= MAX_DIM,
    ensures
        spec_scale_render_image(size, w, h) matches Some(t) ==> ({
            &&& t.0.offset_x + t.0.width <= w
            &&& t.0.offset_y + t.0.height <= h
        }),
{
    let dw = size.0;
    let dh = size.1;
    if w > 0 && h > 0 && dw > 0 && dh > 0 {
        lemma_aspect_products(w as int, h as int, dw as int, dh as int);
        let fit = spec_aspect_fit(w, h, dw, dh);
        if fit.0 > 0 && fit.1 > 0 {
            crate::frac::lemma_div_range(w - fit.0, 2);
            crate::frac::lemma_div_range(h - fit.1, 2);
        }
    }
}

/// Bounds on the cross products of the aspect comparison and the fitted
/// lengths, so the computation stays within `u64` and matches the
/// mathematical fit.
proof fn lemma_aspect_products(w: int, h: int, dw: int, dh: int)
    requires
        1 <= w <= MAX_DIM,
        1 <= h <= MAX_DIM,
        1 <= dw <= MAX_DIM,
        1 <= dh <= MAX_DIM,
    ensures
        0 <= h * dw <= 1099511627776int,
        0 <= w * dh <= 1099511627776int,
        0 <= (w * dh) / dw,
        0 <= (h * dw) / dh,
{
    assert(0 <= h * dw <= 1099511627776int && 0 <= w * dh <= 1099511627776int)
        by (nonlinear_arith)
        requires
            1 <= w <= 1048576,
            1 <= h <= 1048576,
            1 <= dw <= 1048576,
            1 <= dh <= 1048576,
    ;
    crate::frac::lemma_div_range(w * dh, dw);
    crate::frac::lemma_div_range(h * dw, dh);
}

} // verus!
