//! Pixel-perfect orthographic projection fitting.
//!
//! Given a window's physical size and a desired virtual resolution (or a
//! fixed zoom), [`ScaledPixelProjection::update`] computes a zoom factor of
//! at least one and the orthographic projection bounds of the virtual
//! camera, keeping integral world coordinates aligned with virtual pixels.
//! [`update_scaled_viewport`] computes the centered sub-rectangle of the
//! window that receives the scaled virtual frame, letterboxing the rest.

use vstd::arithmetic::div_mod::lemma_fundamental_div_mod;
use vstd::prelude::*;

use crate::frac::Frac;
use crate::viewport::ViewportRect;
use crate::{MAX_BOUND, MAX_DIM};

verus! {

/// State of a pixel-perfect orthographic projection.
///
/// `left`, `right`, `bottom` and `top` are the projection bounds in world
/// (virtual pixel) coordinates. The left and bottom bounds are always whole
/// numbers, so that the world origin sits on the pixel grid; the right and
/// top bounds are exact rationals.
#[derive(Clone, Copy, Debug, PartialEq, Eq)]
pub struct ScaledPixelProjection {
    pub left: i64,
    pub right: Frac,
    pub bottom: i64,
    pub top: Frac,
    pub near: i64,
    pub far: i64,
    /// If present and positive, the zoom is recomputed on update so that
    /// this many virtual pixels fit across the window's width.
    pub desired_width: Option<u32>,
    /// If present and positive, the zoom is recomputed on update so that
    /// this many virtual pixels fit across the window's height.
    pub desired_height: Option<u32>,
    /// Scale factor from virtual pixels to physical pixels. Fixed by the
    /// caller when neither desired dimension is present, recomputed on
    /// update otherwise.
    pub zoom: Frac,
    /// If true, the world origin is the pixel closest to the center of the
    /// window; otherwise it is at the bottom left.
    pub centered: bool,
    /// If true, the zoom may be fractional; otherwise it is rounded to a
    /// whole number of physical pixels per virtual pixel.
    pub imperfect: bool,
}

/// A zoom factor whose parts are positive and small enough for all
/// intermediate products of the kernel to fit in 64-bit arithmetic.
pub open spec fn zoom_wf(z: Frac) -> bool {
    &&& 1 <= z.num <= MAX_DIM
    &&& 1 <= z.den <= MAX_DIM
}

impl ScaledPixelProjection {
    /// Well-formedness: the zoom and the desired resolution are bounded, and
    /// the projection bounds lie within the ranges that an update with a
    /// bounded window can produce.
    pub open spec fn wf(self) -> bool {
        &&& zoom_wf(self.zoom)
        &&& -(MAX_DIM as int) <= self.left <= MAX_DIM
        &&& -(MAX_DIM as int) <= self.bottom <= MAX_DIM
        &&& self.right.bounded(MAX_BOUND as int)
        &&& self.top.bounded(MAX_BOUND as int)
        &&& self.right.den <= MAX_DIM
        &&& self.top.den <= MAX_DIM
        &&& match self.desired_width {
            Some(d) => d <= MAX_DIM,
            None => true,
        }
        &&& match self.desired_height {
            Some(d) => d <= MAX_DIM,
            None => true,
        }
    }
}

/// The fit ratio contributed by one axis: window length over desired
/// length, when a positive desired length constrains that axis.
pub open spec fn spec_axis_zoom(window: u32, desired: Option<u32>) -> Option<Frac> {
    match desired {
        Some(d) => if d > 0 {
            Some(Frac { num: window as i64, den: d as i64 })
        } else {
            None
        },
        None => None,
    }
}

/// Whether any axis constrains the zoom, i.e. auto-fit mode is active.
pub open spec fn spec_auto_fit(dw: Option<u32>, dh: Option<u32>) -> bool {
    spec_axis_zoom(0, dw) matches Some(_) || spec_axis_zoom(0, dh) matches Some(_)
}

/// The fractional zoom before rounding: the smaller of the two axis ratios,
/// clamped from below to one; the current zoom when no axis constrains it.
pub open spec fn spec_raw_zoom(
    w: u32,
    h: u32,
    dw: Option<u32>,
    dh: Option<u32>,
    cur: Frac,
) -> Frac {
    match (spec_axis_zoom(w, dw), spec_axis_zoom(h, dh)) {
        (Some(zx), Some(zy)) => zx.spec_min(zy).spec_clamp_one(),
        (Some(zx), None) => zx.spec_clamp_one(),
        (None, Some(zy)) => zy.spec_clamp_one(),
        (None, None) => cur,
    }
}

/// The final zoom of an update. In auto-fit mode the fractional fit is
/// floored to a whole number unless fractional zoom is allowed; in fixed
/// mode the configured zoom is rounded to the nearest whole number. Either
/// way the result is at least one.
pub open spec fn spec_fit_zoom(
    w: u32,
    h: u32,
    dw: Option<u32>,
    dh: Option<u32>,
    cur: Frac,
    imperfect: bool,
) -> Frac {
    let raw = spec_raw_zoom(w, h, dw, dh, cur);
    if imperfect {
        raw.spec_clamp_one()
    } else if spec_auto_fit(dw, dh) {
        Frac { num: raw.spec_clamp_one().floor() as i64, den: 1 }
    } else {
        let r = raw.round();
        Frac { num: (if r < 1 { 1int } else { r }) as i64, den: 1 }
    }
}

/// The left (or bottom) projection bound: zero at the bottom left, or the
/// negated half of the floored span when centered, so that the origin lies
/// on the pixel grid.
pub open spec fn spec_low_bound(window: u32, z: Frac, centered: bool) -> int {
    if centered {
        -(((window * z.den) / (z.num as int)) / 2)
    } else {
        0
    }
}

/// The right (or top) projection bound: the low bound plus the exact span.
pub open spec fn spec_high_bound(window: u32, z: Frac, centered: bool) -> Frac {
    Frac {
        num: (spec_low_bound(window, z, centered) * z.num + window * z.den) as i64,
        den: z.num,
    }
}

/// The projection after fitting to a window: unchanged when either window
/// dimension is zero, otherwise the new zoom and bounds with the
/// configuration fields kept.
pub open spec fn spec_update(s: ScaledPixelProjection, width: u32, height: u32)
    -> ScaledPixelProjection
{
    if width == 0 || height == 0 {
        s
    } else {
        let z = spec_fit_zoom(width, height, s.desired_width, s.desired_height, s.zoom,
            s.imperfect);
        ScaledPixelProjection {
            zoom: z,
            left: spec_low_bound(width, z, s.centered) as i64,
            right: spec_high_bound(width, z, s.centered),
            bottom: spec_low_bound(height, z, s.centered) as i64,
            top: spec_high_bound(height, z, s.centered),
            ..s
        }
    }
}

/// The zoom that an update with positive window dimensions computes.
fn compute_zoom(
    width: u32,
    height: u32,
    dw: Option<u32>,
    dh: Option<u32>,
    cur: Frac,
    imperfect: bool,
) -> (z: Frac)
    requires
        1 <= width <= MAX_DIM,
        1 <= height <= MAX_DIM,
        zoom_wf(cur),
        dw matches Some(d) ==> d <= MAX_DIM,
        dh matches Some(d) ==> d <= MAX_DIM,
    ensures
        z == spec_fit_zoom(width, height, dw, dh, cur, imperfect),
        zoom_wf(z),
        z.at_least_one(),
        !imperfect ==> z.den == 1,
{
    let zx: Option<Frac> = match dw {
        Some(d) => if d > 0 {
            Some(Frac { num: width as i64, den: d as i64 })
        } else {
            None
        },
        None => None,
    };
    let zy: Option<Frac> = match dh {
        Some(d) => if d > 0 {
            Some(Frac { num: height as i64, den: d as i64 })
        } else {
            None
        },
        None => None,
    };
    let auto = zx.is_some() || zy.is_some();
    let raw: Frac = match (zx, zy) {
        (Some(a), Some(b)) => a.min(b).clamp_one(),
        (Some(a), None) => a.clamp_one(),
        (None, Some(b)) => b.clamp_one(),
        (None, None) => cur,
    };
    if imperfect {
        raw.clamp_one()
    } else if auto {
        let c = raw.clamp_one();
        proof {
            crate::frac::lemma_div_at_least_one(c.num as int, c.den as int);
            crate::frac::lemma_div_range(c.num as int, c.den as int);
        }
        Frac { num: c.num / c.den, den: 1 }
    } else {
        proof {
            crate::frac::lemma_round_range(raw.num as int, raw.den as int);
        }
        let r = (2 * raw.num + raw.den) / (2 * raw.den);
        Frac { num: if r < 1 { 1 } else { r }, den: 1 }
    }
}

/// The projection bounds of one axis: the low bound on the pixel grid and
/// the high bound exactly one span above it.
fn fit_axis(window: u32, z: Frac, centered: bool) -> (r: (i64, Frac))
    requires
        window <= MAX_DIM,
        zoom_wf(z),
        z.at_least_one(),
    ensures
        r.0 == spec_low_bound(window, z, centered),
        r.1 == spec_high_bound(window, z, centered),
        -(MAX_DIM as int) <= r.0 <= 0,
        r.1.bounded(MAX_BOUND as int),
        r.1.den == z.num,
{
    proof {
        lemma_span_products(window as int, z.num as int, z.den as int);
    }
    let span: i64 = (window as i64) * z.den;
    let low: i64 = if centered {
        -((span / z.num) / 2)
    } else {
        0
    };
    proof {
        let q2 = ((window * z.den) / (z.num as int)) / 2;
        assert((-q2) * z.num == -(q2 * z.num)) by (nonlinear_arith);
    }
    let high = Frac { num: low * z.num + span, den: z.num };
    (low, high)
}

impl ScaledPixelProjection {
    /// Refit the projection to a window of the given physical size.
    ///
    /// A window with a zero dimension leaves the projection unchanged.
    /// Otherwise the zoom is recomputed (a whole number unless fractional
    /// zoom is allowed, and always at least one) and the bounds are set so
    /// that the world span is exactly the window size divided by the zoom.
    pub fn update(&mut self, width: u32, height: u32)
        requires
            old(self).wf(),
            width <= MAX_DIM,
            height <= MAX_DIM,
        ensures
            *final(self) == spec_update(*old(self), width, height),
            final(self).wf(),
            width > 0 && height > 0 ==> final(self).zoom.at_least_one(),
            width > 0 && height > 0 && !old(self).imperfect ==> final(self).zoom.den == 1,
    {
        if width == 0 || height == 0 {
            return;
        }
        let z = compute_zoom(width, height, self.desired_width, self.desired_height, self.zoom,
            self.imperfect);
        let (left, right) = fit_axis(width, z, self.centered);
        let (bottom, top) = fit_axis(height, z, self.centered);
        self.zoom = z;
        self.left = left;
        self.right = right;
        self.bottom = bottom;
        self.top = top;
    }
}

/// The projection before its first fit: a unit span about the origin,
/// centered, with a whole-number zoom of one and no desired resolution.
pub open spec fn spec_default_projection() -> ScaledPixelProjection {
    ScaledPixelProjection {
        left: -1i64,
        right: Frac { num: 1, den: 1 },
        bottom: -1i64,
        top: Frac { num: 1, den: 1 },
        near: 0,
        far: 1000,
        desired_width: None,
        desired_height: None,
        zoom: Frac { num: 1, den: 1 },
        centered: true,
        imperfect: false,
    }
}

impl Default for ScaledPixelProjection {
    fn default() -> (r: Self)
        ensures
            r == spec_default_projection(),
            r.wf(),
    {
        ScaledPixelProjection {
            left: -1,
            right: Frac { num: 1, den: 1 },
            bottom: -1,
            top: Frac { num: 1, den: 1 },
            near: 0,
            far: 1000,
            desired_width: None,
            desired_height: None,
            zoom: Frac { num: 1, den: 1 },
            centered: true,
            imperfect: false,
        }
    }
}

impl ScaledPixelProjection {
    /// A projection with a fixed zoom: the size of virtual pixels is set by
    /// the caller and never recomputed. A fractional zoom marks the
    /// projection as imperfect, so updates keep the fraction instead of
    /// rounding it.
    pub fn from_zoom(zoom: Frac) -> (r: Self)
        requires
            zoom_wf(zoom),
        ensures
            r == (ScaledPixelProjection {
                zoom,
                imperfect: !zoom.is_integer(),
                ..spec_default_projection()
            }),
            r.wf(),
    {
        let rem = zoom.num % zoom.den;
        ScaledPixelProjection {
            zoom,
            imperfect: rem != 0,
            ..Default::default()
        }
    }

    /// A projection whose zoom is recomputed on every update so that the
    /// given virtual resolution fits inside the window.
    pub fn from_resolution(width: u32, height: u32, imperfect: bool) -> (r: Self)
        requires
            width <= MAX_DIM,
            height <= MAX_DIM,
        ensures
            r == (ScaledPixelProjection {
                desired_width: Some(width),
                desired_height: Some(height),
                imperfect,
                ..spec_default_projection()
            }),
            r.wf(),
    {
        ScaledPixelProjection {
            desired_width: Some(width),
            desired_height: Some(height),
            imperfect,
            ..Default::default()
        }
    }

    /// A projection whose zoom is recomputed on every update so that the
    /// given virtual width fits inside the window.
    pub fn from_width(width: u32, imperfect: bool) -> (r: Self)
        requires
            width <= MAX_DIM,
        ensures
            r == (ScaledPixelProjection {
                desired_width: Some(width),
                imperfect,
                ..spec_default_projection()
            }),
            r.wf(),
    {
        ScaledPixelProjection {
            desired_width: Some(width),
            imperfect,
            ..Default::default()
        }
    }

    /// A projection whose zoom is recomputed on every update so that the
    /// given virtual height fits inside the window.
    pub fn from_height(height: u32, imperfect: bool) -> (r: Self)
        requires
            height <= MAX_DIM,
        ensures
            r == (ScaledPixelProjection {
                desired_height: Some(height),
                imperfect,
                ..spec_default_projection()
            }),
            r.wf(),
    {
        ScaledPixelProjection {
            desired_height: Some(height),
            imperfect,
            ..Default::default()
        }
    }
}

/// Bounds on the products and quotients that the update computes for one
/// axis, for a zoom of at least one: the span numerator fits under
/// `MAX_DIM` squared, the floored span is at most the window length, and
/// the half-span times the zoom numerator stays bounded as well.
proof fn lemma_span_products(w: int, num: int, den: int)
    requires
        0 <= w <= MAX_DIM,
        1 <= num <= MAX_DIM,
        1 <= den <= num,
    ensures
        0 <= w * den <= 1099511627776int,
        0 <= (w * den) / num <= w,
        0 <= ((w * den) / num) / 2 <= w,
        0 <= (((w * den) / num) / 2) * num <= 1099511627776int,
{
    assert(0 <= w * den <= 1099511627776int) by (nonlinear_arith)
        requires
            0 <= w <= 1048576,
            1 <= den <= 1048576,
    ;
    let s = w * den;
    lemma_fundamental_div_mod(s, num);
    let q = s / num;
    let r = s % num;
    assert(0 <= q <= w) by (nonlinear_arith)
        requires
            s == num * q + r,
            0 <= r < num,
            s == w * den,
            0 <= w,
            1 <= den <= num,
    ;
    crate::frac::lemma_div_range(q, 2);
    assert(0 <= (q / 2) * num <= 1099511627776int) by (nonlinear_arith)
        requires
            0 <= q / 2 <= w <= 1048576,
            1 <= num <= 1048576,
    ;
}

/// The length of the viewport along one axis: the desired length scaled by
/// the zoom and floored to whole physical pixels, clamped to the window;
/// the full window length when the axis is unconstrained.
pub open spec fn spec_axis_len(window: u32, desired: Option<u32>, z: Frac) -> int {
    match desired {
        Some(d) => if d > 0 {
            let v = (z.num * d) / (z.den as int);
            if v <= window {
                v
            } else {
                window as int
            }
        } else {
            window as int
        },
        None => window as int,
    }
}

/// The centered viewport rectangle for a window: the scaled desired
/// resolution, letterboxed by halving the slack on each axis. A window or a
/// scaled size with a zero dimension keeps the previous rectangle.
pub open spec fn spec_scaled_viewport(
    proj: ScaledPixelProjection,
    width: u32,
    height: u32,
    prev: Option<ViewportRect>,
) -> Option<ViewportRect> {
    if width == 0 || height == 0 {
        prev
    } else {
        let vw = spec_axis_len(width, proj.desired_width, proj.zoom);
        let vh = spec_axis_len(height, proj.desired_height, proj.zoom);
        if vw == 0 || vh == 0 {
            prev
        } else {
            Some(ViewportRect {
                offset_x: ((width - vw) / 2) as u32,
                offset_y: ((height - vh) / 2) as u32,
                width: vw as u32,
                height: vh as u32,
            })
        }
    }
}

/// The viewport length of one axis.
fn axis_len(window: u32, desired: Option<u32>, z: Frac) -> (r: u32)
    requires
        window <= MAX_DIM,
        zoom_wf(z),
        desired matches Some(d) ==> d <= MAX_DIM,
    ensures
        r == spec_axis_len(window, desired, z),
        r <= window,
{
    match desired {
        Some(d) => {
            if d > 0 {
                proof {
                    assert(0 <= z.num * d <= 1099511627776int) by (nonlinear_arith)
                        requires
                            1 <= z.num <= 1048576,
                            0 < d <= 1048576,
                    ;
                    crate::frac::lemma_div_range(z.num * d, z.den as int);
                }
                let v = (z.num * (d as i64)) / z.den;
                if v <= window as i64 {
                    v as u32
                } else {
                    window
                }
            } else {
                window
            }
        },
        None => window,
    }
}

/// Compute the viewport rectangle that the scaled virtual frame is rendered
/// into: the desired resolution times the zoom, centered in the window with
/// the slack split evenly. A window with a zero dimension, or a scaled size
/// with a zero dimension, is rejected and the previous rectangle is kept.
pub fn update_scaled_viewport(
    proj: &ScaledPixelProjection,
    width: u32,
    height: u32,
    prev: Option<ViewportRect>,
) -> (r: Option<ViewportRect>)
    requires
        proj.wf(),
        width <= MAX_DIM,
        height <= MAX_DIM,
        prev matches Some(p) ==> p.wf(),
    ensures
        r == spec_scaled_viewport(*proj, width, height, prev),
        r matches Some(v) ==> v.wf(),
{
    if width == 0 || height == 0 {
        return prev;
    }
    let vw = axis_len(width, proj.desired_width, proj.zoom);
    let vh = axis_len(height, proj.desired_height, proj.zoom);
    if vw == 0 || vh == 0 {
        return prev;
    }
    proof {
        crate::frac::lemma_div_range((width - vw) as int, 2);
        crate::frac::lemma_div_range((height - vh) as int, 2);
    }
    Some(ViewportRect {
        offset_x: (width - vw) / 2,
        offset_y: (height - vh) / 2,
        width: vw,
        height: vh,
    })
}

/// A freshly computed viewport rectangle always lies within the window:
/// whenever the fit is not degenerate, the offset plus the size stays
/// inside each window dimension.
pub proof fn lemma_viewport_within_window(
    proj: ScaledPixelProjection,
    width: u32,
    height: u32,
    prev: Option<ViewportRect>,
)
    requires
        proj.wf(),
        width <= MAX_DIM,
        height <= MAX_DIM,
    ensures
        ({
            let vw = spec_axis_len(width, proj.desired_width, proj.zoom);
            let vh = spec_axis_len(height, proj.desired_height, proj.zoom);
            width > 0 && height > 0 && vw > 0 && vh > 0 ==> ({
                let v = spec_scaled_viewport(proj, width, height, prev)->Some_0;
                &&& v.offset_x + v.width <= width
                &&& v.offset_y + v.height <= height
            })
        }),
{
    let vw = spec_axis_len(width, proj.desired_width, proj.zoom);
    let vh = spec_axis_len(height, proj.desired_height, proj.zoom);
    if width > 0 && height > 0 && vw > 0 && vh > 0 {
        lemma_axis_len_range(width, proj.desired_width, proj.zoom);
        lemma_axis_len_range(height, proj.desired_height, proj.zoom);
        crate::frac::lemma_div_range(width - vw, 2);
        crate::frac::lemma_div_range(height - vh, 2);
    }
}

/// The fitted axis length never exceeds the window length.
proof fn lemma_axis_len_range(window: u32, desired: Option<u32>, z: Frac)
    requires
        window <= MAX_DIM,
        zoom_wf(z),
        desired matches Some(d) ==> d <= MAX_DIM,
    ensures
        0 <= spec_axis_len(window, desired, z) <= window,
{
    match desired {
        Some(d) => {
            if d > 0 {
                assert(0 <= z.num * d) by (nonlinear_arith)
                    requires
                        1 <= z.num,
                        0 < d,
                ;
                crate::frac::lemma_div_range(z.num * d, z.den as int);
            }
        },
        None => {},
    }
}

/// Fitting twice with the same window size gives the same projection as
/// fitting once: the update is idempotent.
pub proof fn lemma_update_idempotent(s: ScaledPixelProjection, width: u32, height: u32)
    requires
        s.wf(),
        width <= MAX_DIM,
        height <= MAX_DIM,
    ensures
        spec_update(spec_update(s, width, height), width, height)
            == spec_update(s, width, height),
{
    if width > 0 && height > 0 {
        let z1 = spec_fit_zoom(width, height, s.desired_width, s.desired_height, s.zoom,
            s.imperfect);
        let z2 = spec_fit_zoom(width, height, s.desired_width, s.desired_height, z1,
            s.imperfect);
        if !spec_auto_fit(s.desired_width, s.desired_height) && !s.imperfect {
            // The first round stays within the i64 range, so rounding the
            // already whole zoom a second time changes nothing.
            crate::frac::lemma_round_range(s.zoom.num as int, s.zoom.den as int);
            let m: int = if s.zoom.round() < 1 { 1int } else { s.zoom.round() };
            // A whole-number zoom rounds to itself.
            lemma_fundamental_div_mod(2 * m + 1, 2);
            assert(z2 == z1);
        }
        assert(z2 == z1);
    }
}

/// The fit never overflows the window: when both desired dimensions are
/// set, positive, and no larger than the window, the computed zoom times
/// each desired dimension is at most the corresponding window dimension,
/// exactly, whether the zoom is fractional or floored to a whole number.
pub proof fn lemma_fit_never_overflows(
    w: u32,
    h: u32,
    dw: u32,
    dh: u32,
    cur: Frac,
    imperfect: bool,
)
    requires
        1 <= dw <= w <= MAX_DIM,
        1 <= dh <= h <= MAX_DIM,
        zoom_wf(cur),
    ensures
        ({
            let z = spec_fit_zoom(w, h, Some(dw), Some(dh), cur, imperfect);
            &&& z.num * dw <= w * z.den
            &&& z.num * dh <= h * z.den
        }),
{
    let zx = Frac { num: w as i64, den: dw as i64 };
    let zy = Frac { num: h as i64, den: dh as i64 };
    let m = zx.spec_min(zy);
    // Both axis ratios are at least one, so the clamp changes nothing, and
    // the smaller ratio fits both axes by the cross-multiplied comparison.
    assert(m.spec_clamp_one() == m);
    assert(m.num * dw <= w * m.den && m.num * dh <= h * m.den) by (nonlinear_arith)
        requires
            m == zx.spec_min(zy),
            zx == (Frac { num: w as i64, den: dw as i64 }),
            zy == (Frac { num: h as i64, den: dh as i64 }),
            1 <= dw <= w <= MAX_DIM,
            1 <= dh <= h <= MAX_DIM,
    ;
    if !imperfect {
        // The floored zoom is no larger than the fractional fit, so it
        // fits wherever the fractional fit does.
        crate::frac::lemma_div_at_least_one(m.num as int, m.den as int);
        crate::frac::lemma_div_range(m.num as int, m.den as int);
        let f = m.floor();
        lemma_fundamental_div_mod(m.num as int, m.den as int);
        assert(f * dw <= w * 1 && f * dh <= h * 1) by (nonlinear_arith)
            requires
                m.num == m.den * f + m.num % m.den,
                0 <= m.num % m.den < m.den,
                1 <= m.den,
                m.num * dw <= w * m.den,
                m.num * dh <= h * m.den,
                1 <= dw,
                1 <= dh,
                0 <= f,
        ;
    }
}

/// Running the fitter twice with identical inputs yields an identical
/// viewport rectangle: the second update leaves the projection unchanged,
/// and the rectangle recomputed from it is the first rectangle again.
pub proof fn lemma_fitter_idempotent(
    s: ScaledPixelProjection,
    width: u32,
    height: u32,
    prev: Option<ViewportRect>,
)
    requires
        s.wf(),
        width <= MAX_DIM,
        height <= MAX_DIM,
    ensures
        ({
            let s1 = spec_update(s, width, height);
            let r1 = spec_scaled_viewport(s1, width, height, prev);
            &&& spec_update(s1, width, height) == s1
            &&& spec_scaled_viewport(s1, width, height, r1) == r1
        }),
{
    lemma_update_idempotent(s, width, height);
}

} // verus!
