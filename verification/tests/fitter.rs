use pixel_viewport::frac::Frac;
use pixel_viewport::scaled::{update_scaled_viewport, ScaledPixelProjection};
use pixel_viewport::viewport::ViewportRect;

#[test]
fn scenario_1920_1080_desired_256_224() {
    let mut p = ScaledPixelProjection::from_resolution(256, 224, false);
    p.update(1920, 1080);
    // 1920/256 = 7.5, 1080/224 = 4.82..; the smaller ratio floors to 4.
    assert_eq!(p.zoom, Frac { num: 4, den: 1 });
    // Centered bounds: the span is 1920/4 = 480 wide and 1080/4 = 270 tall.
    assert_eq!(p.left, -240);
    assert_eq!(p.right, Frac { num: 960, den: 4 });
    assert_eq!(p.bottom, -135);
    assert_eq!(p.top, Frac { num: 540, den: 4 });
    let v = update_scaled_viewport(&p, 1920, 1080, None);
    assert_eq!(
        v,
        Some(ViewportRect { offset_x: 448, offset_y: 92, width: 1024, height: 896 })
    );
}

#[test]
fn zero_window_is_noop() {
    let mut p = ScaledPixelProjection::from_resolution(256, 224, false);
    p.update(1920, 1080);
    let before = p;
    let v = update_scaled_viewport(&p, 1920, 1080, None);
    p.update(0, 600);
    assert_eq!(p, before);
    let v2 = update_scaled_viewport(&p, 0, 600, v);
    assert_eq!(v2, v);
}

#[test]
fn fitter_is_idempotent() {
    let mut p = ScaledPixelProjection::from_resolution(320, 240, true);
    p.update(1000, 700);
    let first = p;
    let v1 = update_scaled_viewport(&p, 1000, 700, None);
    p.update(1000, 700);
    assert_eq!(p, first);
    let v2 = update_scaled_viewport(&p, 1000, 700, v1);
    assert_eq!(v2, v1);
}

#[test]
fn integer_zoom_unless_imperfect() {
    let windows = [(1920u32, 1080u32), (640, 480), (100, 100), (1, 1), (333, 777)];
    for (w, h) in windows {
        let mut p = ScaledPixelProjection::from_resolution(256, 224, false);
        p.update(w, h);
        assert_eq!(p.zoom.den, 1);
        assert!(p.zoom.num >= 1);
    }
}

#[test]
fn zoom_fits_window() {
    let cases = [(1920u32, 1080u32, 256u32, 224u32), (800, 600, 400, 300), (256, 224, 256, 224)];
    for (w, h, dw, dh) in cases {
        for imperfect in [false, true] {
            let mut p = ScaledPixelProjection::from_resolution(dw, dh, imperfect);
            p.update(w, h);
            // zoom * desired <= window, by cross-multiplication.
            assert!(p.zoom.num * (dw as i64) <= (w as i64) * p.zoom.den);
            assert!(p.zoom.num * (dh as i64) <= (h as i64) * p.zoom.den);
        }
    }
}

#[test]
fn fractional_zoom_keeps_exact_ratio() {
    let mut p = ScaledPixelProjection::from_resolution(256, 224, true);
    p.update(1920, 1080);
    // The smaller ratio 1080/224 is kept exactly.
    assert_eq!(p.zoom, Frac { num: 1080, den: 224 });
}

#[test]
fn window_smaller_than_desired_clamps_zoom_to_one() {
    let mut p = ScaledPixelProjection::from_resolution(256, 224, true);
    p.update(100, 90);
    assert_eq!(p.zoom, Frac { num: 1, den: 1 });
}

#[test]
fn single_axis_fit_uses_that_axis() {
    let mut p = ScaledPixelProjection::from_width(320, false);
    p.update(1000, 500);
    // 1000/320 = 3.125 floors to 3; the height plays no part.
    assert_eq!(p.zoom, Frac { num: 3, den: 1 });

    let mut q = ScaledPixelProjection::from_height(200, false);
    q.update(1000, 500);
    assert_eq!(q.zoom, Frac { num: 2, den: 1 });
}

#[test]
fn fixed_zoom_is_rounded_to_nearest() {
    // A whole fixed zoom is kept; from_zoom marks it perfect.
    let mut p = ScaledPixelProjection::from_zoom(Frac { num: 6, den: 2 });
    assert!(!p.imperfect);
    p.update(640, 480);
    assert_eq!(p.zoom, Frac { num: 3, den: 1 });

    // A fractional fixed zoom marks the projection imperfect and survives.
    let mut q = ScaledPixelProjection::from_zoom(Frac { num: 7, den: 2 });
    assert!(q.imperfect);
    q.update(640, 480);
    assert_eq!(q.zoom, Frac { num: 7, den: 2 });
}

#[test]
fn uncentered_bounds_start_at_zero() {
    let mut p = ScaledPixelProjection::from_resolution(256, 224, false);
    p.centered = false;
    p.update(1920, 1080);
    assert_eq!(p.left, 0);
    assert_eq!(p.bottom, 0);
    assert_eq!(p.right, Frac { num: 1920, den: 4 });
    assert_eq!(p.top, Frac { num: 1080, den: 4 });
}

#[test]
fn default_projection_is_unit_square() {
    let p = ScaledPixelProjection::default();
    assert_eq!(p.left, -1);
    assert_eq!(p.right, Frac { num: 1, den: 1 });
    assert_eq!(p.bottom, -1);
    assert_eq!(p.top, Frac { num: 1, den: 1 });
    assert_eq!(p.near, 0);
    assert_eq!(p.far, 1000);
    assert_eq!(p.zoom, Frac { num: 1, den: 1 });
    assert!(p.centered);
    assert!(!p.imperfect);
    assert_eq!(p.desired_width, None);
    assert_eq!(p.desired_height, None);
}

#[test]
fn zero_desired_axis_is_unconstrained() {
    // A desired height of zero leaves that axis out of the fit.
    let mut p = ScaledPixelProjection::from_resolution(320, 0, false);
    p.update(1000, 10);
    assert_eq!(p.zoom, Frac { num: 3, den: 1 });
    // The viewport spans the whole unconstrained axis.
    let v = update_scaled_viewport(&p, 1000, 10, None).unwrap();
    assert_eq!(v.height, 10);
    assert_eq!(v.width, 960);
    assert_eq!(v.offset_x, 20);
    assert_eq!(v.offset_y, 0);
}

#[test]
fn viewport_without_desired_resolution_fills_window() {
    let mut p = ScaledPixelProjection::from_zoom(Frac { num: 2, den: 1 });
    p.update(800, 600);
    let v = update_scaled_viewport(&p, 800, 600, None).unwrap();
    assert_eq!(
        v,
        ViewportRect { offset_x: 0, offset_y: 0, width: 800, height: 600 }
    );
}
