use pixel_viewport::cursor::{update_world_cursor, CursorError, WorldCursorPostion};
use pixel_viewport::frac::Frac;
use pixel_viewport::scaled::{update_scaled_viewport, ScaledPixelProjection};

fn fitted_camera() -> (ScaledPixelProjection, pixel_viewport::viewport::ViewportRect) {
    let mut p = ScaledPixelProjection::from_resolution(256, 224, false);
    p.update(1920, 1080);
    let v = update_scaled_viewport(&p, 1920, 1080, None).unwrap();
    (p, v)
}

fn origin() -> WorldCursorPostion {
    WorldCursorPostion { x: Frac { num: 0, den: 1 }, y: Frac { num: 0, den: 1 } }
}

#[test]
fn viewport_center_maps_to_world_center() {
    let (p, v) = fitted_camera();
    // The exact center of the 1024 by 896 viewport at offset (448, 92).
    let center = (v.offset_x + v.width / 2, v.offset_y + v.height / 2);
    let w = update_world_cursor(Some(center), Some(v), 1920, 1080, &p, false, origin()).unwrap();
    // A centered projection has its world-space center at the origin.
    assert_eq!(w.x.num, 0);
    assert_eq!(w.y.num, 0);
}

#[test]
fn texture_mode_is_unsupported() {
    let (p, v) = fitted_camera();
    let r = update_world_cursor(Some((960, 540)), Some(v), 1920, 1080, &p, true, origin());
    assert_eq!(r, Err(CursorError::TextureModeUnsupported));
}

#[test]
fn missing_pointer_keeps_previous_position() {
    let (p, v) = fitted_camera();
    let prev = WorldCursorPostion { x: Frac { num: 17, den: 3 }, y: Frac { num: -4, den: 1 } };
    let r = update_world_cursor(None, Some(v), 1920, 1080, &p, false, prev).unwrap();
    assert_eq!(r, prev);
}

#[test]
fn cursor_outside_viewport_is_clamped_to_edge() {
    let (p, v) = fitted_camera();
    // A pointer in the letterbox clamps to the viewport's near corner and
    // maps to the left and bottom projection bounds.
    let w = update_world_cursor(Some((0, 0)), Some(v), 1920, 1080, &p, false, origin()).unwrap();
    // left = -240: the fraction num/den must equal -240 exactly.
    assert_eq!(w.x.num, -240 * w.x.den);
    assert_eq!(w.y.num, -135 * w.y.den);
}

#[test]
fn far_corner_maps_to_high_bounds() {
    let (p, v) = fitted_camera();
    let corner = (v.offset_x + v.width, v.offset_y + v.height);
    let w = update_world_cursor(Some(corner), Some(v), 1920, 1080, &p, false, origin()).unwrap();
    // right = 240 and top = 135 in world coordinates.
    assert_eq!(w.x.num, 240 * w.x.den);
    assert_eq!(w.y.num, 135 * w.y.den);
}

#[test]
fn no_viewport_uses_whole_window() {
    let (p, _) = fitted_camera();
    // Without a viewport rectangle the window itself is the mapping
    // region, so the window center maps to the world center.
    let w = update_world_cursor(Some((960, 540)), None, 1920, 1080, &p, false, origin()).unwrap();
    assert_eq!(w.x.num, 0);
    assert_eq!(w.y.num, 0);
}

#[test]
fn no_viewport_and_zero_window_keeps_previous() {
    let (p, _) = fitted_camera();
    let prev = WorldCursorPostion { x: Frac { num: 5, den: 2 }, y: Frac { num: 9, den: 4 } };
    let r = update_world_cursor(Some((10, 10)), None, 0, 600, &p, false, prev).unwrap();
    assert_eq!(r, prev);
}

#[test]
fn quarter_point_maps_linearly() {
    let (p, v) = fitted_camera();
    // A quarter of the way across the viewport maps a quarter of the way
    // across the world span: left + span/4 = -240 + 120 = -120 on the x
    // axis, and bottom + span/4 = -135 + 67.5 = -67.5 on the y axis.
    let q = (v.offset_x + v.width / 4, v.offset_y + v.height / 4);
    let w = update_world_cursor(Some(q), Some(v), 1920, 1080, &p, false, origin()).unwrap();
    assert_eq!(w.x.num, -120 * w.x.den);
    assert_eq!(2 * w.y.num, -135 * w.y.den);
}
