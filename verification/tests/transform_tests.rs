//! Tests of the view transform: zoom, pan, rotation, pivot handling and
//! the screen/image coordinate conversions. All values are in the crate's
//! fixed-point units: milli-pixels, milli-zoom (1000 = fit-to-view) and
//! millidegrees.

use viewarr::geom::{Pos2, Rect, Vec2};
use viewarr::transform::{ViewTransform, MAX_ZOOM, MIN_ZOOM, ZOOM_STEP};

fn rect(min_x: i64, min_y: i64, w: i64, h: i64) -> Rect {
    Rect::from_min_size(Pos2::new(min_x, min_y), Vec2::new(w, h))
}

#[test]
fn test_default_transform() {
    let t = ViewTransform::new();
    assert_eq!(t.zoom, 1000);
    assert_eq!(t.pan_offset, Vec2::new(0, 0));
    assert!(t.is_default());
}

#[test]
fn test_reset() {
    let mut t = ViewTransform::new();
    t.zoom = 2500;
    t.pan_offset = Vec2::new(100_000, 50_000);
    assert!(!t.is_default());

    t.reset();
    assert!(t.is_default());
}

#[test]
fn test_zoom_in_out() {
    let mut t = ViewTransform::new();
    let center = Pos2::new(400_000, 300_000);

    t.zoom_in(Some(center), center);
    assert_eq!(t.zoom, ZOOM_STEP);

    t.zoom_out(Some(center), center);
    assert_eq!(t.zoom, 1000);
}

#[test]
fn test_zoom_clamping() {
    let mut t = ViewTransform::new();
    let center = Pos2::new(400_000, 300_000);

    for _ in 0..100 {
        t.zoom_in(Some(center), center);
    }
    assert!(t.zoom <= MAX_ZOOM);

    t.reset();
    for _ in 0..100 {
        t.zoom_out(Some(center), center);
    }
    assert!(t.zoom >= MIN_ZOOM);
}

#[test]
fn test_zoom_around_point_preserves_center() {
    let mut t = ViewTransform::new();
    t.pan_offset = Vec2::new(50_000, 30_000);
    let viewport_center = Pos2::new(400_000, 300_000);
    let zoom_center = Pos2::new(200_000, 150_000);

    let dx = zoom_center.x - viewport_center.x;
    let dy = zoom_center.y - viewport_center.y;
    let old_offset = t.pan_offset;

    t.zoom_around_point(2000, zoom_center, viewport_center);

    // pan_new = d * (1 - ratio) + pan_old * ratio, with ratio 2
    let expected_x = -dx + old_offset.x * 2;
    let expected_y = -dy + old_offset.y * 2;

    assert_eq!(t.pan_offset.x, expected_x);
    assert_eq!(t.pan_offset.y, expected_y);
}

#[test]
fn test_pan_by() {
    let mut t = ViewTransform::new();
    t.pan_by(Vec2::new(10_000, 20_000));
    assert_eq!(t.pan_offset.x, 10_000);
    assert_eq!(t.pan_offset.y, 20_000);

    t.pan_by(Vec2::new(-5_000, -10_000));
    assert_eq!(t.pan_offset.x, 5_000);
    assert_eq!(t.pan_offset.y, 10_000);
}

#[test]
fn test_screen_to_image_inside() {
    let t = ViewTransform::new();
    let image_rect = rect(100_000, 100_000, 200_000, 200_000);
    let image_size = (100u32, 100u32);

    // Center of the rect maps to the center of the image.
    let center = Pos2::new(200_000, 200_000);
    let result = t.screen_to_image(center, image_rect, image_size);
    assert!(
        result.is_some(),
        "Center {:?} should be inside rect {:?}",
        center,
        image_rect
    );
    let (x, y) = result.unwrap();
    assert_eq!(x, 50);
    assert_eq!(y, 50);

    // The top-left screen corner maps to the bottom-left of the image.
    let top_left = Pos2::new(100_000, 100_000);
    let result = t.screen_to_image(top_left, image_rect, image_size);
    assert!(
        result.is_some(),
        "Top-left {:?} should be inside rect {:?}, contains={}",
        top_left,
        image_rect,
        image_rect.contains(top_left)
    );
    let (x, y) = result.unwrap();
    assert_eq!(x, 0);
    assert_eq!(y, 99);

    // The bottom-left screen corner maps to the top-left of the image.
    let bottom_left = Pos2::new(100_000, 299_000);
    let result = t.screen_to_image(bottom_left, image_rect, image_size);
    assert!(
        result.is_some(),
        "Bottom-left {:?} should be inside rect {:?}",
        bottom_left,
        image_rect
    );
    let (x, y) = result.unwrap();
    assert_eq!(x, 0);
    assert_eq!(y, 0);
}

#[test]
fn test_screen_to_image_outside() {
    let t = ViewTransform::new();
    let image_rect = rect(100_000, 100_000, 200_000, 200_000);
    let image_size = (100u32, 100u32);

    let outside = Pos2::new(50_000, 50_000);
    let result = t.screen_to_image(outside, image_rect, image_size);
    assert!(result.is_none());
}

#[test]
fn test_calculate_image_rect_default_zoom() {
    let t = ViewTransform::new();
    let viewport = rect(0, 0, 800_000, 600_000);
    let base_size = Vec2::new(400_000, 300_000);

    let result = t.calculate_image_rect(viewport, base_size);

    assert_eq!(result.min.x + result.size.x / 2, 400_000);
    assert_eq!(result.min.y + result.size.y / 2, 300_000);
    assert_eq!(result.size.x, 400_000);
    assert_eq!(result.size.y, 300_000);
}

#[test]
fn test_calculate_image_rect_zoomed() {
    let mut t = ViewTransform::new();
    t.zoom = 2000;
    let viewport = rect(0, 0, 800_000, 600_000);
    let base_size = Vec2::new(400_000, 300_000);

    let result = t.calculate_image_rect(viewport, base_size);

    assert_eq!(result.size.x, 800_000);
    assert_eq!(result.size.y, 600_000);
    assert_eq!(result.min.x + result.size.x / 2, 400_000);
    assert_eq!(result.min.y + result.size.y / 2, 300_000);
}

/// Setting a pivot from a click and mapping it back must land the marker at
/// the click position, within one image pixel's screen extent.
#[test]
fn test_pivot_point_round_trip_no_rotation() {
    let t = ViewTransform::new();
    let image_rect = rect(100_000, 100_000, 200_000, 200_000);
    let image_size = (100u32, 100u32);

    let click_pos = Pos2::new(200_000, 200_000);

    let img_coords = t.screen_to_image_rotated(click_pos, image_rect, image_size);
    assert!(img_coords.is_some(), "Click should be within image bounds");
    let (img_x, img_y) = img_coords.unwrap();

    let mut t2 = t.clone();
    t2.set_pivot_point(img_x as i64 * 1000, img_y as i64 * 1000);

    let marker_pos = t2.pivot_to_screen(image_rect, image_size);

    // One image pixel spans 2000 milli-pixels of screen here.
    let tolerance = image_rect.size.x / image_size.0 as i64;
    assert!(
        (marker_pos.x - click_pos.x).abs() < tolerance,
        "Marker X ({}) should be near click X ({}), diff={}",
        marker_pos.x,
        click_pos.x,
        (marker_pos.x - click_pos.x).abs()
    );
    assert!(
        (marker_pos.y - click_pos.y).abs() < tolerance,
        "Marker Y ({}) should be near click Y ({}), diff={}",
        marker_pos.y,
        click_pos.y,
        (marker_pos.y - click_pos.y).abs()
    );
}

/// With a rotation active, the pivot conversion must still use the direct
/// (unrotated) mapping so the marker appears where the user clicked.
#[test]
fn test_pivot_point_round_trip_with_rotation() {
    let mut t = ViewTransform::new();
    t.rotation_mdeg = 45_000;
    t.pivot_point = (49_500, 49_500);

    let image_rect = rect(100_000, 100_000, 200_000, 200_000);
    let image_size = (100u32, 100u32);

    let click_pos = Pos2::new(250_000, 150_000);

    let img_coords = t.screen_to_image_for_pivot(click_pos, image_rect, image_size);
    assert!(img_coords.is_some(), "Click should be within image bounds");
    let (img_x, img_y) = img_coords.unwrap();

    t.set_pivot_point(img_x as i64 * 1000, img_y as i64 * 1000);

    let marker_pos = t.pivot_to_screen(image_rect, image_size);

    let tolerance = image_rect.size.x / image_size.0 as i64;
    assert!(
        (marker_pos.x - click_pos.x).abs() < tolerance,
        "Marker X ({}) should be near click X ({}), diff={}",
        marker_pos.x,
        click_pos.x,
        (marker_pos.x - click_pos.x).abs()
    );
    assert!(
        (marker_pos.y - click_pos.y).abs() < tolerance,
        "Marker Y ({}) should be near click Y ({}), diff={}",
        marker_pos.y,
        click_pos.y,
        (marker_pos.y - click_pos.y).abs()
    );
}

#[test]
fn test_reset_zoom_and_pan_preserves_rotation() {
    let mut t = ViewTransform::new();

    t.zoom = 2500;
    t.pan_offset = Vec2::new(100_000, -50_000);
    t.rotation_mdeg = 45_000;
    t.pivot_point = (25_000, 75_000);
    t.show_pivot_marker = true;

    t.reset_zoom_and_pan();

    assert_eq!(t.zoom, 1000, "Zoom should be reset to 1.0");
    assert_eq!(t.pan_offset, Vec2::new(0, 0), "Pan should be reset to zero");

    assert_eq!(t.rotation_mdeg, 45_000, "Rotation should be preserved");
    assert_eq!(t.pivot_point.0, 25_000, "Pivot X should be preserved");
    assert_eq!(t.pivot_point.1, 75_000, "Pivot Y should be preserved");
    assert!(t.show_pivot_marker, "Pivot marker visibility should be preserved");
}

#[test]
fn test_full_reset_clears_rotation() {
    let mut t = ViewTransform::new();

    t.zoom = 2500;
    t.pan_offset = Vec2::new(100_000, -50_000);
    t.rotation_mdeg = 45_000;
    t.pivot_point = (25_000, 75_000);

    t.reset();

    assert_eq!(t.zoom, 1000, "Zoom should be reset to 1.0");
    assert_eq!(t.pan_offset, Vec2::new(0, 0), "Pan should be reset to zero");
    assert_eq!(t.rotation_mdeg, 0, "Rotation should be reset to 0");
    assert_eq!(t.pivot_point.0, 25_000, "Pivot X should be preserved");
    assert_eq!(t.pivot_point.1, 75_000, "Pivot Y should be preserved");
}

#[test]
fn test_rotation_normalization() {
    let mut t = ViewTransform::new();

    t.set_rotation(270_000);
    assert_eq!(t.rotation(), -90_000, "270 degrees should normalize to -90");

    t.set_rotation(-270_000);
    assert_eq!(t.rotation(), 90_000, "-270 degrees should normalize to 90");

    t.set_rotation(450_000);
    assert_eq!(t.rotation(), 90_000, "450 degrees should normalize to 90");

    t.set_rotation(-450_000);
    assert_eq!(t.rotation(), -90_000, "-450 degrees should normalize to -90");

    t.set_rotation(180_000);
    assert_eq!(t.rotation(), 180_000, "180 degrees should stay 180");

    t.set_rotation(-180_000);
    assert_eq!(t.rotation(), -180_000, "-180 degrees should stay -180");
}

#[test]
fn test_rotate_by() {
    let mut t = ViewTransform::new();

    t.rotate_by(45_000);
    assert_eq!(t.rotation(), 45_000);

    t.rotate_by(45_000);
    assert_eq!(t.rotation(), 90_000);

    // Rotating past 180 degrees wraps around.
    t.rotate_by(100_000);
    assert_eq!(t.rotation(), -170_000, "190 degrees should wrap to -170");
}

#[test]
fn test_screen_to_image_boundary_top_left() {
    let t = ViewTransform::new();
    let image_rect = rect(100_000, 100_000, 200_000, 200_000);
    let image_size = (100u32, 100u32);

    let corner = Pos2::new(100_000, 100_000);
    let result = t.screen_to_image(corner, image_rect, image_size);

    assert!(result.is_some(), "Top-left corner should be valid");
    let (x, y) = result.unwrap();
    assert_eq!(x, 0, "X should be 0");
    assert_eq!(y, 99, "Y should be 99 (top of screen = high row)");
}

#[test]
fn test_screen_to_image_for_pivot_boundary() {
    let t = ViewTransform::new();
    let image_rect = rect(100_000, 100_000, 200_000, 200_000);
    let image_size = (100u32, 100u32);

    let corner = Pos2::new(100_000, 100_000);
    let result = t.screen_to_image_for_pivot(corner, image_rect, image_size);

    assert!(result.is_some(), "Top-left corner should be valid for pivot");
    let (x, y) = result.unwrap();
    assert_eq!(x, 0, "X should be 0");
    assert_eq!(y, 99, "Y should be 99 (bottom-up row convention)");
}

#[test]
fn test_is_default_with_rotation() {
    let mut t = ViewTransform::new();
    assert!(t.is_default(), "Fresh transform should be default");

    t.rotation_mdeg = 15_000;
    assert!(!t.is_default(), "Rotated transform should not be default");

    t.rotation_mdeg = 0;
    assert!(t.is_default(), "Zero rotation should be default again");

    t.pan_offset = Vec2::new(10_000, 0);
    assert!(!t.is_default(), "Panned transform should not be default");
}

/// An arbitrary zoom delta keeps the image content under the cursor: the
/// pan update satisfies the cross-multiplied invariance within one rounding
/// step of the old zoom.
#[test]
fn test_zoom_around_arbitrary_delta_preserves_cursor() {
    let mut t = ViewTransform::new();
    t.zoom = 1700;
    t.pan_offset = Vec2::new(-33_123, 7_777);
    let viewport_center = Pos2::new(412_000, 297_000);
    let pos = Pos2::new(150_500, 421_750);
    let old = t.clone();

    t.zoom_around_point(1234, pos, viewport_center);
    assert_ne!(t.zoom, old.zoom);

    let d_x = (pos.x - viewport_center.x) as i128;
    let d_y = (pos.y - viewport_center.y) as i128;
    let diff_x = (d_x - t.pan_offset.x as i128) * old.zoom as i128
        - (d_x - old.pan_offset.x as i128) * t.zoom as i128;
    let diff_y = (d_y - t.pan_offset.y as i128) * old.zoom as i128
        - (d_y - old.pan_offset.y as i128) * t.zoom as i128;
    assert!(0 <= diff_x && diff_x < old.zoom as i128);
    assert!(0 <= diff_y && diff_y < old.zoom as i128);
}

#[test]
fn test_clamp_pan_offset_limits_pan() {
    let mut t = ViewTransform::new();
    t.pan_offset = Vec2::new(10_000_000, -10_000_000);
    let viewport = Vec2::new(800_000, 600_000);
    let zoomed = Vec2::new(400_000, 300_000);

    t.clamp_pan_offset(viewport, zoomed);

    // At most 90% of the zoomed image may leave the viewport.
    assert_eq!(t.pan_offset.x, 400_000 - 40_000);
    assert_eq!(t.pan_offset.y, 30_000 - 600_000);
}

#[test]
fn test_center_on_image_point_centers_pan() {
    let mut t = ViewTransform::new();
    t.zoom = 2000;
    // Center on the middle of the image: with the zoom applied about the
    // center, no pan is needed.
    t.center_on_image_point(
        Pos2::new(50_000, 50_000),
        Vec2::new(100_000, 100_000),
        Vec2::new(200_000, 200_000),
        rect(0, 0, 200_000, 200_000),
    );
    assert_eq!(t.pan_offset, Vec2::new(0, 0));
}

#[test]
fn test_calculate_rotated_corners_no_rotation() {
    let t = ViewTransform::new();
    let image_rect = rect(100_000, 100_000, 200_000, 200_000);
    let corners = t.calculate_rotated_corners(image_rect, (100, 100));
    assert_eq!(corners.len(), 4);
    assert_eq!(corners[0], Pos2::new(100_000, 100_000));
    assert_eq!(corners[1], Pos2::new(300_000, 100_000));
    assert_eq!(corners[2], Pos2::new(300_000, 300_000));
    assert_eq!(corners[3], Pos2::new(100_000, 300_000));
}

#[test]
fn test_image_to_screen_rotated_quarter_turn() {
    let mut t = ViewTransform::new();
    t.pivot_point = (49_500, 49_500);
    t.rotation_mdeg = 90_000;
    let image_rect = rect(0, 0, 200_000, 200_000);
    let image_size = (100u32, 100u32);

    // The pivot's screen position is the rect center; the pixel at the
    // pivot stays fixed under rotation.
    let center_px = t.image_to_screen_rotated((49, 49), image_rect, image_size);
    let unrotated = t.image_to_screen((49, 49), image_rect, image_size);
    let pivot_screen = t.pivot_to_screen(image_rect, image_size);
    assert_eq!(pivot_screen, Pos2::new(100_000, 100_000));
    assert!((center_px.x - unrotated.x).abs() <= 2_000);
    assert!((center_px.y - unrotated.y).abs() <= 2_000);
}

/// Centering respects the bottom-up image convention: centering a row in
/// the lower quarter of the image (low bottom-up row number) pans the view
/// down, not up.
#[test]
fn test_center_on_image_point_vertical_flip() {
    let mut t = ViewTransform::new();
    t.zoom = 2000;
    t.center_on_image_point(
        Pos2::new(50_000, 25_000),
        Vec2::new(100_000, 100_000),
        Vec2::new(200_000, 200_000),
        rect(0, 0, 200_000, 200_000),
    );
    // Row 25 of 100 sits at the flipped fraction 3/4 of the displayed rect;
    // centering it at zoom 2 needs a pan of -100 display pixels.
    assert_eq!(t.pan_offset, Vec2::new(0, -100_000));
}

#[test]
fn test_set_zoom_clamps() {
    let mut t = ViewTransform::new();
    t.set_zoom(2_500);
    assert_eq!(t.zoom, 2_500);
    t.set_zoom(1_000_000);
    assert_eq!(t.zoom, MAX_ZOOM);
    t.set_zoom(-3);
    assert_eq!(t.zoom, MIN_ZOOM);
}

/// A quarter-turn rotation about the rect center permutes the corners
/// exactly: the fixed-point sine and cosine are exact at 0, 30 and 90
/// degrees.
#[test]
fn test_calculate_rotated_corners_quarter_turn() {
    let mut t = ViewTransform::new();
    t.pivot_point = (49_500, 49_500);
    t.rotation_mdeg = 90_000;
    let image_rect = rect(0, 0, 200_000, 200_000);
    let corners = t.calculate_rotated_corners(image_rect, (100, 100));
    assert_eq!(corners[0], Pos2::new(200_000, 0));
    assert_eq!(corners[1], Pos2::new(200_000, 200_000));
    assert_eq!(corners[2], Pos2::new(0, 200_000));
    assert_eq!(corners[3], Pos2::new(0, 0));
}

/// Screen-to-image after image-to-screen recovers the pixel under an
/// active rotation: forward rotation and its inverse agree to within a
/// fraction of a pixel.
#[test]
fn test_rotated_conversion_round_trip() {
    let mut t = ViewTransform::new();
    t.pivot_point = (49_500, 49_500);
    t.rotation_mdeg = 45_000;
    let image_rect = rect(10_000, 20_000, 200_000, 200_000);
    let image_size = (100u32, 100u32);

    for &(px, py) in &[(30u32, 70u32), (0, 0), (99, 99), (49, 49)] {
        let screen = t.image_to_screen_rotated((px, py), image_rect, image_size);
        let back = t.screen_to_image_rotated(screen, image_rect, image_size);
        let (bx, by) = back.expect("rotated pixel center must map back inside the image");
        assert!(
            (bx as i64 - px as i64).abs() <= 1 && (by as i64 - py as i64).abs() <= 1,
            "pixel ({}, {}) came back as ({}, {})",
            px,
            py,
            bx,
            by
        );
    }
}

/// A 30-degree rotation uses the exact sine of 30 degrees (1/2) and a
/// cosine within two thousandths of the true value.
#[test]
fn test_rotation_thirty_degrees() {
    let mut t = ViewTransform::new();
    t.pivot_point = (49_500, 49_500);
    t.rotation_mdeg = 30_000;
    let image_rect = rect(0, 0, 200_000, 200_000);
    let corners = t.calculate_rotated_corners(image_rect, (100, 100));
    // The top-left corner (0, 0) sits at (-100000, -100000) relative to the
    // pivot screen position (100000, 100000); rotating by 30 degrees
    // counter-clockwise gives (-cos30 + sin30, -sin30 - cos30) * 100000.
    // cos30 is approximated as 0.864.
    assert_eq!(corners[0], Pos2::new(100_000 - 86_400 + 50_000, 100_000 - 50_000 - 86_400));
}

/// Screen-to-image is the left inverse of image-to-screen: mapping a pixel
/// to its screen center and back recovers the pixel exactly, including at
/// the edges, respecting the vertical flip.
#[test]
fn test_screen_image_round_trip() {
    let t = ViewTransform::new();
    let image_rect = rect(7_000, 9_000, 412_000, 816_000);
    let image_size = (100u32, 200u32);

    for &(px, py) in &[(0u32, 0u32), (99, 199), (0, 199), (99, 0), (37, 141), (50, 100)] {
        let screen = t.image_to_screen((px, py), image_rect, image_size);
        let back = t.screen_to_image(screen, image_rect, image_size);
        assert_eq!(back, Some((px, py)), "pixel ({}, {}) via {:?}", px, py, screen);
    }
}
