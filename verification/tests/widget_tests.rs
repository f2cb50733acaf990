//! Tests of the widget state: image loading, per-mode contrast/bias slots,
//! symmetric mode, colormap selection, scaling ranges, the rendered bitmap
//! and the view-bounds conversions.

use viewarr::colormap::{Colormap, Rgb};
use viewarr::stretch::{StretchMode, StretchType};
use viewarr::widget::ArrayViewerWidget;

fn widget_with_ramp() -> ArrayViewerWidget {
    let mut w = ArrayViewerWidget::new();
    w.set_image(vec![Some(-10_000i64), Some(0), Some(10_000)], 3, 1, false);
    w
}

#[test]
fn test_new_widget_is_empty() {
    let w = ArrayViewerWidget::new();
    assert!(!w.has_image());
    assert_eq!(w.dimensions(), (0, 0));
    assert_eq!(w.value_range(), (0, 1000));
    assert_eq!(w.stretch_type(), StretchType::Linear);
    assert!(!w.is_symmetric());
    assert!(!w.is_reversed());
    assert_eq!(w.colormap(), Colormap::Grayscale);
    assert!(w.is_default_view());
}

#[test]
fn test_set_image_computes_range_and_centers_pivot() {
    let w = widget_with_ramp();
    assert!(w.has_image());
    assert_eq!(w.dimensions(), (3, 1));
    assert_eq!(w.value_range(), (-10_000, 10_000));
    // The pivot sits at the image center ((w-1)/2, (h-1)/2).
    assert_eq!(w.pivot_point(), (1000, 0));
    assert!(w.is_pivot_at_center());
}

#[test]
fn test_set_image_same_dimensions_keeps_pan() {
    let mut w = widget_with_ramp();
    w.transform_mut().pan_offset.x = 12_000;
    w.set_image(vec![Some(1_000i64), Some(2_000), Some(3_000)], 3, 1, true);
    assert_eq!(w.transform().pan_offset.x, 12_000);
    assert!(w.is_integer());

    // Changing the dimensions resets the pan but keeps the zoom.
    w.transform_mut().zoom = 2000;
    w.set_image(vec![Some(1_000i64), Some(2_000)], 2, 1, true);
    assert_eq!(w.transform().pan_offset.x, 0);
    assert_eq!(w.zoom_level(), 2000);
}

/// The scaling range in symmetric mode is always `(-m, m)` with
/// `m = max(|min|, |max|)`, including for ranges that do not straddle zero
/// and for the degenerate case.
#[test]
fn test_symmetric_scaling_range() {
    let mut w = widget_with_ramp();
    assert_eq!(w.scaling_range(), (-10_000, 10_000));

    w.set_symmetric(true);
    assert_eq!(w.scaling_range(), (-10_000, 10_000));

    w.set_value_range(2_000, 9_000);
    assert_eq!(w.scaling_range(), (-9_000, 9_000));

    w.set_value_range(-7_000, 3_000);
    assert_eq!(w.scaling_range(), (-7_000, 7_000));

    w.set_value_range(4_000, 4_000);
    assert_eq!(w.scaling_range(), (-4_000, 4_000));

    w.set_symmetric(false);
    assert_eq!(w.scaling_range(), (4_000, 4_000));
}

/// The concrete pipeline scenario through the widget: samples -10, 0, 10,
/// linear stretch, defaults, grayscale.
#[test]
fn test_build_color_image_scenario() {
    let w = widget_with_ramp();
    let img = w.build_color_image().expect("image loaded");
    assert_eq!(img.len(), 3);
    assert_eq!(img[0], Rgb { r: 0, g: 0, b: 0 });
    assert_eq!(img[1], Rgb { r: 128, g: 128, b: 128 });
    assert_eq!(img[2], Rgb { r: 255, g: 255, b: 255 });
}

/// A sample that is not a finite number renders as the lowest colormap
/// entry.
#[test]
fn test_build_color_image_non_finite_sample() {
    let mut w = ArrayViewerWidget::new();
    w.set_image(vec![None, Some(10_000i64)], 2, 1, false);
    let img = w.build_color_image().expect("image loaded");
    assert_eq!(img[0], Rgb { r: 0, g: 0, b: 0 });
}

#[test]
fn test_build_color_image_reversed() {
    let mut w = widget_with_ramp();
    w.toggle_reverse();
    let img = w.build_color_image().expect("image loaded");
    assert_eq!(img[0], Rgb { r: 255, g: 255, b: 255 });
    assert_eq!(img[2], Rgb { r: 0, g: 0, b: 0 });
}

#[test]
fn test_per_mode_contrast_bias_slots() {
    let mut w = ArrayViewerWidget::new();
    w.set_contrast(2_000);
    w.set_bias(300);
    assert_eq!(w.current_contrast_bias().contrast, 2_000);
    assert_eq!(w.current_contrast_bias().bias, 300);

    // The logarithmic slot is independent.
    w.set_stretch_type(StretchType::Log);
    assert_eq!(w.current_contrast_bias().contrast, 1_000);
    assert_eq!(w.current_contrast_bias().bias, 500);
    w.set_contrast(5_000);

    // Switching back restores the linear slot.
    w.set_stretch_type(StretchType::Linear);
    assert_eq!(w.current_contrast_bias().contrast, 2_000);
    assert_eq!(w.current_contrast_bias().bias, 300);
}

/// In symmetric mode the read bias is pinned to its default and setting a
/// bias changes nothing.
#[test]
fn test_symmetric_mode_pins_bias() {
    let mut w = ArrayViewerWidget::new();
    w.set_symmetric(true);
    w.set_contrast(3_000);
    w.set_bias(100);
    assert_eq!(w.current_contrast_bias().contrast, 3_000);
    assert_eq!(w.current_contrast_bias().bias, 500);
}

#[test]
fn test_set_contrast_and_bias_clamp() {
    let mut w = ArrayViewerWidget::new();
    w.set_contrast(99_999);
    assert_eq!(w.current_contrast_bias().contrast, 10_000);
    w.set_contrast(-5);
    assert_eq!(w.current_contrast_bias().contrast, 0);
    w.set_bias(99_999);
    assert_eq!(w.current_contrast_bias().bias, 1_000);
    w.set_bias(-5);
    assert_eq!(w.current_contrast_bias().bias, 0);
}

#[test]
fn test_adjust_contrast_bias_drag() {
    let mut w = ArrayViewerWidget::new();
    let viewport = viewarr::geom::Vec2::new(1_000_000, 1_000_000);
    // A drag a tenth of the viewport to the right moves the bias by 0.1;
    // a drag a tenth of the viewport upward raises the contrast by 1.
    w.adjust_contrast_bias(100_000, -100_000, viewport);
    assert_eq!(w.current_contrast_bias().bias, 600);
    assert_eq!(w.current_contrast_bias().contrast, 2_000);
}

#[test]
fn test_reset_current_and_all_stretch() {
    let mut w = ArrayViewerWidget::new();
    w.set_contrast(4_000);
    assert!(w.is_stretch_modified());
    w.reset_current_stretch();
    assert!(!w.is_stretch_modified());

    w.set_stretch_type(StretchType::Log);
    w.set_contrast(7_000);
    w.reset_all_stretch();
    assert_eq!(w.stretch_type(), StretchType::Linear);
    assert!(!w.is_stretch_modified());
    w.set_stretch_type(StretchType::Log);
    assert!(!w.is_stretch_modified());

    // The full reset also leaves symmetric mode, falling back to grayscale.
    w.set_colormap(Colormap::RdBu);
    assert!(w.is_symmetric());
    w.reset_all_stretch();
    assert!(!w.is_symmetric());
    assert_eq!(w.stretch_type(), StretchType::Linear);
    assert_eq!(w.colormap(), Colormap::Grayscale);
}

#[test]
fn test_limits_modified_and_reset() {
    let mut w = widget_with_ramp();
    assert!(!w.is_limits_modified());
    w.set_min_val(-5_000);
    assert!(w.is_limits_modified());
    assert!(w.is_display_modified());
    w.reset_limits();
    assert!(!w.is_limits_modified());
    assert_eq!(w.value_range(), (-10_000, 10_000));
}

/// Selecting a diverging palette implies symmetric mode: it is enabled and
/// the palette takes effect at once.
#[test]
fn test_diverging_colormap_enables_symmetric() {
    let mut w = ArrayViewerWidget::new();
    assert!(!w.is_symmetric());
    w.set_colormap(Colormap::RdBu);
    assert!(w.is_symmetric());
    assert_eq!(w.colormap(), Colormap::RdBu);
}

/// Disabling symmetric mode while a diverging palette is active substitutes
/// grayscale; the diverging slot keeps its choice for the next activation.
#[test]
fn test_colormap_slots_follow_mode() {
    let mut w = ArrayViewerWidget::new();
    w.set_colormap(Colormap::Inferno);
    assert!(!w.is_symmetric());
    assert_eq!(w.colormap(), Colormap::Inferno);

    w.set_colormap(Colormap::RdYlBu);
    assert!(w.is_symmetric());
    assert_eq!(w.colormap(), Colormap::RdYlBu);

    w.toggle_symmetric();
    assert!(!w.is_symmetric());
    assert_eq!(w.colormap(), Colormap::Grayscale);

    w.set_symmetric(true);
    assert_eq!(w.colormap(), Colormap::RdYlBu);
}

/// Switching to the logarithmic stretch leaves symmetric mode and falls
/// back from the active diverging palette to grayscale.
#[test]
fn test_log_stretch_disables_symmetric() {
    let mut w = ArrayViewerWidget::new();
    w.set_colormap(Colormap::RdBu);
    assert!(w.is_symmetric());
    w.set_stretch_type(StretchType::Log);
    assert!(!w.is_symmetric());
    assert_eq!(w.stretch_type(), StretchType::Log);
    assert_eq!(w.colormap(), Colormap::Grayscale);
}

#[test]
fn test_stretch_modes() {
    let mut w = ArrayViewerWidget::new();
    assert_eq!(w.stretch_mode(), StretchMode::Linear);

    w.set_stretch_mode(StretchMode::Log);
    assert_eq!(w.stretch_mode(), StretchMode::Log);
    assert!(!w.is_symmetric());

    w.set_stretch_mode(StretchMode::Symmetric);
    assert_eq!(w.stretch_mode(), StretchMode::Symmetric);
    assert!(w.is_symmetric());
    assert_eq!(w.stretch_type(), StretchType::Linear);

    w.set_stretch_mode(StretchMode::Linear);
    assert_eq!(w.stretch_mode(), StretchMode::Linear);
    assert!(!w.is_symmetric());
    // Leaving symmetric mode fell back to grayscale, while the diverging
    // slot keeps its palette for the next activation.
    assert_eq!(w.colormap(), Colormap::Grayscale);
    w.set_stretch_mode(StretchMode::Symmetric);
    assert_eq!(w.colormap(), Colormap::RdBu);
}

#[test]
fn test_texture_dirty_flag() {
    let mut w = widget_with_ramp();
    assert!(w.texture_dirty);
    w.texture_dirty = false;
    w.set_contrast(2_000);
    assert!(w.texture_dirty);
    w.texture_dirty = false;
    w.set_min_val(w.value_range().0);
    assert!(!w.texture_dirty, "an unchanged limit leaves the texture clean");
}

#[test]
fn test_get_pixel_value() {
    let w = widget_with_ramp();
    assert_eq!(w.get_pixel_value(0, 0), Some(Some(-10_000)));
    assert_eq!(w.get_pixel_value(2, 0), Some(Some(10_000)));
    assert_eq!(w.get_pixel_value(3, 0), None);
    assert_eq!(w.get_pixel_value(0, 1), None);
}

#[test]
fn test_hover_info_roundtrip() {
    let mut w = widget_with_ramp();
    assert_eq!(w.hover_info(), None);
    w.set_hover_info(Some((2, 0, Some(10_000))));
    assert_eq!(w.hover_info(), Some((2, 0, Some(10_000))));
}

#[test]
fn test_colorbar_pixels() {
    let w = ArrayViewerWidget::new();
    let bar = w.build_colorbar_pixels();
    assert_eq!(bar.len(), 256);
    // High values at the top, low at the bottom.
    assert_eq!(bar[0], Rgb { r: 255, g: 255, b: 255 });
    assert_eq!(bar[255], Rgb { r: 0, g: 0, b: 0 });
}

#[test]
fn test_view_bounds_default_view() {
    let mut w = ArrayViewerWidget::new();
    let pixels: Vec<Option<i64>> = (0..100 * 100).map(|v| Some(v as i64)).collect();
    w.set_image(pixels, 100, 100, true);

    // At fit-to-view in a square viewport the whole image is visible.
    let (xmin, xmax, ymin, ymax) = w.get_view_bounds(200_000, 200_000);
    assert_eq!((xmin, xmax), (0, 100_000));
    assert_eq!((ymin, ymax), (0, 100_000));
}

/// The view-bounds pair round-trips on both axes, including for a region
/// that is not vertically centered: showing the bottom-left image quadrant
/// reports the bottom-left quadrant back.
#[test]
fn test_view_bounds_round_trip_off_center() {
    let mut w = ArrayViewerWidget::new();
    let pixels: Vec<Option<i64>> = (0..100 * 100).map(|v| Some(v as i64)).collect();
    w.set_image(pixels, 100, 100, true);

    w.set_view_bounds(0, 50_000, 0, 50_000, 200_000, 200_000);
    assert_eq!(w.zoom_level(), 2_000);
    // The bottom half of the image sits in the lower half of the displayed
    // rect, so showing it pans the view down.
    assert_eq!(w.transform().pan_offset, viewarr::geom::Vec2::new(100_000, -100_000));

    let (xmin, xmax, ymin, ymax) = w.get_view_bounds(200_000, 200_000);
    assert_eq!((xmin, xmax), (0, 50_000));
    assert_eq!((ymin, ymax), (0, 50_000));
}

#[test]
fn test_set_view_bounds_zooms_to_region() {
    let mut w = ArrayViewerWidget::new();
    let pixels: Vec<Option<i64>> = (0..100 * 100).map(|v| Some(v as i64)).collect();
    w.set_image(pixels, 100, 100, true);

    // Show the central 50 by 50 pixel region: zoom doubles and, because
    // the region is centered, no pan is needed.
    w.set_view_bounds(25_000, 75_000, 25_000, 75_000, 200_000, 200_000);
    assert_eq!(w.zoom_level(), 2_000);
    assert_eq!(w.transform().pan_offset, viewarr::geom::Vec2::new(0, 0));

    let (xmin, xmax, ymin, ymax) = w.get_view_bounds(200_000, 200_000);
    assert_eq!((xmin, xmax), (25_000, 75_000));
    assert_eq!((ymin, ymax), (25_000, 75_000));
}

/// A full view reset restores zoom, pan and rotation but keeps the pivot;
/// the zoom-and-pan reset keeps the rotation too.
#[test]
fn test_reset_preserves_pivot() {
    let mut w = widget_with_ramp();
    w.set_pivot_point(2_000, 0);
    w.set_rotation(45_000);
    w.transform_mut().zoom = 3_000;
    w.transform_mut().pan_offset.x = 5_000;

    w.zoom_to_fit();
    assert_eq!(w.zoom_level(), 1_000);
    assert_eq!(w.transform().pan_offset.x, 0);
    assert_eq!(w.rotation(), 45_000);
    assert_eq!(w.pivot_point(), (2_000, 0));

    w.transform_mut().zoom = 3_000;
    w.transform_mut().reset();
    assert_eq!(w.rotation(), 0);
    assert_eq!(w.pivot_point(), (2_000, 0));
}
