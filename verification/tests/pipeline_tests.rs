//! Tests of the value pipeline: statistics, normalization, the stretch
//! curves, the contrast/bias transform and the colormaps. Values are in
//! milli-units (1000 = 1.0).

use viewarr::colormap::{Colormap, Rgb};
use viewarr::stats;
use viewarr::stretch::{
    apply_contrast_bias, apply_full_stretch_value, apply_stretch, normalize, ContrastBias,
    StretchType,
};

fn default_cb() -> ContrastBias {
    ContrastBias { contrast: 1000, bias: 500 }
}

#[test]
fn test_stats_min_max() {
    let samples = vec![Some(-10_000i64), Some(0), Some(10_000)];
    let (mn, mx) = stats::compute(&samples);
    assert_eq!(mn, -10_000);
    assert_eq!(mx, 10_000);
}

#[test]
fn test_stats_ignores_non_finite() {
    let samples = vec![None, Some(5_000i64), None, Some(2_000), None];
    let (mn, mx) = stats::compute(&samples);
    assert_eq!(mn, 2_000);
    assert_eq!(mx, 5_000);
}

#[test]
fn test_stats_no_finite_samples_defaults() {
    let samples: Vec<Option<i64>> = vec![None, None, None];
    let (mn, mx) = stats::compute(&samples);
    assert_eq!(mn, 0);
    assert_eq!(mx, 1000);
}

#[test]
fn test_stats_empty_defaults() {
    let samples: Vec<Option<i64>> = Vec::new();
    let (mn, mx) = stats::compute(&samples);
    assert_eq!(mn, 0);
    assert_eq!(mx, 1000);
}

#[test]
fn test_stats_degenerate_range_widens() {
    let samples = vec![Some(5_000i64), Some(5_000), Some(5_000)];
    let (mn, mx) = stats::compute(&samples);
    assert_eq!(mn, 5_000);
    assert_eq!(mx, 6_000);
}

#[test]
fn test_normalize_clamps_into_unit_range() {
    assert_eq!(normalize(Some(-10_000), -10_000, 10_000), 0);
    assert_eq!(normalize(Some(0), -10_000, 10_000), 500);
    assert_eq!(normalize(Some(10_000), -10_000, 10_000), 1000);
    assert_eq!(normalize(Some(50_000), -10_000, 10_000), 1000);
    assert_eq!(normalize(Some(-50_000), -10_000, 10_000), 0);
}

/// A sample that is not a finite number normalizes to zero.
#[test]
fn test_normalize_non_finite_is_zero() {
    assert_eq!(normalize(None, -10_000, 10_000), 0);
    assert_eq!(normalize(None, 0, 1), 0);
}

/// A degenerate or inverted scale range normalizes everything to zero.
#[test]
fn test_normalize_degenerate_range_is_zero() {
    assert_eq!(normalize(Some(5_000), 3_000, 3_000), 0);
    assert_eq!(normalize(Some(5_000), 9_000, 2_000), 0);
}

#[test]
fn test_linear_stretch_is_identity() {
    assert_eq!(apply_stretch(0, StretchType::Linear), 0);
    assert_eq!(apply_stretch(437, StretchType::Linear), 437);
    assert_eq!(apply_stretch(1000, StretchType::Linear), 1000);
}

#[test]
fn test_log_stretch_endpoints_and_compression() {
    assert_eq!(apply_stretch(0, StretchType::Log), 0);
    assert_eq!(apply_stretch(1000, StretchType::Log), 1000);
    // The curve compresses the bright end: the dark tenth of the input
    // range already covers most of the output range.
    assert_eq!(apply_stretch(100, StretchType::Log), 659);
    assert_eq!(apply_stretch(500, StretchType::Log), 898);
    let mid = apply_stretch(500, StretchType::Log);
    assert!(mid > 500);
}

#[test]
fn test_contrast_bias_defaults_are_identity() {
    assert_eq!(apply_contrast_bias(0, 1000, 500), 0);
    assert_eq!(apply_contrast_bias(250, 1000, 500), 250);
    assert_eq!(apply_contrast_bias(500, 1000, 500), 500);
    assert_eq!(apply_contrast_bias(1000, 1000, 500), 1000);
}

#[test]
fn test_contrast_bias_shapes_and_clamps() {
    // Doubling the contrast steepens the ramp about the bias point.
    assert_eq!(apply_contrast_bias(250, 2000, 500), 0);
    assert_eq!(apply_contrast_bias(750, 2000, 500), 1000);
    assert_eq!(apply_contrast_bias(500, 2000, 500), 500);
    // Moving the bias shifts the ramp.
    assert_eq!(apply_contrast_bias(250, 1000, 250), 500);
    // Zero contrast flattens everything to the midpoint.
    assert_eq!(apply_contrast_bias(0, 0, 500), 500);
    assert_eq!(apply_contrast_bias(1000, 0, 500), 500);
}

/// The concrete pipeline scenario: samples -10, 0, 10 against the range
/// [-10, 10], linear stretch, default contrast/bias.
#[test]
fn test_full_stretch_pipeline_scenario() {
    let cb = default_cb();
    let lo = -10_000;
    let hi = 10_000;
    assert_eq!(
        apply_full_stretch_value(Some(-10_000), lo, hi, cb, StretchType::Linear),
        0
    );
    assert_eq!(
        apply_full_stretch_value(Some(0), lo, hi, cb, StretchType::Linear),
        500
    );
    assert_eq!(
        apply_full_stretch_value(Some(10_000), lo, hi, cb, StretchType::Linear),
        1000
    );
}

/// A sample that is not a finite number runs through the whole pipeline to
/// the lowest colormap entry, whatever the scale range.
#[test]
fn test_full_stretch_non_finite_renders_lowest() {
    let cb = default_cb();
    assert_eq!(apply_full_stretch_value(None, -10_000, 10_000, cb, StretchType::Linear), 0);
    assert_eq!(apply_full_stretch_value(None, 7, 9, cb, StretchType::Log), 0);
    assert_eq!(Colormap::Grayscale.map(0), Rgb { r: 0, g: 0, b: 0 });
    assert_eq!(Colormap::Inferno.map(0), Rgb { r: 0, g: 0, b: 4 });
}

#[test]
fn test_colormap_names() {
    assert_eq!(Colormap::Grayscale.name(), "Gray");
    assert_eq!(Colormap::Inferno.name(), "Inferno");
    assert_eq!(Colormap::Magma.name(), "Magma");
    assert_eq!(Colormap::RdBu.name(), "RdBu");
    assert_eq!(Colormap::RdYlBu.name(), "RdYlBu");
}

#[test]
fn test_colormap_classification() {
    assert!(!Colormap::Grayscale.is_diverging());
    assert!(!Colormap::Inferno.is_diverging());
    assert!(!Colormap::Magma.is_diverging());
    assert!(Colormap::RdBu.is_diverging());
    assert!(Colormap::RdYlBu.is_diverging());

    let standard = Colormap::standard_colormaps();
    assert_eq!(
        standard,
        vec![Colormap::Grayscale, Colormap::Inferno, Colormap::Magma]
    );
    let diverging = Colormap::diverging_colormaps();
    assert_eq!(diverging, vec![Colormap::RdBu, Colormap::RdYlBu]);
}

#[test]
fn test_grayscale_rounds_to_channel() {
    assert_eq!(Colormap::Grayscale.map(0), Rgb { r: 0, g: 0, b: 0 });
    // 0.5 * 255 = 127.5 rounds up to 128.
    assert_eq!(Colormap::Grayscale.map(500), Rgb { r: 128, g: 128, b: 128 });
    assert_eq!(Colormap::Grayscale.map(1000), Rgb { r: 255, g: 255, b: 255 });
}

#[test]
fn test_palette_gradient_endpoints() {
    assert_eq!(Colormap::Inferno.map(0), Rgb { r: 0, g: 0, b: 4 });
    assert_eq!(Colormap::Inferno.map(1000), Rgb { r: 252, g: 255, b: 164 });
    assert_eq!(Colormap::RdBu.map(0), Rgb { r: 103, g: 0, b: 31 });
    assert_eq!(Colormap::RdBu.map(1000), Rgb { r: 5, g: 48, b: 97 });
}

#[test]
fn test_palette_gradient_midpoint() {
    // t = 0.5 selects table entry 127.
    assert_eq!(Colormap::RdBu.map(500), Rgb { r: 246, g: 244, b: 244 });
}
