//! View transformation state for pan, zoom and rotation, and the screen /
//! image coordinate conversions built on it.
//!
//! Zoom levels carry a scale of 1000 (1000 = fit-to-view), screen coordinates
//! are milli-pixels, rotation angles are millidegrees normalized into
//! `(-180_000, 180_000]`, and the pivot point is held in milli image
//! coordinates.

use vstd::prelude::*;

use crate::fixed::{
    abs_spec, clamp_i64, clamp_spec, coord_in_range, div_floor, div_floor_wide, COORD_LIMIT, FRAC,
    PAN_LIMIT, SCALE,
};
use crate::geom::{Pos2, Rect, Vec2};
use crate::trig::{cos_mdeg, cos_mdeg_spec, sin_mdeg, sin_mdeg_spec, HALF_TURN_MDEG};

verus! {

/// Zoom step for zoom in/out operations (buttons/keyboard), times 1000.
pub const ZOOM_STEP: i64 = 1250;

/// Inverse of the zoom step (one step out), times 1000.
pub const ZOOM_STEP_INV: i64 = 800;

/// Zoom step for the scroll wheel (smaller for finer control), times 1000.
pub const SCROLL_ZOOM_STEP: i64 = 1080;

/// Minimum zoom level (10% of fit-to-view), times 1000.
pub const MIN_ZOOM: i64 = 100;

/// Maximum zoom level (5000% of fit-to-view), times 1000.
pub const MAX_ZOOM: i64 = 50_000;

/// Rotation step for the +/- buttons, in millidegrees.
pub const ROTATION_STEP: i64 = 15_000;

/// Full turn in millidegrees.
pub const FULL_TURN_MDEG: i64 = 360_000;

/// View transformation state for pan, zoom and rotation.
#[derive(Clone, Copy, Debug)]
pub struct ViewTransform {
    /// Zoom level times 1000: 1000 = fit-to-view, more = zoomed in.
    pub zoom: i64,
    /// Pan offset in screen milli-pixels, relative to the viewport center.
    pub pan_offset: Vec2,
    /// Rotation angle in millidegrees, counter-clockwise, in `(-180_000, 180_000]`.
    pub rotation_mdeg: i64,
    /// Pivot point for rotation, in milli image coordinates.
    pub pivot_point: (i64, i64),
    /// Whether the pivot marker should be shown.
    pub show_pivot_marker: bool,
}

impl ViewTransform {
    /// Well-formedness: the invariant every operation preserves. The pan
    /// offset is only softly bounded (far beyond any realistic screen).
    pub open spec fn wf(self) -> bool {
        MIN_ZOOM <= self.zoom <= MAX_ZOOM && -HALF_TURN_MDEG <= self.rotation_mdeg
            <= HALF_TURN_MDEG && coord_in_range(self.pivot_point.0) && coord_in_range(
            self.pivot_point.1,
        ) && -PAN_LIMIT <= self.pan_offset.x <= PAN_LIMIT && -PAN_LIMIT <= self.pan_offset.y
            <= PAN_LIMIT
    }

    /// The default state: fit-to-view, no pan, no rotation, pivot at origin.
    pub open spec fn default_spec() -> ViewTransform {
        ViewTransform {
            zoom: SCALE,
            pan_offset: Vec2 { x: 0, y: 0 },
            rotation_mdeg: 0,
            pivot_point: (0, 0),
            show_pivot_marker: false,
        }
    }

    /// Create a new transform at default zoom (fit-to-view) with no pan or rotation.
    pub fn new() -> (r: ViewTransform)
        ensures
            r == ViewTransform::default_spec(),
            r.wf(),
    {
        ViewTransform {
            zoom: SCALE,
            pan_offset: Vec2 { x: 0, y: 0 },
            rotation_mdeg: 0,
            pivot_point: (0, 0),
            show_pivot_marker: false,
        }
    }

    /// Reset zoom, pan and rotation to the fit-to-view state. The pivot point
    /// and the marker flag keep their current values.
    pub fn reset(&mut self)
        ensures
            final(self).zoom == SCALE,
            final(self).pan_offset == (Vec2 { x: 0, y: 0 }),
            final(self).rotation_mdeg == 0,
            final(self).pivot_point == old(self).pivot_point,
            final(self).show_pivot_marker == old(self).show_pivot_marker,
            old(self).wf() ==> final(self).wf(),
    {
        self.zoom = SCALE;
        self.pan_offset = Vec2 { x: 0, y: 0 };
        self.rotation_mdeg = 0;
    }

    /// Reset only the pan offset, keeping zoom, rotation and pivot.
    pub fn reset_pan(&mut self)
        ensures
            *final(self) == (ViewTransform { pan_offset: Vec2 { x: 0, y: 0 }, ..*old(self) }),
            old(self).wf() ==> final(self).wf(),
    {
        self.pan_offset = Vec2 { x: 0, y: 0 };
    }

    /// Reset zoom and pan, keeping rotation and pivot.
    pub fn reset_zoom_and_pan(&mut self)
        ensures
            *final(self) == (ViewTransform {
                zoom: SCALE,
                pan_offset: Vec2 { x: 0, y: 0 },
                ..*old(self)
            }),
            old(self).wf() ==> final(self).wf(),
    {
        self.zoom = SCALE;
        self.pan_offset = Vec2 { x: 0, y: 0 };
    }

    /// The default state within tolerance: zoom within a thousandth of
    /// fit-to-view, pan shorter than half a screen pixel, rotation within a
    /// thousandth of a degree. In fixed point the tolerances on zoom and
    /// rotation admit only the exact values.
    pub open spec fn is_default_spec(self) -> bool {
        self.zoom == SCALE && self.pan_offset.x * self.pan_offset.x + self.pan_offset.y
            * self.pan_offset.y < 250_000 && self.rotation_mdeg == 0
    }

    /// Check if the transform is at its default state (used to show or hide
    /// the reset button).
    pub fn is_default(&self) -> (r: bool)
        requires
            self.wf(),
        ensures
            r == self.is_default_spec(),
    {
        if self.zoom != SCALE || self.rotation_mdeg != 0 {
            return false;
        }
        let x = self.pan_offset.x;
        let y = self.pan_offset.y;
        if x <= -500 || x >= 500 || y <= -500 || y >= 500 {
            proof {
                assert(x * x + y * y >= 250_000) by (nonlinear_arith)
                    requires
                        x <= -500 || x >= 500 || y <= -500 || y >= 500,
                ;
            }
            return false;
        }
        proof {
            assert(x * x < 250_000 && y * y < 250_000 && x * x >= 0 && y * y >= 0)
                by (nonlinear_arith)
                requires
                    -500 < x < 500 && -500 < y < 500,
            ;
        }
        x * x + y * y < 250_000
    }

    /// Get the rotation angle in millidegrees.
    pub fn rotation(&self) -> (r: i64)
        ensures
            r == self.rotation_mdeg,
    {
        self.rotation_mdeg
    }

    /// Set the rotation angle in millidegrees (counter-clockwise). The stored
    /// angle is the representative of `mdeg` modulo a full turn inside
    /// `(-180_000, 180_000]`, except that a negative `mdeg` congruent to a
    /// half turn keeps the sign of its remainder and is stored as `-180_000`.
    pub fn set_rotation(&mut self, mdeg: i64)
        ensures
            -HALF_TURN_MDEG <= final(self).rotation_mdeg <= HALF_TURN_MDEG,
            mdeg >= 0 ==> -HALF_TURN_MDEG < final(self).rotation_mdeg,
            mdeg < 0 ==> final(self).rotation_mdeg < HALF_TURN_MDEG,
            (final(self).rotation_mdeg - mdeg) % (FULL_TURN_MDEG as int) == 0,
            final(self).zoom == old(self).zoom,
            final(self).pan_offset == old(self).pan_offset,
            final(self).pivot_point == old(self).pivot_point,
            final(self).show_pivot_marker == old(self).show_pivot_marker,
            old(self).wf() ==> final(self).wf(),
    {
        let n = mdeg % FULL_TURN_MDEG;
        proof {
            lemma_trunc_rem_is_congruent(mdeg as int, FULL_TURN_MDEG as int);
        }
        let normalized = if n > HALF_TURN_MDEG {
            n - FULL_TURN_MDEG
        } else if n < -HALF_TURN_MDEG {
            n + FULL_TURN_MDEG
        } else {
            n
        };
        proof {
            lemma_congruence_step(mdeg as int, n as int, normalized as int, FULL_TURN_MDEG as int);
        }
        self.rotation_mdeg = normalized;
    }

    /// Rotate by a delta amount, in millidegrees.
    pub fn rotate_by(&mut self, delta_mdeg: i64)
        requires
            -HALF_TURN_MDEG <= old(self).rotation_mdeg <= HALF_TURN_MDEG,
            -9_223_372_036_854_000_000 <= delta_mdeg <= 9_223_372_036_854_000_000,
        ensures
            -HALF_TURN_MDEG <= final(self).rotation_mdeg <= HALF_TURN_MDEG,
            old(self).rotation_mdeg + delta_mdeg >= 0 ==> -HALF_TURN_MDEG
                < final(self).rotation_mdeg,
            old(self).rotation_mdeg + delta_mdeg < 0 ==> final(self).rotation_mdeg
                < HALF_TURN_MDEG,
            (final(self).rotation_mdeg - (old(self).rotation_mdeg + delta_mdeg)) % (
            FULL_TURN_MDEG as int) == 0,
            final(self).zoom == old(self).zoom,
            final(self).pan_offset == old(self).pan_offset,
            final(self).pivot_point == old(self).pivot_point,
            final(self).show_pivot_marker == old(self).show_pivot_marker,
            old(self).wf() ==> final(self).wf(),
    {
        let target = self.rotation_mdeg + delta_mdeg;
        self.set_rotation(target);
    }

    /// Get the pivot point in milli image coordinates.
    pub fn pivot_point(&self) -> (r: (i64, i64))
        ensures
            r == self.pivot_point,
    {
        self.pivot_point
    }

    /// Set the pivot point in milli image coordinates.
    pub fn set_pivot_point(&mut self, x: i64, y: i64)
        requires
            coord_in_range(x),
            coord_in_range(y),
        ensures
            *final(self) == (ViewTransform { pivot_point: (x, y), ..*old(self) }),
            old(self).wf() ==> final(self).wf(),
    {
        self.pivot_point = (x, y);
    }

    /// Initialize the pivot point to the image center `((w-1)/2, (h-1)/2)`,
    /// in milli image coordinates.
    pub fn set_pivot_to_center(&mut self, image_width: u32, image_height: u32)
        requires
            image_width <= crate::fixed::MAX_IMAGE_DIM,
            image_height <= crate::fixed::MAX_IMAGE_DIM,
        ensures
            *final(self) == (ViewTransform {
                pivot_point: (
                    (500 * (image_width as int - 1)) as i64,
                    (500 * (image_height as int - 1)) as i64,
                ),
                ..*old(self)
            }),
            old(self).wf() ==> final(self).wf(),
    {
        let px = 500 * (image_width as i64) - 500;
        let py = 500 * (image_height as i64) - 500;
        self.pivot_point = (px, py);
    }

    /// Set the zoom level directly (times 1000), clamped into the valid
    /// range.
    pub fn set_zoom(&mut self, zoom: i64)
        ensures
            *final(self) == (ViewTransform {
                zoom: clamp_spec(zoom as int, MIN_ZOOM as int, MAX_ZOOM as int) as i64,
                ..*old(self)
            }),
            MIN_ZOOM <= final(self).zoom <= MAX_ZOOM,
            old(self).wf() ==> final(self).wf(),
    {
        self.zoom = clamp_i64(zoom, MIN_ZOOM, MAX_ZOOM);
    }

    /// Apply a pan delta in screen milli-pixels. The offset is unconstrained
    /// up to the soft bound that keeps the coordinate math in range.
    pub fn pan_by(&mut self, delta: Vec2)
        requires
            -PAN_LIMIT <= old(self).pan_offset.x + delta.x <= PAN_LIMIT,
            -PAN_LIMIT <= old(self).pan_offset.y + delta.y <= PAN_LIMIT,
        ensures
            *final(self) == (ViewTransform {
                pan_offset: Vec2 {
                    x: (old(self).pan_offset.x + delta.x) as i64,
                    y: (old(self).pan_offset.y + delta.y) as i64,
                },
                ..*old(self)
            }),
            old(self).wf() ==> final(self).wf(),
    {
        self.pan_offset = Vec2 { x: self.pan_offset.x + delta.x, y: self.pan_offset.y + delta.y };
    }

    /// The zoomed display size of one axis: `base * zoom / 1000`.
    pub open spec fn zoomed_size_spec(self, base: int) -> int {
        base * self.zoom / (SCALE as int)
    }

    /// The display rect for the image: `base_display_size` scaled by the zoom
    /// about its own center, centered in the viewport, then shifted by the
    /// pan offset.
    pub open spec fn image_rect_spec(self, viewport_rect: Rect, base: Vec2) -> Rect {
        let zx = self.zoomed_size_spec(base.x as int);
        let zy = self.zoomed_size_spec(base.y as int);
        Rect {
            min: Pos2 {
                x: (viewport_rect.min.x + (viewport_rect.size.x - base.x) / 2 + (base.x - zx) / 2
                    + self.pan_offset.x) as i64,
                y: (viewport_rect.min.y + (viewport_rect.size.y - base.y) / 2 + (base.y - zy) / 2
                    + self.pan_offset.y) as i64,
            },
            size: Vec2 { x: zx as i64, y: zy as i64 },
        }
    }

    /// Calculate the display rect for the image given the viewport rect and
    /// the base (fit-to-view) display size, all in milli-pixels.
    pub fn calculate_image_rect(&self, viewport_rect: Rect, base_display_size: Vec2) -> (r: Rect)
        requires
            self.wf(),
            coord_in_range(viewport_rect.min.x),
            coord_in_range(viewport_rect.min.y),
            coord_in_range(viewport_rect.size.x),
            coord_in_range(viewport_rect.size.y),
            0 <= base_display_size.x <= COORD_LIMIT,
            0 <= base_display_size.y <= COORD_LIMIT,
        ensures
            r == self.image_rect_spec(viewport_rect, base_display_size),
            0 <= r.size.x <= 50 * COORD_LIMIT,
            0 <= r.size.y <= 50 * COORD_LIMIT,
            -2 * PAN_LIMIT <= r.min.x <= 2 * PAN_LIMIT,
            -2 * PAN_LIMIT <= r.min.y <= 2 * PAN_LIMIT,
    {
        proof {
            lemma_zoom_product_bounds(base_display_size.x as int, self.zoom as int);
            lemma_zoom_product_bounds(base_display_size.y as int, self.zoom as int);
            crate::fixed::lemma_div_in_range(
                viewport_rect.size.x - base_display_size.x,
                2,
                2 * COORD_LIMIT,
            );
            crate::fixed::lemma_div_in_range(
                viewport_rect.size.y - base_display_size.y,
                2,
                2 * COORD_LIMIT,
            );
            crate::fixed::lemma_div_in_range(
                base_display_size.x - self.zoomed_size_spec(base_display_size.x as int),
                2,
                51 * COORD_LIMIT,
            );
            crate::fixed::lemma_div_in_range(
                base_display_size.y - self.zoomed_size_spec(base_display_size.y as int),
                2,
                51 * COORD_LIMIT,
            );
        }
        let zx = div_floor(base_display_size.x * self.zoom, SCALE);
        let zy = div_floor(base_display_size.y * self.zoom, SCALE);
        let min_x = viewport_rect.min.x + div_floor(viewport_rect.size.x - base_display_size.x, 2)
            + div_floor(base_display_size.x - zx, 2) + self.pan_offset.x;
        let min_y = viewport_rect.min.y + div_floor(viewport_rect.size.y - base_display_size.y, 2)
            + div_floor(base_display_size.y - zy, 2) + self.pan_offset.y;
        Rect { min: Pos2 { x: min_x, y: min_y }, size: Vec2 { x: zx, y: zy } }
    }

    /// The relative horizontal position of `p` inside `rect`, scaled by
    /// `FRAC`.
    pub open spec fn rel_frac_x(p: Pos2, rect: Rect) -> int {
        (p.x - rect.min.x) * (FRAC as int) / (rect.size.x as int)
    }

    /// The relative vertical position of `p` inside `rect`, scaled by `FRAC`
    /// and flipped: row 0 of the image is the bottom of the displayed rect.
    pub open spec fn rel_frac_y(p: Pos2, rect: Rect) -> int {
        FRAC - (p.y - rect.min.y) * (FRAC as int) / (rect.size.y as int)
    }

    /// A relative position clamped into `[0, FRAC)` and floored into a pixel
    /// index of an axis with `dim` pixels.
    pub open spec fn pixel_from_rel(rel: int, dim: int) -> int {
        clamp_spec(rel, 0, FRAC - 1) * dim / (FRAC as int)
    }

    /// What `screen_to_image` returns: the pixel under `p`, or `None` when
    /// `p` is outside `rect` or the image is empty.
    pub open spec fn screen_to_image_spec(p: Pos2, rect: Rect, w: u32, h: u32) -> Option<
        (u32, u32),
    > {
        if rect.contains_spec(p) && 1 <= w && 1 <= h {
            Some(
                (
                    Self::pixel_from_rel(Self::rel_frac_x(p, rect), w as int) as u32,
                    Self::pixel_from_rel(Self::rel_frac_y(p, rect), h as int) as u32,
                ),
            )
        } else {
            None
        }
    }

    /// Convert a screen position to image pixel coordinates. The vertical
    /// axis is flipped: pixel row 0 is the bottom row of the displayed image.
    pub fn screen_to_image(&self, screen_pos: Pos2, image_rect: Rect, image_size: (u32, u32))
        -> (r: Option<(u32, u32)>)
        requires
            image_rect.wf(),
            coord_in_range(screen_pos.x),
            coord_in_range(screen_pos.y),
            image_size.0 <= crate::fixed::MAX_IMAGE_DIM,
            image_size.1 <= crate::fixed::MAX_IMAGE_DIM,
        ensures
            r == Self::screen_to_image_spec(screen_pos, image_rect, image_size.0, image_size.1),
            r matches Some(q) ==> q.0 < image_size.0 && q.1 < image_size.1,
    {
        if !image_rect.contains(screen_pos) {
            return None;
        }
        if image_size.0 == 0 || image_size.1 == 0 {
            return None;
        }
        let rel_x = div_floor((screen_pos.x - image_rect.min.x) * FRAC, image_rect.size.x);
        let rel_y = FRAC - div_floor((screen_pos.y - image_rect.min.y) * FRAC, image_rect.size.y);
        let cx = clamp_i64(rel_x, 0, FRAC - 1);
        let cy = clamp_i64(rel_y, 0, FRAC - 1);
        proof {
            vstd::arithmetic::mul::lemma_mul_upper_bound(
                cx as int,
                FRAC - 1,
                image_size.0 as int,
                crate::fixed::MAX_IMAGE_DIM as int,
            );
            vstd::arithmetic::mul::lemma_mul_upper_bound(
                cy as int,
                FRAC - 1,
                image_size.1 as int,
                crate::fixed::MAX_IMAGE_DIM as int,
            );
            vstd::arithmetic::mul::lemma_mul_nonnegative(cx as int, image_size.0 as int);
            vstd::arithmetic::mul::lemma_mul_nonnegative(cy as int, image_size.1 as int);
        }
        let img_x = div_floor(cx * (image_size.0 as i64), FRAC);
        let img_y = div_floor(cy * (image_size.1 as i64), FRAC);
        proof {
            lemma_pixel_from_rel_in_bounds(cx as int, image_size.0 as int);
            lemma_pixel_from_rel_in_bounds(cy as int, image_size.1 as int);
        }
        Some((img_x as u32, img_y as u32))
    }

    /// Where `image_to_screen` puts one axis: the pixel center `i + 1/2` of
    /// an axis with `dim` pixels, mapped across the rect extent.
    pub open spec fn pixel_center_rel(i: int, dim: int) -> int {
        (2 * i + 1) * (FRAC as int) / (2 * dim)
    }

    /// What `image_to_screen` returns for a pixel inside the image.
    pub open spec fn image_to_screen_spec(i: (u32, u32), rect: Rect, w: u32, h: u32) -> Pos2 {
        Pos2 {
            x: (rect.min.x + Self::pixel_center_rel(i.0 as int, w as int) * rect.size.x / (
            FRAC as int)) as i64,
            y: (rect.min.y + (FRAC - Self::pixel_center_rel(i.1 as int, h as int)) * rect.size.y
                / (FRAC as int)) as i64,
        }
    }

    /// Convert image pixel coordinates to the screen position of the pixel
    /// center, flipping the vertical axis.
    pub fn image_to_screen(&self, image_pos: (u32, u32), image_rect: Rect, image_size: (u32, u32))
        -> (r: Pos2)
        requires
            image_rect.wf(),
            1 <= image_size.0 <= crate::fixed::MAX_IMAGE_DIM,
            1 <= image_size.1 <= crate::fixed::MAX_IMAGE_DIM,
            image_pos.0 < image_size.0,
            image_pos.1 < image_size.1,
        ensures
            r == Self::image_to_screen_spec(image_pos, image_rect, image_size.0, image_size.1),
            -COORD_LIMIT <= r.x <= 2 * COORD_LIMIT && -COORD_LIMIT <= r.y <= 2 * COORD_LIMIT,
    {
        let rel_x = div_floor(
            (2 * (image_pos.0 as i64) + 1) * FRAC,
            2 * (image_size.0 as i64),
        );
        let rel_y_up = div_floor(
            (2 * (image_pos.1 as i64) + 1) * FRAC,
            2 * (image_size.1 as i64),
        );
        proof {
            lemma_pixel_center_rel_in_unit(image_pos.0 as int, image_size.0 as int);
            lemma_pixel_center_rel_in_unit(image_pos.1 as int, image_size.1 as int);
            lemma_rel_times_size_in_range(rel_x as int, image_rect.size.x as int);
            lemma_rel_times_size_in_range((FRAC - rel_y_up) as int, image_rect.size.y as int);
        }
        let x = image_rect.min.x + div_floor(rel_x * image_rect.size.x, FRAC);
        let y = image_rect.min.y + div_floor((FRAC - rel_y_up) * image_rect.size.y, FRAC);
        Pos2 { x, y }
    }

}

impl ViewTransform {
    /// Convert a screen position to image pixel coordinates for setting the
    /// pivot point.
    ///
    /// This is the same conversion as `screen_to_image` and deliberately does
    /// not account for the current rotation: when the user marks a new pivot
    /// by clicking, the marker must appear exactly at the clicked screen
    /// position, while the rotation-aware inverse would place it according to
    /// the rotated layout.
    pub fn screen_to_image_for_pivot(
        &self,
        screen_pos: Pos2,
        image_rect: Rect,
        image_size: (u32, u32),
    ) -> (r: Option<(u32, u32)>)
        requires
            image_rect.wf(),
            coord_in_range(screen_pos.x),
            coord_in_range(screen_pos.y),
            image_size.0 <= crate::fixed::MAX_IMAGE_DIM,
            image_size.1 <= crate::fixed::MAX_IMAGE_DIM,
        ensures
            r == Self::screen_to_image_spec(screen_pos, image_rect, image_size.0, image_size.1),
            r matches Some(q) ==> q.0 < image_size.0 && q.1 < image_size.1,
    {
        self.screen_to_image(screen_pos, image_rect, image_size)
    }

    /// The relative position of the pivot along one axis: the continuous
    /// pivot coordinate plus half a pixel, over the image extent.
    pub open spec fn pivot_rel_spec(pivot: int, dim: int) -> int {
        (pivot + 500) * (FRAC as int) / (dim * (SCALE as int))
    }

    /// Where `pivot_to_screen` puts the pivot, independent of the current
    /// rotation (the pivot's position in the unrotated layout).
    pub open spec fn pivot_to_screen_spec(self, rect: Rect, w: u32, h: u32) -> Pos2 {
        Pos2 {
            x: (rect.min.x + Self::pivot_rel_spec(self.pivot_point.0 as int, w as int) * rect.size.x
                / (FRAC as int)) as i64,
            y: (rect.min.y + (FRAC - Self::pivot_rel_spec(self.pivot_point.1 as int, h as int))
                * rect.size.y / (FRAC as int)) as i64,
        }
    }

    /// Convert the pivot point from image coordinates to screen coordinates,
    /// through the same relative/flip mapping as `image_to_screen`. The
    /// pivot is not clamped to the image bounds; it is accepted up to a
    /// thousand image extents outside, the bound that keeps the computed
    /// screen position inside `i64` for every accepted rect.
    pub fn pivot_to_screen(&self, image_rect: Rect, image_size: (u32, u32)) -> (r: Pos2)
        requires
            self.wf(),
            image_rect.wf(),
            1 <= image_size.0 <= crate::fixed::MAX_IMAGE_DIM,
            1 <= image_size.1 <= crate::fixed::MAX_IMAGE_DIM,
            -1000 * SCALE * (image_size.0 as int) <= self.pivot_point.0 <= 1000 * SCALE * (
            image_size.0 as int),
            -1000 * SCALE * (image_size.1 as int) <= self.pivot_point.1 <= 1000 * SCALE * (
            image_size.1 as int),
        ensures
            r == self.pivot_to_screen_spec(image_rect, image_size.0, image_size.1),
            -1003 * COORD_LIMIT <= r.x <= 1003 * COORD_LIMIT,
            -1003 * COORD_LIMIT <= r.y <= 1003 * COORD_LIMIT,
    {
        proof {
            lemma_pivot_rel_bounds(self.pivot_point.0 as int, image_size.0 as int);
            lemma_pivot_rel_bounds(self.pivot_point.1 as int, image_size.1 as int);
        }
        let rel_x = div_floor(
            (self.pivot_point.0 + 500) * FRAC,
            (image_size.0 as i64) * SCALE,
        );
        let rel_y_up = div_floor(
            (self.pivot_point.1 + 500) * FRAC,
            (image_size.1 as i64) * SCALE,
        );
        proof {
            lemma_signed_rel_times_size(rel_x as int, image_rect.size.x as int);
            lemma_signed_rel_times_size((FRAC - rel_y_up) as int, image_rect.size.y as int);
        }
        let x = image_rect.min.x + div_floor_wide(
            (rel_x as i128) * (image_rect.size.x as i128),
            FRAC as i128,
        ) as i64;
        let y = image_rect.min.y + div_floor_wide(
            ((FRAC - rel_y_up) as i128) * (image_rect.size.y as i128),
            FRAC as i128,
        ) as i64;
        Pos2 { x, y }
    }
}

impl ViewTransform {
    /// The zoom level after applying `delta` (times 1000) and clamping.
    pub open spec fn zoomed_spec(z: int, delta: int) -> int {
        clamp_spec(z * delta / (SCALE as int), MIN_ZOOM as int, MAX_ZOOM as int)
    }

    /// The pan offset along one axis that keeps the content under the cursor
    /// fixed: `(d * (zo - zn) + pan * zn) / zo`, the integer form of
    /// `d * (1 - zn/zo) + pan * (zn/zo)` with `d` the cursor position
    /// relative to the viewport center.
    pub open spec fn pan_component_spec(d: int, pan: int, zo: int, zn: int) -> int {
        (d * (zo - zn) + pan * zn) / zo
    }

    /// The full result of `zoom_around_point`: a no-op when the delta is one
    /// or the clamped zoom does not change; otherwise the new zoom level with
    /// the pan offset updated to keep the content under `pos` fixed, softly
    /// clamped into the representable pan range.
    pub open spec fn zoom_around_spec(t: ViewTransform, delta: int, pos: Pos2, vc: Pos2)
        -> ViewTransform {
        let zn = Self::zoomed_spec(t.zoom as int, delta);
        if delta == SCALE || zn == t.zoom {
            t
        } else {
            ViewTransform {
                zoom: zn as i64,
                pan_offset: Vec2 {
                    x: clamp_spec(
                        Self::pan_component_spec(
                            pos.x - vc.x,
                            t.pan_offset.x as int,
                            t.zoom as int,
                            zn,
                        ),
                        -PAN_LIMIT as int,
                        PAN_LIMIT as int,
                    ) as i64,
                    y: clamp_spec(
                        Self::pan_component_spec(
                            pos.y - vc.y,
                            t.pan_offset.y as int,
                            t.zoom as int,
                            zn,
                        ),
                        -PAN_LIMIT as int,
                        PAN_LIMIT as int,
                    ) as i64,
                },
                ..t
            }
        }
    }

    /// Apply a zoom delta (times 1000) centered on a specific screen
    /// position, preserving the point under the cursor while zooming.
    pub fn zoom_around_point(&mut self, zoom_delta: i64, screen_pos: Pos2, viewport_center: Pos2)
        requires
            old(self).wf(),
            coord_in_range(screen_pos.x),
            coord_in_range(screen_pos.y),
            coord_in_range(viewport_center.x),
            coord_in_range(viewport_center.y),
            -1_000_000_000 <= zoom_delta <= 1_000_000_000,
        ensures
            *final(self) == Self::zoom_around_spec(
                *old(self),
                zoom_delta as int,
                screen_pos,
                viewport_center,
            ),
            final(self).wf(),
            MIN_ZOOM <= final(self).zoom <= MAX_ZOOM,
    {
        if zoom_delta == SCALE {
            return ;
        }
        let old_zoom = self.zoom;
        proof {
            assert(-50_000_000_000_000 <= old_zoom * zoom_delta <= 50_000_000_000_000)
                by (nonlinear_arith)
                requires
                    MIN_ZOOM <= old_zoom <= MAX_ZOOM && -1_000_000_000 <= zoom_delta
                        <= 1_000_000_000,
            ;
        }
        let new_zoom = clamp_i64(div_floor(old_zoom * zoom_delta, SCALE), MIN_ZOOM, MAX_ZOOM);
        if new_zoom == old_zoom {
            return ;
        }
        let dx = screen_pos.x - viewport_center.x;
        let dy = screen_pos.y - viewport_center.y;
        proof {
            lemma_pan_numerator_bounds(
                dx as int,
                self.pan_offset.x as int,
                old_zoom as int,
                new_zoom as int,
            );
            lemma_pan_numerator_bounds(
                dy as int,
                self.pan_offset.y as int,
                old_zoom as int,
                new_zoom as int,
            );
        }
        let num_x: i128 = (dx as i128) * ((old_zoom - new_zoom) as i128) + (
        self.pan_offset.x as i128) * (new_zoom as i128);
        let num_y: i128 = (dy as i128) * ((old_zoom - new_zoom) as i128) + (
        self.pan_offset.y as i128) * (new_zoom as i128);
        let qx = div_floor_wide(num_x, old_zoom as i128);
        let qy = div_floor_wide(num_y, old_zoom as i128);
        let px: i64 = if qx > (PAN_LIMIT as i128) {
            PAN_LIMIT
        } else if qx < (-PAN_LIMIT as i128) {
            -PAN_LIMIT
        } else {
            qx as i64
        };
        let py: i64 = if qy > (PAN_LIMIT as i128) {
            PAN_LIMIT
        } else if qy < (-PAN_LIMIT as i128) {
            -PAN_LIMIT
        } else {
            qy as i64
        };
        self.pan_offset = Vec2 { x: px, y: py };
        self.zoom = new_zoom;
    }

    /// The screen position to zoom about: the given center, or the viewport
    /// center when none was given.
    pub open spec fn chosen_center_spec(center: Option<Pos2>, viewport_center: Pos2) -> Pos2 {
        match center {
            Some(c) => c,
            None => viewport_center,
        }
    }

    /// Zoom in by one step, centered on the given screen position.
    pub fn zoom_in(&mut self, center: Option<Pos2>, viewport_center: Pos2)
        requires
            old(self).wf(),
            coord_in_range(viewport_center.x),
            coord_in_range(viewport_center.y),
            center matches Some(c) ==> coord_in_range(c.x) && coord_in_range(c.y),
        ensures
            *final(self) == Self::zoom_around_spec(
                *old(self),
                ZOOM_STEP as int,
                Self::chosen_center_spec(center, viewport_center),
                viewport_center,
            ),
            final(self).wf(),
            MIN_ZOOM <= final(self).zoom <= MAX_ZOOM,
    {
        let c = match center {
            Some(c) => c,
            None => viewport_center,
        };
        self.zoom_around_point(ZOOM_STEP, c, viewport_center);
    }

    /// Zoom out by one step, centered on the given screen position.
    pub fn zoom_out(&mut self, center: Option<Pos2>, viewport_center: Pos2)
        requires
            old(self).wf(),
            coord_in_range(viewport_center.x),
            coord_in_range(viewport_center.y),
            center matches Some(c) ==> coord_in_range(c.x) && coord_in_range(c.y),
        ensures
            *final(self) == Self::zoom_around_spec(
                *old(self),
                ZOOM_STEP_INV as int,
                Self::chosen_center_spec(center, viewport_center),
                viewport_center,
            ),
            final(self).wf(),
            MIN_ZOOM <= final(self).zoom <= MAX_ZOOM,
    {
        let c = match center {
            Some(c) => c,
            None => viewport_center,
        };
        self.zoom_around_point(ZOOM_STEP_INV, c, viewport_center);
    }
}

impl ViewTransform {
    /// The pan offset along one axis that places image position `ipos`
    /// (milli image coordinates, over an image extent of `isize`) at the
    /// viewport center, at zoom `zoom` over a base extent of `base`.
    pub open spec fn center_pan_spec(ipos: int, isize: int, vp: int, base: int, zoom: int) -> int {
        let zoomed = base * zoom / (SCALE as int);
        vp / 2 - (ipos * (FRAC as int) / isize) * zoomed / (FRAC as int) - (vp - zoomed) / 2
    }

    /// Set the pan offset so that `image_pos` appears at the viewport
    /// center, at the current zoom. Positions and sizes are in milli-units.
    /// Image space is bottom-up, so the vertical axis uses the flipped
    /// relative position `image_size.y - image_pos.y`: the displayed rect
    /// puts row 0 at its bottom edge. Only the size of `base_image_rect`
    /// takes part.
    pub fn center_on_image_point(
        &mut self,
        image_pos: Pos2,
        image_size: Vec2,
        viewport_size: Vec2,
        base_image_rect: Rect,
    )
        requires
            old(self).wf(),
            1 <= image_size.x <= COORD_LIMIT,
            1 <= image_size.y <= COORD_LIMIT,
            0 <= image_pos.x <= image_size.x,
            0 <= image_pos.y <= image_size.y,
            0 <= viewport_size.x <= COORD_LIMIT,
            0 <= viewport_size.y <= COORD_LIMIT,
            0 <= base_image_rect.size.x <= COORD_LIMIT,
            0 <= base_image_rect.size.y <= COORD_LIMIT,
        ensures
            final(self).pan_offset.x == Self::center_pan_spec(
                image_pos.x as int,
                image_size.x as int,
                viewport_size.x as int,
                base_image_rect.size.x as int,
                old(self).zoom as int,
            ),
            final(self).pan_offset.y == Self::center_pan_spec(
                image_size.y - image_pos.y,
                image_size.y as int,
                viewport_size.y as int,
                base_image_rect.size.y as int,
                old(self).zoom as int,
            ),
            final(self).zoom == old(self).zoom,
            final(self).rotation_mdeg == old(self).rotation_mdeg,
            final(self).pivot_point == old(self).pivot_point,
            final(self).show_pivot_marker == old(self).show_pivot_marker,
            final(self).wf(),
    {
        let px = self.center_pan_axis(
            image_pos.x,
            image_size.x,
            viewport_size.x,
            base_image_rect.size.x,
        );
        let py = self.center_pan_axis(
            image_size.y - image_pos.y,
            image_size.y,
            viewport_size.y,
            base_image_rect.size.y,
        );
        self.pan_offset = Vec2 { x: px, y: py };
    }

    /// One axis of `center_on_image_point`.
    fn center_pan_axis(&self, ipos: i64, isize: i64, vp: i64, base: i64) -> (r: i64)
        requires
            self.wf(),
            1 <= isize <= COORD_LIMIT,
            0 <= ipos <= isize,
            0 <= vp <= COORD_LIMIT,
            0 <= base <= COORD_LIMIT,
        ensures
            r == Self::center_pan_spec(
                ipos as int,
                isize as int,
                vp as int,
                base as int,
                self.zoom as int,
            ),
            -PAN_LIMIT <= r <= PAN_LIMIT,
    {
        proof {
            crate::fixed::lemma_unit_frac(ipos as int, isize as int);
            lemma_zoom_product_bounds(base as int, self.zoom as int);
        }
        let rel = div_floor(ipos * FRAC, isize);
        let zoomed = div_floor(base * self.zoom, SCALE);
        proof {
            lemma_unit_rel_times(rel as int, zoomed as int);
        }
        let img_screen = div_floor_wide((rel as i128) * (zoomed as i128), FRAC as i128);
        let vc = div_floor(vp, 2);
        let zco = div_floor(vp - zoomed, 2);
        vc - (img_screen as i64) - zco
    }

    /// The pan offset along one axis after the soft visibility clamp: at
    /// least a tenth of the zoomed image must stay inside the viewport.
    pub open spec fn clamped_pan_spec(pan: int, vp: int, z: int) -> int {
        clamp_spec(pan, z / 10 - vp, z - z / 10)
    }

    /// Clamp the pan offset so that at least a tenth of the zoomed image
    /// remains within the viewport on each axis.
    pub fn clamp_pan_offset(&mut self, viewport_size: Vec2, zoomed_image_size: Vec2)
        requires
            old(self).wf(),
            0 <= viewport_size.x <= COORD_LIMIT,
            0 <= viewport_size.y <= COORD_LIMIT,
            0 <= zoomed_image_size.x <= 50 * COORD_LIMIT,
            0 <= zoomed_image_size.y <= 50 * COORD_LIMIT,
        ensures
            final(self).pan_offset.x == Self::clamped_pan_spec(
                old(self).pan_offset.x as int,
                viewport_size.x as int,
                zoomed_image_size.x as int,
            ),
            final(self).pan_offset.y == Self::clamped_pan_spec(
                old(self).pan_offset.y as int,
                viewport_size.y as int,
                zoomed_image_size.y as int,
            ),
            final(self).zoom == old(self).zoom,
            final(self).rotation_mdeg == old(self).rotation_mdeg,
            final(self).pivot_point == old(self).pivot_point,
            final(self).show_pivot_marker == old(self).show_pivot_marker,
            final(self).wf(),
    {
        let px = Self::clamp_pan_axis(self.pan_offset.x, viewport_size.x, zoomed_image_size.x);
        let py = Self::clamp_pan_axis(self.pan_offset.y, viewport_size.y, zoomed_image_size.y);
        self.pan_offset = Vec2 { x: px, y: py };
    }

    /// One axis of `clamp_pan_offset`.
    fn clamp_pan_axis(pan: i64, vp: i64, z: i64) -> (r: i64)
        requires
            -PAN_LIMIT <= pan <= PAN_LIMIT,
            0 <= vp <= COORD_LIMIT,
            0 <= z <= 50 * COORD_LIMIT,
        ensures
            r == Self::clamped_pan_spec(pan as int, vp as int, z as int),
            -PAN_LIMIT <= r <= PAN_LIMIT,
    {
        let min_visible = div_floor(z, 10);
        proof {
            vstd::arithmetic::div_mod::lemma_div_pos_is_pos(z as int, 10);
            vstd::arithmetic::div_mod::lemma_fundamental_div_mod(z as int, 10);
            vstd::arithmetic::div_mod::lemma_mod_division_less_than_divisor(z as int, 10);
        }
        let max_pan = z - min_visible;
        let min_pan = min_visible - vp;
        clamp_i64(pan, min_pan, max_pan)
    }
}

impl ViewTransform {
    /// A point rotated counter-clockwise about a center by an angle in
    /// millidegrees, in fixed point.
    pub open spec fn rotate_point_spec(p: Pos2, c: Pos2, a: int) -> Pos2 {
        Pos2 {
            x: (c.x + ((p.x - c.x) * cos_mdeg_spec(a) - (p.y - c.y) * sin_mdeg_spec(a)) / (
            SCALE as int)) as i64,
            y: (c.y + ((p.x - c.x) * sin_mdeg_spec(a) + (p.y - c.y) * cos_mdeg_spec(a)) / (
            SCALE as int)) as i64,
        }
    }

    /// Rotate a point counter-clockwise about a center, in millidegrees.
    fn rotate_point(point: Pos2, center: Pos2, angle_mdeg: i64) -> (r: Pos2)
        requires
            -1100 * COORD_LIMIT <= point.x <= 1100 * COORD_LIMIT,
            -1100 * COORD_LIMIT <= point.y <= 1100 * COORD_LIMIT,
            -1100 * COORD_LIMIT <= center.x <= 1100 * COORD_LIMIT,
            -1100 * COORD_LIMIT <= center.y <= 1100 * COORD_LIMIT,
            -HALF_TURN_MDEG <= angle_mdeg <= HALF_TURN_MDEG,
        ensures
            r == Self::rotate_point_spec(point, center, angle_mdeg as int),
            -6000 * COORD_LIMIT <= r.x <= 6000 * COORD_LIMIT,
            -6000 * COORD_LIMIT <= r.y <= 6000 * COORD_LIMIT,
    {
        let cos_a = cos_mdeg(angle_mdeg);
        let sin_a = sin_mdeg(angle_mdeg);
        let dx = point.x - center.x;
        let dy = point.y - center.y;
        proof {
            lemma_rotation_term_bounds(dx as int, dy as int, cos_a as int, sin_a as int);
        }
        let rx = center.x + div_floor(dx * cos_a - dy * sin_a, SCALE);
        let ry = center.y + div_floor(dx * sin_a + dy * cos_a, SCALE);
        Pos2 { x: rx, y: ry }
    }

    /// Inverse rotation: rotate by the negated angle.
    fn unrotate_point(point: Pos2, center: Pos2, angle_mdeg: i64) -> (r: Pos2)
        requires
            -1100 * COORD_LIMIT <= point.x <= 1100 * COORD_LIMIT,
            -1100 * COORD_LIMIT <= point.y <= 1100 * COORD_LIMIT,
            -1100 * COORD_LIMIT <= center.x <= 1100 * COORD_LIMIT,
            -1100 * COORD_LIMIT <= center.y <= 1100 * COORD_LIMIT,
            -HALF_TURN_MDEG <= angle_mdeg <= HALF_TURN_MDEG,
        ensures
            r == Self::rotate_point_spec(point, center, -(angle_mdeg as int)),
            -6000 * COORD_LIMIT <= r.x <= 6000 * COORD_LIMIT,
            -6000 * COORD_LIMIT <= r.y <= 6000 * COORD_LIMIT,
    {
        Self::rotate_point(point, center, -angle_mdeg)
    }

    /// What `screen_to_image_rotated` returns. The screen position is first
    /// rotated back about the pivot's screen position, then converted as in
    /// `screen_to_image`; no bounds are pre-checked against the unrotated
    /// rect, since rotation changes which screen region maps onto the image.
    pub open spec fn screen_to_image_rotated_spec(self, p: Pos2, rect: Rect, w: u32, h: u32)
        -> Option<(u32, u32)> {
        let piv = self.pivot_to_screen_spec(rect, w, h);
        let un = Self::rotate_point_spec(p, piv, -self.rotation_mdeg as int);
        let rx = (un.x - rect.min.x) * (FRAC as int) / (rect.size.x as int);
        let ry = FRAC - (un.y - rect.min.y) * (FRAC as int) / (rect.size.y as int);
        if 0 <= rx < FRAC && 0 <= ry < FRAC {
            Some(((rx * w / (FRAC as int)) as u32, (ry * h / (FRAC as int)) as u32))
        } else {
            None
        }
    }

    /// Convert a screen position to image pixel coordinates, accounting for
    /// the current rotation about the pivot.
    pub fn screen_to_image_rotated(
        &self,
        screen_pos: Pos2,
        image_rect: Rect,
        image_size: (u32, u32),
    ) -> (r: Option<(u32, u32)>)
        requires
            self.wf(),
            image_rect.wf(),
            coord_in_range(screen_pos.x),
            coord_in_range(screen_pos.y),
            1 <= image_size.0 <= crate::fixed::MAX_IMAGE_DIM,
            1 <= image_size.1 <= crate::fixed::MAX_IMAGE_DIM,
            -1000 * SCALE * (image_size.0 as int) <= self.pivot_point.0 <= 1000 * SCALE * (
            image_size.0 as int),
            -1000 * SCALE * (image_size.1 as int) <= self.pivot_point.1 <= 1000 * SCALE * (
            image_size.1 as int),
        ensures
            r == self.screen_to_image_rotated_spec(
                screen_pos,
                image_rect,
                image_size.0,
                image_size.1,
            ),
            r matches Some(q) ==> q.0 < image_size.0 && q.1 < image_size.1,
    {
        let pivot_screen = self.pivot_to_screen(image_rect, image_size);
        let un = Self::unrotate_point(screen_pos, pivot_screen, self.rotation_mdeg);
        proof {
            assert((un.x - image_rect.min.x) * (FRAC as int) <= 6001 * COORD_LIMIT * (FRAC as int)
                && (un.x - image_rect.min.x) * (FRAC as int) >= -6001 * COORD_LIMIT * (
            FRAC as int) && (un.y - image_rect.min.y) * (FRAC as int) <= 6001 * COORD_LIMIT * (
            FRAC as int) && (un.y - image_rect.min.y) * (FRAC as int) >= -6001 * COORD_LIMIT * (
            FRAC as int)) by (nonlinear_arith)
                requires
                    -6001 * COORD_LIMIT <= un.x - image_rect.min.x <= 6001 * COORD_LIMIT && -6001
                        * COORD_LIMIT <= un.y - image_rect.min.y <= 6001 * COORD_LIMIT,
            ;
        }
        let rel_x_wide = div_floor_wide(
            ((un.x - image_rect.min.x) as i128) * (FRAC as i128),
            image_rect.size.x as i128,
        );
        let rel_y_up = div_floor_wide(
            ((un.y - image_rect.min.y) as i128) * (FRAC as i128),
            image_rect.size.y as i128,
        );
        if rel_x_wide < 0 || rel_x_wide >= (FRAC as i128) || rel_y_up <= 0 || rel_y_up > (
        FRAC as i128) {
            return None;
        }
        let rel_x = rel_x_wide as i64;
        let rel_y = FRAC - (rel_y_up as i64);
        proof {
            lemma_pixel_from_unit_rel(rel_x as int, image_size.0 as int);
            lemma_pixel_from_unit_rel(rel_y as int, image_size.1 as int);
        }
        let img_x = div_floor(rel_x * (image_size.0 as i64), FRAC);
        let img_y = div_floor(rel_y * (image_size.1 as i64), FRAC);
        Some((img_x as u32, img_y as u32))
    }

    /// What `image_to_screen_rotated` returns: the unrotated screen position
    /// of the pixel center, rotated about the pivot's screen position.
    pub open spec fn image_to_screen_rotated_spec(self, i: (u32, u32), rect: Rect, w: u32, h: u32)
        -> Pos2 {
        Self::rotate_point_spec(
            Self::image_to_screen_spec(i, rect, w, h),
            self.pivot_to_screen_spec(rect, w, h),
            self.rotation_mdeg as int,
        )
    }

    /// Convert image pixel coordinates to a screen position, accounting for
    /// the current rotation about the pivot.
    pub fn image_to_screen_rotated(
        &self,
        image_pos: (u32, u32),
        image_rect: Rect,
        image_size: (u32, u32),
    ) -> (r: Pos2)
        requires
            self.wf(),
            image_rect.wf(),
            1 <= image_size.0 <= crate::fixed::MAX_IMAGE_DIM,
            1 <= image_size.1 <= crate::fixed::MAX_IMAGE_DIM,
            image_pos.0 < image_size.0,
            image_pos.1 < image_size.1,
            -1000 * SCALE * (image_size.0 as int) <= self.pivot_point.0 <= 1000 * SCALE * (
            image_size.0 as int),
            -1000 * SCALE * (image_size.1 as int) <= self.pivot_point.1 <= 1000 * SCALE * (
            image_size.1 as int),
        ensures
            r == self.image_to_screen_rotated_spec(
                image_pos,
                image_rect,
                image_size.0,
                image_size.1,
            ),
    {
        let unrotated = self.image_to_screen(image_pos, image_rect, image_size);
        let pivot_screen = self.pivot_to_screen(image_rect, image_size);
        Self::rotate_point(unrotated, pivot_screen, self.rotation_mdeg)
    }

    /// What `calculate_rotated_corners` returns: the four corners of the
    /// unrotated rect, rotated about the pivot's screen position, in the
    /// order top-left, top-right, bottom-right, bottom-left.
    pub open spec fn rotated_corner_spec(self, rect: Rect, w: u32, h: u32, which: int) -> Pos2 {
        let piv = self.pivot_to_screen_spec(rect, w, h);
        let corner = if which == 0 {
            Pos2 { x: rect.min.x, y: rect.min.y }
        } else if which == 1 {
            Pos2 { x: (rect.min.x + rect.size.x) as i64, y: rect.min.y }
        } else if which == 2 {
            Pos2 { x: (rect.min.x + rect.size.x) as i64, y: (rect.min.y + rect.size.y) as i64 }
        } else {
            Pos2 { x: rect.min.x, y: (rect.min.y + rect.size.y) as i64 }
        };
        Self::rotate_point_spec(corner, piv, self.rotation_mdeg as int)
    }

    /// Calculate the four corners of the rotated image in screen
    /// coordinates, in the order top-left, top-right, bottom-right,
    /// bottom-left; used for quad-based rendering when rotation is active.
    pub fn calculate_rotated_corners(&self, image_rect: Rect, image_size: (u32, u32)) -> (r: Vec<
        Pos2,
    >)
        requires
            self.wf(),
            image_rect.wf(),
            1 <= image_size.0 <= crate::fixed::MAX_IMAGE_DIM,
            1 <= image_size.1 <= crate::fixed::MAX_IMAGE_DIM,
            -1000 * SCALE * (image_size.0 as int) <= self.pivot_point.0 <= 1000 * SCALE * (
            image_size.0 as int),
            -1000 * SCALE * (image_size.1 as int) <= self.pivot_point.1 <= 1000 * SCALE * (
            image_size.1 as int),
        ensures
            r@.len() == 4,
            forall|i: int|
                0 <= i < 4 ==> r@[i] == self.rotated_corner_spec(
                    image_rect,
                    image_size.0,
                    image_size.1,
                    i,
                ),
    {
        let pivot_screen = self.pivot_to_screen(image_rect, image_size);
        let tl = Pos2 { x: image_rect.min.x, y: image_rect.min.y };
        let tr = Pos2 { x: image_rect.min.x + image_rect.size.x, y: image_rect.min.y };
        let br = Pos2 {
            x: image_rect.min.x + image_rect.size.x,
            y: image_rect.min.y + image_rect.size.y,
        };
        let bl = Pos2 { x: image_rect.min.x, y: image_rect.min.y + image_rect.size.y };
        let mut corners: Vec<Pos2> = Vec::new();
        corners.push(Self::rotate_point(tl, pivot_screen, self.rotation_mdeg));
        corners.push(Self::rotate_point(tr, pivot_screen, self.rotation_mdeg));
        corners.push(Self::rotate_point(br, pivot_screen, self.rotation_mdeg));
        corners.push(Self::rotate_point(bl, pivot_screen, self.rotation_mdeg));
        corners
    }
}

/// The rotation products stay inside `i64` and the rotated offset within
/// 4500 coordinate limits.
proof fn lemma_rotation_term_bounds(dx: int, dy: int, c: int, sn: int)
    requires
        -2200 * COORD_LIMIT <= dx <= 2200 * COORD_LIMIT,
        -2200 * COORD_LIMIT <= dy <= 2200 * COORD_LIMIT,
        -1000 <= c <= 1000,
        -1000 <= sn <= 1000,
    ensures
        -2_200_000 * COORD_LIMIT <= dx * c <= 2_200_000 * COORD_LIMIT,
        -2_200_000 * COORD_LIMIT <= dy * sn <= 2_200_000 * COORD_LIMIT,
        -2_200_000 * COORD_LIMIT <= dx * sn <= 2_200_000 * COORD_LIMIT,
        -2_200_000 * COORD_LIMIT <= dy * c <= 2_200_000 * COORD_LIMIT,
        -4500 * COORD_LIMIT <= (dx * c - dy * sn) / (SCALE as int) <= 4500 * COORD_LIMIT,
        -4500 * COORD_LIMIT <= (dx * sn + dy * c) / (SCALE as int) <= 4500 * COORD_LIMIT,
{
    assert(-2_200_000 * COORD_LIMIT <= dx * c <= 2_200_000 * COORD_LIMIT && -2_200_000
        * COORD_LIMIT <= dy * sn <= 2_200_000 * COORD_LIMIT && -2_200_000 * COORD_LIMIT <= dx
        * sn <= 2_200_000 * COORD_LIMIT && -2_200_000 * COORD_LIMIT <= dy * c <= 2_200_000
        * COORD_LIMIT) by (nonlinear_arith)
        requires
            -2200 * COORD_LIMIT <= dx <= 2200 * COORD_LIMIT && -2200 * COORD_LIMIT <= dy <= 2200
                * COORD_LIMIT && -1000 <= c <= 1000 && -1000 <= sn <= 1000,
    ;
    lemma_div_range_by_scale(dx * c - dy * sn);
    lemma_div_range_by_scale(dx * sn + dy * c);
}

/// A quantity within 4.4 million coordinate limits divided by the milli
/// scale stays within 4500 coordinate limits.
proof fn lemma_div_range_by_scale(v: int)
    requires
        -4_400_000 * COORD_LIMIT <= v <= 4_400_000 * COORD_LIMIT,
    ensures
        -4500 * COORD_LIMIT <= v / (SCALE as int) <= 4500 * COORD_LIMIT,
{
    vstd::arithmetic::div_mod::lemma_div_is_ordered(
        -4_500_000 * COORD_LIMIT,
        v,
        SCALE as int,
    );
    vstd::arithmetic::div_mod::lemma_div_is_ordered(v, 4_500_000 * COORD_LIMIT, SCALE as int);
    vstd::arithmetic::div_mod::lemma_div_multiples_vanish(-4500 * COORD_LIMIT, SCALE as int);
    vstd::arithmetic::div_mod::lemma_div_multiples_vanish(4500 * COORD_LIMIT, SCALE as int);
}

/// A relative position already inside the unit range floors into a valid
/// pixel index.
proof fn lemma_pixel_from_unit_rel(rel: int, dim: int)
    requires
        0 <= rel < FRAC,
        1 <= dim <= crate::fixed::MAX_IMAGE_DIM,
    ensures
        0 <= rel * dim / (FRAC as int) < dim,
        0 <= rel * dim <= (FRAC as int) * crate::fixed::MAX_IMAGE_DIM,
{
    vstd::arithmetic::mul::lemma_mul_nonnegative(rel, dim);
    vstd::arithmetic::div_mod::lemma_div_pos_is_pos(rel * dim, FRAC as int);
    vstd::arithmetic::mul::lemma_mul_strict_inequality(rel, FRAC as int, dim);
    vstd::arithmetic::div_mod::lemma_multiply_divide_lt(rel * dim, FRAC as int, dim);
    vstd::arithmetic::mul::lemma_mul_upper_bound(
        rel,
        FRAC as int,
        dim,
        crate::fixed::MAX_IMAGE_DIM as int,
    );
}

/// Scaling a zoomed extent by a unit-range fraction stays within the extent.
proof fn lemma_unit_rel_times(rel: int, v: int)
    requires
        0 <= rel <= FRAC,
        0 <= v <= 50 * COORD_LIMIT,
    ensures
        0 <= rel * v <= (FRAC as int) * 50 * COORD_LIMIT,
        0 <= rel * v / (FRAC as int) <= v,
{
    vstd::arithmetic::mul::lemma_mul_nonnegative(rel, v);
    vstd::arithmetic::div_mod::lemma_div_pos_is_pos(rel * v, FRAC as int);
    vstd::arithmetic::mul::lemma_mul_upper_bound(rel, FRAC as int, v, 50 * COORD_LIMIT);
    vstd::arithmetic::mul::lemma_mul_inequality(rel, FRAC as int, v);
    vstd::arithmetic::div_mod::lemma_multiply_divide_le(rel * v, FRAC as int, v);
}

/// The content under the cursor is preserved by `zoom_around_point`.
///
/// With `d` the cursor offset from the viewport center, the base-display
/// coordinate of the content under the cursor is `(d - pan) / zoom` (in
/// fit-to-view units); the lemma states, in cross-multiplied form, that the
/// pan update leaves `(d - pan) / zoom` unchanged up to the one rounding
/// step of the integer division: the difference of the two rational
/// coordinates is less than `1 / zoom_new`, at most a hundredth of a display
/// pixel. This holds for every `delta`, not only the canned step
/// multipliers, as long as the soft pan clamp does not engage.
pub proof fn lemma_zoom_around_point_preserves_cursor(
    t: ViewTransform,
    delta: int,
    pos: Pos2,
    vc: Pos2,
)
    requires
        t.wf(),
        !(delta == SCALE || ViewTransform::zoomed_spec(t.zoom as int, delta) == t.zoom),
        -PAN_LIMIT <= ViewTransform::pan_component_spec(
            pos.x - vc.x,
            t.pan_offset.x as int,
            t.zoom as int,
            ViewTransform::zoomed_spec(t.zoom as int, delta),
        ) <= PAN_LIMIT,
        -PAN_LIMIT <= ViewTransform::pan_component_spec(
            pos.y - vc.y,
            t.pan_offset.y as int,
            t.zoom as int,
            ViewTransform::zoomed_spec(t.zoom as int, delta),
        ) <= PAN_LIMIT,
    ensures
        ({
            let t2 = ViewTransform::zoom_around_spec(t, delta, pos, vc);
            0 <= (pos.x - vc.x - t2.pan_offset.x) * t.zoom - (pos.x - vc.x - t.pan_offset.x)
                * t2.zoom < t.zoom && 0 <= (pos.y - vc.y - t2.pan_offset.y) * t.zoom - (pos.y
                - vc.y - t.pan_offset.y) * t2.zoom < t.zoom
        }),
{
    let zn = ViewTransform::zoomed_spec(t.zoom as int, delta);
    lemma_pan_update_rounding(pos.x - vc.x, t.pan_offset.x as int, t.zoom as int, zn);
    lemma_pan_update_rounding(pos.y - vc.y, t.pan_offset.y as int, t.zoom as int, zn);
}

/// The cursor preservation without side conditions, for in-range states:
/// when the pan offset and the cursor's offset from the viewport center are
/// within the coordinate limit, the soft pan clamp cannot engage, and every
/// zoom that changes the level preserves the content under the cursor.
pub proof fn lemma_zoom_around_point_preserves_cursor_in_range(
    t: ViewTransform,
    delta: int,
    pos: Pos2,
    vc: Pos2,
)
    requires
        t.wf(),
        -COORD_LIMIT <= pos.x - vc.x <= COORD_LIMIT,
        -COORD_LIMIT <= pos.y - vc.y <= COORD_LIMIT,
        -COORD_LIMIT <= t.pan_offset.x <= COORD_LIMIT,
        -COORD_LIMIT <= t.pan_offset.y <= COORD_LIMIT,
        !(delta == SCALE || ViewTransform::zoomed_spec(t.zoom as int, delta) == t.zoom),
    ensures
        ({
            let t2 = ViewTransform::zoom_around_spec(t, delta, pos, vc);
            0 <= (pos.x - vc.x - t2.pan_offset.x) * t.zoom - (pos.x - vc.x - t.pan_offset.x)
                * t2.zoom < t.zoom && 0 <= (pos.y - vc.y - t2.pan_offset.y) * t.zoom - (pos.y
                - vc.y - t.pan_offset.y) * t2.zoom < t.zoom
        }),
{
    let zn = ViewTransform::zoomed_spec(t.zoom as int, delta);
    lemma_pan_component_in_limit(pos.x - vc.x, t.pan_offset.x as int, t.zoom as int, zn);
    lemma_pan_component_in_limit(pos.y - vc.y, t.pan_offset.y as int, t.zoom as int, zn);
    lemma_zoom_around_point_preserves_cursor(t, delta, pos, vc);
}

/// For an in-range cursor offset and pan offset, the updated pan stays
/// strictly inside the representable pan range, so the soft clamp is the
/// identity.
proof fn lemma_pan_component_in_limit(d: int, pan: int, zo: int, zn: int)
    requires
        -COORD_LIMIT <= d <= COORD_LIMIT,
        -COORD_LIMIT <= pan <= COORD_LIMIT,
        MIN_ZOOM <= zo <= MAX_ZOOM,
        MIN_ZOOM <= zn <= MAX_ZOOM,
    ensures
        -PAN_LIMIT <= ViewTransform::pan_component_spec(d, pan, zo, zn) <= PAN_LIMIT,
{
    let num = d * (zo - zn) + pan * zn;
    assert(-99_900 * COORD_LIMIT <= num <= 99_900 * COORD_LIMIT) by (nonlinear_arith)
        requires
            num == d * (zo - zn) + pan * zn && -COORD_LIMIT <= d <= COORD_LIMIT && -COORD_LIMIT
                <= pan <= COORD_LIMIT && -49_900 <= zo - zn <= 49_900 && 0 <= zn <= 50_000,
    ;
    assert(zo * (999 * COORD_LIMIT) >= 99_900 * COORD_LIMIT) by (nonlinear_arith)
        requires
            zo >= 100,
    ;
    assert(zo * (-999 * COORD_LIMIT) <= -99_900 * COORD_LIMIT) by (nonlinear_arith)
        requires
            zo >= 100,
    ;
    vstd::arithmetic::div_mod::lemma_div_is_ordered(zo * (-999 * COORD_LIMIT), num, zo);
    vstd::arithmetic::div_mod::lemma_div_is_ordered(num, zo * (999 * COORD_LIMIT), zo);
    vstd::arithmetic::div_mod::lemma_div_multiples_vanish(-999 * COORD_LIMIT, zo);
    vstd::arithmetic::div_mod::lemma_div_multiples_vanish(999 * COORD_LIMIT, zo);
}

/// One axis of the cursor-preservation argument: the exact rational pan
/// update satisfies `(d - pan') / zn == (d - pan) / zo`, so the floored
/// update misses it by less than one pan unit, which cross-multiplies to the
/// stated bound.
proof fn lemma_pan_update_rounding(d: int, pan: int, zo: int, zn: int)
    requires
        1 <= zo,
    ensures
        0 <= (d - ViewTransform::pan_component_spec(d, pan, zo, zn)) * zo - (d - pan) * zn < zo,
{
    let num = d * (zo - zn) + pan * zn;
    let q = num / zo;
    let r = num % zo;
    vstd::arithmetic::div_mod::lemma_fundamental_div_mod(num, zo);
    vstd::arithmetic::div_mod::lemma_mod_division_less_than_divisor(num, zo);
    assert((d - q) * zo - (d - pan) * zn == r) by (nonlinear_arith)
        requires
            num == d * (zo - zn) + pan * zn && num == zo * q + r,
    ;
}

/// Setting the pivot from a click and mapping it back to the screen lands
/// within one image pixel of the click.
///
/// For a 200 by 200 display pixel rect showing a 100 by 100 pixel image, any
/// click inside the rect, converted by the pivot (unrotated) conversion,
/// stored as the pivot point, and mapped back by `pivot_to_screen`, gives a
/// marker within one image pixel's screen extent (2 display pixels) of the
/// click, whatever the rect origin, the transform's pan, zoom and rotation.
pub proof fn lemma_pivot_round_trip(t: ViewTransform, rect: Rect, click: Pos2)
    requires
        t.wf(),
        rect.wf(),
        rect.size.x == 200_000,
        rect.size.y == 200_000,
        coord_in_range(click.x),
        coord_in_range(click.y),
        rect.contains_spec(click),
    ensures
        ({
            let ix = ViewTransform::pixel_from_rel(ViewTransform::rel_frac_x(click, rect), 100);
            let iy = ViewTransform::pixel_from_rel(ViewTransform::rel_frac_y(click, rect), 100);
            let marked = ViewTransform {
                pivot_point: ((1000 * ix) as i64, (1000 * iy) as i64),
                ..t
            };
            let marker = marked.pivot_to_screen_spec(rect, 100, 100);
            ViewTransform::screen_to_image_spec(click, rect, 100, 100) == Some(
                (ix as u32, iy as u32),
            ) && abs_spec(marker.x - click.x) < 2000 && abs_spec(marker.y - click.y) < 2000
        }),
{
    let ix = ViewTransform::pixel_from_rel(ViewTransform::rel_frac_x(click, rect), 100);
    let iy = ViewTransform::pixel_from_rel(ViewTransform::rel_frac_y(click, rect), 100);
    lemma_pivot_axis_round_trip(click.x - rect.min.x);
    lemma_pivot_axis_round_trip((rect.min.y + rect.size.y) - click.y);
    assert(ViewTransform::rel_frac_y(click, rect) == ((rect.min.y + rect.size.y) - click.y) * (
    FRAC as int) / 200_000) by {
        lemma_flipped_rel(click.y - rect.min.y);
    }
    lemma_pixel_from_rel_in_bounds(
        clamp_spec(ViewTransform::rel_frac_x(click, rect), 0, FRAC - 1),
        100,
    );
    lemma_pixel_from_rel_in_bounds(
        clamp_spec(ViewTransform::rel_frac_y(click, rect), 0, FRAC - 1),
        100,
    );
}

/// The vertical flip turns the offset from the rect top into the offset
/// from the rect bottom, exactly, for this rect extent.
proof fn lemma_flipped_rel(c: int)
    requires
        0 <= c <= 200_000,
    ensures
        (FRAC as int) - c * (FRAC as int) / 200_000 == (200_000 - c) * (FRAC as int) / 200_000,
{
    lemma_times_five(c);
    lemma_times_five(200_000 - c);
}

/// For this rect extent the relative fraction is exact: `c * FRAC / 200_000
/// == 5 * c`.
proof fn lemma_times_five(c: int)
    requires
        0 <= c <= 200_000,
    ensures
        c * (FRAC as int) / 200_000 == 5 * c,
{
    assert(c * (FRAC as int) == 200_000 * (5 * c)) by (nonlinear_arith);
    vstd::arithmetic::div_mod::lemma_div_multiples_vanish(5 * c, 200_000);
}

/// One axis of the pivot round trip, over the click offset `c` from the low
/// edge of the rect: flooring the click into one of the hundred pixels and
/// mapping the pixel center back moves the position by less than one image
/// pixel (2000 milli-pixels).
proof fn lemma_pivot_axis_round_trip(c: int)
    requires
        0 <= c <= 200_000,
    ensures
        ({
            let i = ViewTransform::pixel_from_rel(c * (FRAC as int) / 200_000, 100);
            let rel_back = ViewTransform::pivot_rel_spec(1000 * i, 100);
            let off_back = rel_back * 200_000 / (FRAC as int);
            0 <= i < 100 && rel_back == 10_000 * i + 5000 && off_back == 2000 * i + 1000
                && abs_spec(off_back - c) < 2000
        }),
{
    lemma_times_five(c);
    let clamped = clamp_spec(5 * c, 0, FRAC - 1);
    let i = clamped * 100 / (FRAC as int);
    assert(0 <= clamped <= FRAC - 1);
    assert(i == clamped / 10_000) by {
        assert(clamped * 100 == 100 * clamped) by (nonlinear_arith);
        vstd::arithmetic::div_mod::lemma_div_multiples_vanish(clamped, 100);
        vstd::arithmetic::div_mod::lemma_div_denominator(clamped * 100, 100, 10_000);
    }
    assert(0 <= i < 100) by {
        vstd::arithmetic::div_mod::lemma_div_pos_is_pos(clamped, 10_000);
        vstd::arithmetic::div_mod::lemma_div_is_ordered(clamped, 999_999, 10_000);
        vstd::arithmetic::div_mod::lemma_fundamental_div_mod_converse_div(999_999, 10_000, 99, 9_999);
    }
    let rel_back = ViewTransform::pivot_rel_spec(1000 * i, 100);
    assert(rel_back == 10_000 * i + 5000) by {
        assert((1000 * i + 500) * (FRAC as int) == 100_000 * (10_000 * i + 5000))
            by (nonlinear_arith);
        vstd::arithmetic::div_mod::lemma_div_multiples_vanish(10_000 * i + 5000, 100_000);
    }
    let off_back = rel_back * 200_000 / (FRAC as int);
    assert(off_back == 2000 * i + 1000) by {
        assert((10_000 * i + 5000) * 200_000 == (FRAC as int) * (2000 * i + 1000))
            by (nonlinear_arith);
        vstd::arithmetic::div_mod::lemma_div_multiples_vanish(2000 * i + 1000, FRAC as int);
    }
    if 5 * c <= FRAC - 1 {
        assert(clamped == 5 * c);
        assert(i == c / 2000) by {
            vstd::arithmetic::div_mod::lemma_div_denominator(5 * c, 5, 2000);
            vstd::arithmetic::div_mod::lemma_div_multiples_vanish(c, 5);
            assert(5 * c / 5 == c);
        }
        vstd::arithmetic::div_mod::lemma_fundamental_div_mod(c, 2000);
        vstd::arithmetic::div_mod::lemma_mod_division_less_than_divisor(c, 2000);
        assert(2000 * i <= c < 2000 * i + 2000);
    } else {
        assert(c == 200_000);
        assert(clamped == FRAC - 1);
        assert(i == 99) by {
            vstd::arithmetic::div_mod::lemma_fundamental_div_mod_converse_div(
                999_999,
                10_000,
                99,
                9_999,
            );
        }
    }
}

/// Rotating a point about a center and rotating back by the opposite angle
/// nearly cancels: on each axis the result lies within nine thousandths of
/// the point's offset from the center, plus three milli-pixels, of where it
/// started. The slack is the unit-norm defect of the fixed-point sine and
/// cosine (under one percent) plus one flooring step per rotation per
/// axis; the rotated conversions therefore recover a pixel whenever this
/// displacement stays small against the pixel's screen span.
pub proof fn lemma_rotate_round_trip_bound(p: Pos2, c: Pos2, a: int)
    requires
        -1100 * COORD_LIMIT <= p.x <= 1100 * COORD_LIMIT,
        -1100 * COORD_LIMIT <= p.y <= 1100 * COORD_LIMIT,
        -1100 * COORD_LIMIT <= c.x <= 1100 * COORD_LIMIT,
        -1100 * COORD_LIMIT <= c.y <= 1100 * COORD_LIMIT,
        -180_000 <= a <= 180_000,
    ensures
        ({
            let r = ViewTransform::rotate_point_spec(
                ViewTransform::rotate_point_spec(p, c, a),
                c,
                -a,
            );
            1_000_000 * abs_spec(r.x - p.x) <= 9_000 * abs_spec(p.x - c.x) + 3_000_000
                && 1_000_000 * abs_spec(r.y - p.y) <= 9_000 * abs_spec(p.y - c.y) + 3_000_000
        }),
{
    let cc = cos_mdeg_spec(a);
    let ss = sin_mdeg_spec(a);
    crate::trig::lemma_trig_negation(a);
    crate::trig::lemma_cos_mdeg_range(a);
    crate::trig::lemma_sin_mdeg_range(a);
    crate::trig::lemma_trig_norm(a);
    let nn = cc * cc + ss * ss;
    let dx = p.x - c.x;
    let dy = p.y - c.y;
    let nx = dx * cc - dy * ss;
    let ny = dx * ss + dy * cc;
    assert(-4_400_000_000_000_000_000 <= nx <= 4_400_000_000_000_000_000
        && -4_400_000_000_000_000_000 <= ny <= 4_400_000_000_000_000_000) by (nonlinear_arith)
        requires
            nx == dx * cc - dy * ss && ny == dx * ss + dy * cc && -2200 * COORD_LIMIT <= dx
                <= 2200 * COORD_LIMIT && -2200 * COORD_LIMIT <= dy <= 2200 * COORD_LIMIT
                && -1000 <= cc <= 1000 && -1000 <= ss <= 1000,
    ;
    vstd::arithmetic::div_mod::lemma_fundamental_div_mod(nx, 1000);
    vstd::arithmetic::div_mod::lemma_mod_division_less_than_divisor(nx, 1000);
    vstd::arithmetic::div_mod::lemma_fundamental_div_mod(ny, 1000);
    vstd::arithmetic::div_mod::lemma_mod_division_less_than_divisor(ny, 1000);
    let ex = nx / 1000;
    let a1 = nx % 1000;
    let ey = ny / 1000;
    let a2 = ny % 1000;
    assert(-4_400_000_000_000_000 <= ex <= 4_400_000_000_000_000 && -4_400_000_000_000_000 <= ey
        <= 4_400_000_000_000_000) by {
        vstd::arithmetic::div_mod::lemma_div_is_ordered(
            -4_400_000_000_000_000_000,
            nx,
            1000,
        );
        vstd::arithmetic::div_mod::lemma_div_is_ordered(nx, 4_400_000_000_000_000_000, 1000);
        vstd::arithmetic::div_mod::lemma_div_is_ordered(
            -4_400_000_000_000_000_000,
            ny,
            1000,
        );
        vstd::arithmetic::div_mod::lemma_div_is_ordered(ny, 4_400_000_000_000_000_000, 1000);
        vstd::arithmetic::div_mod::lemma_div_multiples_vanish(-4_400_000_000_000_000, 1000);
        vstd::arithmetic::div_mod::lemma_div_multiples_vanish(4_400_000_000_000_000, 1000);
    }
    let r1 = ViewTransform::rotate_point_spec(p, c, a);
    assert(r1.x == c.x + ex && r1.y == c.y + ey);
    let mx = ex * cc + ey * ss;
    let my = ey * cc - ex * ss;
    assert(-8_800_000_000_000_000_000 <= mx <= 8_800_000_000_000_000_000
        && -8_800_000_000_000_000_000 <= my <= 8_800_000_000_000_000_000) by (nonlinear_arith)
        requires
            mx == ex * cc + ey * ss && my == ey * cc - ex * ss && -4_400_000_000_000_000 <= ex
                <= 4_400_000_000_000_000 && -4_400_000_000_000_000 <= ey <= 4_400_000_000_000_000
                && -1000 <= cc <= 1000 && -1000 <= ss <= 1000,
    ;
    vstd::arithmetic::div_mod::lemma_fundamental_div_mod(mx, 1000);
    vstd::arithmetic::div_mod::lemma_mod_division_less_than_divisor(mx, 1000);
    vstd::arithmetic::div_mod::lemma_fundamental_div_mod(my, 1000);
    vstd::arithmetic::div_mod::lemma_mod_division_less_than_divisor(my, 1000);
    let qx = mx / 1000;
    let a3 = mx % 1000;
    let qy = my / 1000;
    let a4 = my % 1000;
    crate::fixed::lemma_div_in_range(mx, 1000, 8_800_000_000_000_000_000);
    crate::fixed::lemma_div_in_range(my, 1000, 8_800_000_000_000_000_000);
    assert(ex * cc - ey * (-ss) == mx && ex * (-ss) + ey * cc == my) by (nonlinear_arith)
        requires
            mx == ex * cc + ey * ss && my == ey * cc - ex * ss,
    ;
    let r = ViewTransform::rotate_point_spec(r1, c, -a);
    assert(r.x == c.x + qx && r.y == c.y + qy);
    assert(1_000_000 * qx == dx * nn - a1 * cc - a2 * ss - 1000 * a3) by (nonlinear_arith)
        requires
            1000 * ex == nx - a1 && 1000 * ey == ny - a2 && 1000 * qx == mx - a3 && nx == dx * cc
                - dy * ss && ny == dx * ss + dy * cc && mx == ex * cc + ey * ss && nn == cc * cc
                + ss * ss,
    ;
    assert(1_000_000 * qy == dy * nn + a1 * ss - a2 * cc - 1000 * a4) by (nonlinear_arith)
        requires
            1000 * ex == nx - a1 && 1000 * ey == ny - a2 && 1000 * qy == my - a4 && nx == dx * cc
                - dy * ss && ny == dx * ss + dy * cc && my == ey * cc - ex * ss && nn == cc * cc
                + ss * ss,
    ;
    let dxa = abs_spec(dx as int);
    let dya = abs_spec(dy as int);
    assert(-9_000 * dxa <= dx * (nn - 1_000_000) <= 9_000 * dxa && -9_000 * dya <= dy * (nn
        - 1_000_000) <= 9_000 * dya) by (nonlinear_arith)
        requires
            -dxa <= dx <= dxa && -dya <= dy <= dya && 0 <= dxa && 0 <= dya && -9_000 <= nn
                - 1_000_000 <= 9_000,
    ;
    assert(-1_000_000 <= a1 * cc <= 1_000_000 && -1_000_000 <= a2 * ss <= 1_000_000
        && -1_000_000 <= a1 * ss <= 1_000_000 && -1_000_000 <= a2 * cc <= 1_000_000)
        by (nonlinear_arith)
        requires
            0 <= a1 < 1000 && 0 <= a2 < 1000 && -1000 <= cc <= 1000 && -1000 <= ss <= 1000,
    ;
    assert(dx * nn - 1_000_000 * dx == dx * (nn - 1_000_000)) by (nonlinear_arith);
    assert(dy * nn - 1_000_000 * dy == dy * (nn - 1_000_000)) by (nonlinear_arith);
}

/// The pixel-center round trip: converting an image pixel to its screen
/// position and back recovers the same pixel, respecting the vertical
/// flip, whenever the rect spans at least four milli-pixels of screen per
/// image pixel on each axis. `image_to_screen` samples pixel centers, so
/// `screen_to_image` is its left inverse up to that resolution floor.
pub proof fn lemma_screen_image_round_trip(rect: Rect, w: u32, h: u32, x: u32, y: u32)
    requires
        rect.wf(),
        1 <= w <= crate::fixed::MAX_IMAGE_DIM,
        1 <= h <= crate::fixed::MAX_IMAGE_DIM,
        x < w,
        y < h,
        rect.size.x >= 4 * (w as int),
        rect.size.y >= 4 * (h as int),
    ensures
        rect.contains_spec(ViewTransform::image_to_screen_spec((x, y), rect, w, h)),
        ViewTransform::screen_to_image_spec(
            ViewTransform::image_to_screen_spec((x, y), rect, w, h),
            rect,
            w,
            h,
        ) == Some((x, y)),
{
    let f = FRAC as int;
    let p = ViewTransform::image_to_screen_spec((x, y), rect, w, h);
    lemma_center_round_axis(x as int, w as int, rect.size.x as int);
    lemma_center_round_axis_flipped(y as int, h as int, rect.size.y as int);
    let off_x = ViewTransform::pixel_center_rel(x as int, w as int) * rect.size.x / f;
    let off_y = (f - ViewTransform::pixel_center_rel(y as int, h as int)) * rect.size.y / f;
    assert(p.x == rect.min.x + off_x);
    assert(p.y == rect.min.y + off_y);
    assert(rect.contains_spec(p));
    assert(ViewTransform::rel_frac_x(p, rect) == off_x * f / (rect.size.x as int));
    assert(ViewTransform::rel_frac_y(p, rect) == f - off_y * f / (rect.size.y as int));
}

/// One axis of the pixel-center round trip, without the flip: the center
/// fraction of pixel `i`, scaled onto a rect extent of at least four units
/// per pixel and back, floors into pixel `i` again.
proof fn lemma_center_round_axis(i: int, dim: int, size: int)
    requires
        0 <= i < dim,
        1 <= dim <= crate::fixed::MAX_IMAGE_DIM as int,
        4 * dim <= size <= COORD_LIMIT,
    ensures
        ({
            let f = FRAC as int;
            let rel_c = ViewTransform::pixel_center_rel(i, dim);
            let off = rel_c * size / f;
            let back = off * f / size;
            0 <= off <= size && ViewTransform::pixel_from_rel(back, dim) == i
        }),
{
    let f = FRAC as int;
    let d2 = 2 * dim;
    let a = (2 * i + 1) * f;
    let (rel_c, r1) = lemma_center_rel_facts(i, dim);
    let (off, r2, back, r3) = lemma_scale_and_back(rel_c, size);
    assert(2 * (dim * back) * size <= a * size) by (nonlinear_arith)
        requires
            size * back == rel_c * size - r2 - r3 && rel_c * d2 == a - r1 && 0 <= r1 && 0 <= r2
                && 0 <= r3 && d2 == 2 * dim && size >= 1 && dim >= 1 && a >= 0,
    ;
    assert(2 * (dim * back) <= a) by (nonlinear_arith)
        requires
            2 * (dim * back) * size <= a * size && size >= 1,
    ;
    assert(dim * back < (i + 1) * f) by (nonlinear_arith)
        requires
            2 * (dim * back) <= a && a == (2 * i + 1) * f && f >= 1,
    ;
    assert(2 * (dim * rel_c) * size >= (a - d2 + 1) * size) by (nonlinear_arith)
        requires
            rel_c * d2 == a - r1 && r1 <= d2 - 1 && d2 == 2 * dim && size >= 0,
    ;
    assert(2 * dim * (r2 + r3) <= 2 * dim * (f + size - 2)) by (nonlinear_arith)
        requires
            r2 <= f - 1 && r3 <= size - 1 && dim >= 0,
    ;
    assert((a - d2 + 1) * size - 2 * dim * (f + size - 2) >= 2 * i * f * size)
        by (nonlinear_arith)
        requires
            a == (2 * i + 1) * f && d2 == 2 * dim && 4 * dim <= size && 1 <= dim <= 100_000 && f
                == 1_000_000 && i >= 0 && size <= COORD_LIMIT,
    ;
    assert(2 * (dim * back) * size >= 2 * i * f * size) by (nonlinear_arith)
        requires
            size * back == rel_c * size - r2 - r3 && 2 * (dim * rel_c) * size >= (a - d2 + 1)
                * size && 2 * dim * (r2 + r3) <= 2 * dim * (f + size - 2) && (a - d2 + 1) * size
                - 2 * dim * (f + size - 2) >= 2 * i * f * size && d2 == 2 * dim,
    ;
    assert(dim * back >= i * f) by (nonlinear_arith)
        requires
            2 * (dim * back) * size >= 2 * i * f * size && size >= 1,
    ;
    assert(back >= 0) by (nonlinear_arith)
        requires
            dim * back >= i * f && i >= 0 && f >= 0 && dim >= 1,
    ;
    assert(back <= rel_c) by (nonlinear_arith)
        requires
            size * back == rel_c * size - r2 - r3 && 0 <= r2 && 0 <= r3 && size >= 1,
    ;
    assert(clamp_spec(back, 0, f - 1) == back);
    let s = back * dim - i * f;
    assert(back * dim == dim * back) by (nonlinear_arith);
    vstd::arithmetic::div_mod::lemma_fundamental_div_mod_converse_div(back * dim, f, i, s);
}

/// One axis of the pixel-center round trip, with the vertical flip: the
/// flipped center fraction of pixel `i`, scaled onto the rect and back and
/// flipped again, floors into pixel `i`.
proof fn lemma_center_round_axis_flipped(i: int, dim: int, size: int)
    requires
        0 <= i < dim,
        1 <= dim <= crate::fixed::MAX_IMAGE_DIM as int,
        4 * dim <= size <= COORD_LIMIT,
    ensures
        ({
            let f = FRAC as int;
            let rel_c = ViewTransform::pixel_center_rel(i, dim);
            let off = (f - rel_c) * size / f;
            let back = off * f / size;
            0 <= off <= size && ViewTransform::pixel_from_rel(f - back, dim) == i
        }),
{
    let f = FRAC as int;
    let d2 = 2 * dim;
    let a = (2 * i + 1) * f;
    let (rel_c, r1) = lemma_center_rel_facts(i, dim);
    let g = f - rel_c;
    assert(g * d2 >= f) by (nonlinear_arith)
        requires
            g == f - rel_c && rel_c * d2 <= d2 * f - f && d2 >= 1,
    ;
    let (off, r2, back, r3) = lemma_scale_and_back(g, size);
    let rel_y = f - back;
    assert(size * back >= size) by (nonlinear_arith)
        requires
            size * back == g * size - r2 - r3 && r2 <= f - 1 && r3 <= size - 1 && g * d2 >= f
                && d2 == 2 * dim && 4 * dim <= size && f == 1_000_000 && 1 <= dim <= 100_000
                && g >= 0,
    ;
    assert(back >= 1) by (nonlinear_arith)
        requires
            size * back >= size && size >= 1,
    ;
    assert(back <= g) by (nonlinear_arith)
        requires
            size * back == g * size - r2 - r3 && 0 <= r2 && 0 <= r3 && size >= 1,
    ;
    assert(0 <= rel_y <= f - 1);
    assert(rel_y >= rel_c);
    assert(2 * (dim * rel_y) >= a - d2 + 1) by (nonlinear_arith)
        requires
            rel_y >= rel_c && rel_c * d2 == a - r1 && r1 <= d2 - 1 && d2 == 2 * dim && dim >= 1,
    ;
    assert(dim * rel_y >= i * f) by (nonlinear_arith)
        requires
            2 * (dim * rel_y) >= a - d2 + 1 && a == (2 * i + 1) * f && d2 == 2 * dim && f >= 2
                * dim && i >= 0,
    ;
    assert(size * rel_y <= rel_c * size + r2 + r3) by (nonlinear_arith)
        requires
            size * back == g * size - r2 - r3 && rel_y == f - back && g == f - rel_c,
    ;
    assert(2 * dim * (size * rel_y) <= a * size + 2 * dim * (f + size - 2)) by (nonlinear_arith)
        requires
            size * rel_y <= rel_c * size + r2 + r3 && rel_c * d2 == a - r1 && 0 <= r1 && r2 <= f
                - 1 && r3 <= size - 1 && d2 == 2 * dim && dim >= 1 && size >= 1,
    ;
    assert(a * size + 2 * dim * (f + size - 2) < (2 * i + 2) * f * size) by (nonlinear_arith)
        requires
            a == (2 * i + 1) * f && 4 * dim <= size <= COORD_LIMIT && 1 <= dim <= 100_000 && f
                == 1_000_000 && i >= 0,
    ;
    assert(dim * rel_y < (i + 1) * f) by (nonlinear_arith)
        requires
            2 * dim * (size * rel_y) < (2 * i + 2) * f * size && size >= 1 && dim >= 0,
    ;
    assert(clamp_spec(rel_y, 0, f - 1) == rel_y);
    let s = rel_y * dim - i * f;
    assert(rel_y * dim == dim * rel_y) by (nonlinear_arith);
    vstd::arithmetic::div_mod::lemma_fundamental_div_mod_converse_div(rel_y * dim, f, i, s);
}

/// The pixel-center fraction in product form: `rel_c` is the floor of
/// `(2i+1) FRAC / (2 dim)`, with its remainder, and stays under the unit.
proof fn lemma_center_rel_facts(i: int, dim: int) -> (r: (int, int))
    requires
        0 <= i < dim,
        1 <= dim <= crate::fixed::MAX_IMAGE_DIM as int,
    ensures
        r.0 == ViewTransform::pixel_center_rel(i, dim),
        (2 * i + 1) * (FRAC as int) == 2 * dim * r.0 + r.1,
        r.0 * (2 * dim) == (2 * i + 1) * (FRAC as int) - r.1,
        0 <= r.1 <= 2 * dim - 1,
        r.0 * (2 * dim) <= 2 * dim * (FRAC as int) - FRAC,
        0 <= r.0 <= FRAC - 1,
{
    let f = FRAC as int;
    let d2 = 2 * dim;
    let a = (2 * i + 1) * f;
    vstd::arithmetic::mul::lemma_mul_nonnegative(2 * i + 1, f);
    vstd::arithmetic::div_mod::lemma_fundamental_div_mod(a, d2);
    vstd::arithmetic::div_mod::lemma_mod_division_less_than_divisor(a, d2);
    vstd::arithmetic::div_mod::lemma_div_pos_is_pos(a, d2);
    let rel_c = a / d2;
    let r1 = a % d2;
    assert(rel_c * d2 == a - r1) by (nonlinear_arith)
        requires
            a == d2 * rel_c + r1,
    ;
    assert(rel_c * d2 <= d2 * f - f) by (nonlinear_arith)
        requires
            rel_c * d2 == a - r1 && a == (2 * i + 1) * f && i <= dim - 1 && 0 <= r1 && d2 == 2
                * dim && f >= 0,
    ;
    assert(rel_c <= f - 1) by (nonlinear_arith)
        requires
            rel_c * d2 <= d2 * f - f && d2 >= 2 && f >= 1,
    ;
    (rel_c, r1)
}

/// Scale a fraction in `[0, FRAC]` onto a rect extent and back, exposing
/// both division steps in product form.
proof fn lemma_scale_and_back(v: int, size: int) -> (r: (int, int, int, int))
    requires
        0 <= v <= FRAC,
        1 <= size <= COORD_LIMIT,
    ensures
        ({
            let f = FRAC as int;
            let (off, r2, back, r3) = r;
            off == v * size / f && back == off * f / size && v * size == f * off + r2 && off * f
                == size * back + r3 && 0 <= r2 <= f - 1 && 0 <= r3 <= size - 1 && 0 <= off
                <= size && back >= 0 && size * back == v * size - r2 - r3
        }),
{
    let f = FRAC as int;
    vstd::arithmetic::mul::lemma_mul_nonnegative(v, size);
    vstd::arithmetic::div_mod::lemma_fundamental_div_mod(v * size, f);
    vstd::arithmetic::div_mod::lemma_mod_division_less_than_divisor(v * size, f);
    vstd::arithmetic::div_mod::lemma_div_pos_is_pos(v * size, f);
    let off = v * size / f;
    let r2 = (v * size) % f;
    vstd::arithmetic::mul::lemma_mul_inequality(v, f, size);
    vstd::arithmetic::div_mod::lemma_multiply_divide_le(v * size, f, size);
    vstd::arithmetic::mul::lemma_mul_nonnegative(off, f);
    vstd::arithmetic::div_mod::lemma_fundamental_div_mod(off * f, size);
    vstd::arithmetic::div_mod::lemma_mod_division_less_than_divisor(off * f, size);
    vstd::arithmetic::div_mod::lemma_div_pos_is_pos(off * f, size);
    let back = off * f / size;
    let r3 = (off * f) % size;
    assert(size * back == v * size - r2 - r3) by (nonlinear_arith)
        requires
            v * size == f * off + r2 && off * f == size * back + r3,
    ;
    (off, r2, back, r3)
}

/// The vertical flip at the rect corners: clicking the rect's top-left
/// corner maps to image column 0 and row `h - 1`; clicking the bottom-left
/// corner maps to row 0.
pub proof fn lemma_y_flip_corners(rect: Rect, w: u32, h: u32)
    requires
        rect.wf(),
        1 <= w <= crate::fixed::MAX_IMAGE_DIM,
        1 <= h <= crate::fixed::MAX_IMAGE_DIM,
    ensures
        ViewTransform::screen_to_image_spec(
            Pos2 { x: rect.min.x, y: rect.min.y },
            rect,
            w,
            h,
        ) == Some((0u32, (h - 1) as u32)),
        ViewTransform::screen_to_image_spec(
            Pos2 { x: rect.min.x, y: (rect.min.y + rect.size.y) as i64 },
            rect,
            w,
            h,
        ) == Some((0u32, 0u32)),
{
    let top_left = Pos2 { x: rect.min.x, y: rect.min.y };
    let bottom_left = Pos2 { x: rect.min.x, y: (rect.min.y + rect.size.y) as i64 };
    assert(rect.contains_spec(top_left));
    assert(rect.contains_spec(bottom_left));
    lemma_zero_rel(rect.size.x as int);
    lemma_zero_rel(rect.size.y as int);
    assert(ViewTransform::rel_frac_x(top_left, rect) == 0);
    assert(ViewTransform::rel_frac_y(top_left, rect) == FRAC);
    assert(ViewTransform::pixel_from_rel(0, w as int) == 0) by {
        assert(0 * (w as int) == 0) by (nonlinear_arith);
        vstd::arithmetic::div_mod::lemma_div_of0(FRAC as int);
    }
    assert(ViewTransform::pixel_from_rel(FRAC as int, h as int) == h - 1) by {
        assert(clamp_spec(FRAC as int, 0, FRAC - 1) == FRAC - 1);
        lemma_top_edge_pixel(h as int);
    }
    assert(ViewTransform::rel_frac_y(bottom_left, rect) == 0) by {
        lemma_full_rel(rect.size.y as int);
    }
    assert(ViewTransform::pixel_from_rel(0, h as int) == 0) by {
        assert(0 * (h as int) == 0) by (nonlinear_arith);
        vstd::arithmetic::div_mod::lemma_div_of0(FRAC as int);
    }
}

/// A zero offset gives a zero relative fraction.
proof fn lemma_zero_rel(size: int)
    requires
        1 <= size,
    ensures
        0 * (FRAC as int) / size == 0,
{
    assert(0 * (FRAC as int) == 0) by (nonlinear_arith);
    vstd::arithmetic::div_mod::lemma_div_of0(size);
}

/// A full offset gives exactly the full relative fraction.
proof fn lemma_full_rel(size: int)
    requires
        1 <= size,
    ensures
        size * (FRAC as int) / size == FRAC,
{
    assert(size * (FRAC as int) == (FRAC as int) * size) by (nonlinear_arith);
    vstd::arithmetic::div_mod::lemma_div_multiples_vanish(FRAC as int, size);
}

/// The clamped top edge floors into the last pixel row.
proof fn lemma_top_edge_pixel(h: int)
    requires
        1 <= h <= crate::fixed::MAX_IMAGE_DIM,
    ensures
        ((FRAC as int) - 1) * h / (FRAC as int) == h - 1,
{
    assert(((FRAC as int) - 1) * h == (FRAC as int) * (h - 1) + ((FRAC as int) - h))
        by (nonlinear_arith);
    assert((h - 1) * (FRAC as int) + ((FRAC as int) - h) == ((FRAC as int) - 1) * h)
        by (nonlinear_arith);
    vstd::arithmetic::div_mod::lemma_fundamental_div_mod_converse_div(
        ((FRAC as int) - 1) * h,
        FRAC as int,
        h - 1,
        (FRAC as int) - h,
    );
}

/// The numerator of the pan update stays well inside `i128`.
proof fn lemma_pan_numerator_bounds(d: int, pan: int, zo: int, zn: int)
    requires
        -2 * COORD_LIMIT <= d <= 2 * COORD_LIMIT,
        -PAN_LIMIT <= pan <= PAN_LIMIT,
        MIN_ZOOM <= zo <= MAX_ZOOM,
        MIN_ZOOM <= zn <= MAX_ZOOM,
    ensures
        -7_000_000_000_000_000_000_000 <= d * (zo - zn) <= 7_000_000_000_000_000_000_000,
        -7_000_000_000_000_000_000_000 <= pan * zn <= 7_000_000_000_000_000_000_000,
{
    assert(-100_000_000_000_000_000 <= d * (zo - zn) <= 100_000_000_000_000_000)
        by (nonlinear_arith)
        requires
            -2 * COORD_LIMIT <= d <= 2 * COORD_LIMIT && -50_000 <= zo - zn <= 50_000,
    ;
    assert(-50_000_000_000_000_000_000 <= pan * zn <= 50_000_000_000_000_000_000)
        by (nonlinear_arith)
        requires
            -PAN_LIMIT <= pan <= PAN_LIMIT && 0 <= zn <= MAX_ZOOM,
    ;
}

/// The relative pivot position stays within a thousand and one units of the
/// unit range when the pivot is within a thousand image extents of the
/// image.
proof fn lemma_pivot_rel_bounds(pivot: int, dim: int)
    requires
        1 <= dim <= crate::fixed::MAX_IMAGE_DIM,
        -1000 * (SCALE as int) * dim <= pivot <= 1000 * (SCALE as int) * dim,
    ensures
        -1001 * (FRAC as int) <= (pivot + 500) * (FRAC as int) / (dim * (SCALE as int)) <= 1001
            * (FRAC as int),
{
    let den = dim * (SCALE as int);
    let num = (pivot + 500) * (FRAC as int);
    assert(1000 <= den <= 100_000_000) by (nonlinear_arith)
        requires
            den == dim * 1000 && 1 <= dim <= 100_000,
    ;
    assert(-1001 * (FRAC as int) * den <= num <= 1001 * (FRAC as int) * den) by (nonlinear_arith)
        requires
            num == (pivot + 500) * (FRAC as int) && den == dim * (SCALE as int) && -1000 * (
            SCALE as int) * dim <= pivot <= 1000 * (SCALE as int) * dim && 1 <= dim,
    ;
    vstd::arithmetic::div_mod::lemma_div_is_ordered(-1001 * (FRAC as int) * den, num, den);
    vstd::arithmetic::div_mod::lemma_div_is_ordered(num, 1001 * (FRAC as int) * den, den);
    vstd::arithmetic::div_mod::lemma_div_multiples_vanish(-1001 * (FRAC as int), den);
    vstd::arithmetic::div_mod::lemma_div_multiples_vanish(1001 * (FRAC as int), den);
    assert(den * (-1001 * (FRAC as int)) == -1001 * (FRAC as int) * den) by (nonlinear_arith);
    assert(den * (1001 * (FRAC as int)) == 1001 * (FRAC as int) * den) by (nonlinear_arith);
}

/// Scaling a rect extent by a fraction within a thousand and two units of
/// the unit range stays within as many extents.
proof fn lemma_signed_rel_times_size(rel: int, size: int)
    requires
        -1002 * (FRAC as int) <= rel <= 1002 * (FRAC as int),
        1 <= size <= COORD_LIMIT,
    ensures
        -1002 * (FRAC as int) * COORD_LIMIT <= rel * size <= 1002 * (FRAC as int) * COORD_LIMIT,
        -1002 * COORD_LIMIT <= rel * size / (FRAC as int) <= 1002 * COORD_LIMIT,
{
    assert(-1002 * (FRAC as int) * size <= rel * size <= 1002 * (FRAC as int) * size)
        by (nonlinear_arith)
        requires
            -1002 * (FRAC as int) <= rel <= 1002 * (FRAC as int) && 1 <= size,
    ;
    assert(1002 * (FRAC as int) * size <= 1002 * (FRAC as int) * COORD_LIMIT)
        by (nonlinear_arith)
        requires
            1 <= size <= COORD_LIMIT,
    ;
    assert(-1002 * (FRAC as int) * size >= -1002 * (FRAC as int) * COORD_LIMIT)
        by (nonlinear_arith)
        requires
            1 <= size <= COORD_LIMIT,
    ;
    vstd::arithmetic::div_mod::lemma_div_is_ordered(
        -1002 * (FRAC as int) * COORD_LIMIT,
        rel * size,
        FRAC as int,
    );
    vstd::arithmetic::div_mod::lemma_div_is_ordered(
        rel * size,
        1002 * (FRAC as int) * COORD_LIMIT,
        FRAC as int,
    );
    vstd::arithmetic::div_mod::lemma_div_multiples_vanish(-1002 * COORD_LIMIT, FRAC as int);
    vstd::arithmetic::div_mod::lemma_div_multiples_vanish(1002 * COORD_LIMIT, FRAC as int);
}

/// The product of a base display size and a zoom level stays inside `i64`
/// and its milli-quotient inside `[0, COORD_LIMIT * 50]`.
proof fn lemma_zoom_product_bounds(base: int, zoom: int)
    requires
        0 <= base <= COORD_LIMIT,
        MIN_ZOOM <= zoom <= MAX_ZOOM,
    ensures
        0 <= base * zoom <= COORD_LIMIT * MAX_ZOOM,
        0 <= base * zoom / (SCALE as int) <= 50 * COORD_LIMIT,
{
    vstd::arithmetic::mul::lemma_mul_nonnegative(base, zoom);
    vstd::arithmetic::mul::lemma_mul_upper_bound(base, COORD_LIMIT as int, zoom, MAX_ZOOM as int);
    vstd::arithmetic::div_mod::lemma_div_pos_is_pos(base * zoom, SCALE as int);
    vstd::arithmetic::div_mod::lemma_div_is_ordered(
        base * zoom,
        COORD_LIMIT * MAX_ZOOM,
        SCALE as int,
    );
    assert((COORD_LIMIT * MAX_ZOOM) / (SCALE as int) == 50 * COORD_LIMIT);
}

/// A clamped relative position floors into a valid pixel index.
proof fn lemma_pixel_from_rel_in_bounds(rel: int, dim: int)
    requires
        0 <= rel <= FRAC - 1,
        1 <= dim <= FRAC,
    ensures
        0 <= rel * dim / (FRAC as int) < dim,
{
    vstd::arithmetic::mul::lemma_mul_nonnegative(rel, dim);
    vstd::arithmetic::div_mod::lemma_div_pos_is_pos(rel * dim, FRAC as int);
    vstd::arithmetic::mul::lemma_mul_strict_inequality(rel, FRAC as int, dim);
    vstd::arithmetic::div_mod::lemma_multiply_divide_lt(rel * dim, FRAC as int, dim);
}

/// The relative position of a pixel center lies inside the unit range.
proof fn lemma_pixel_center_rel_in_unit(i: int, dim: int)
    requires
        0 <= i < dim,
        1 <= dim <= crate::fixed::MAX_IMAGE_DIM,
    ensures
        0 <= (2 * i + 1) * (FRAC as int) / (2 * dim) <= FRAC,
{
    let num = (2 * i + 1) * (FRAC as int);
    vstd::arithmetic::mul::lemma_mul_nonnegative(2 * i + 1, FRAC as int);
    vstd::arithmetic::div_mod::lemma_div_pos_is_pos(num, 2 * dim);
    vstd::arithmetic::mul::lemma_mul_inequality(2 * i + 1, 2 * dim, FRAC as int);
    vstd::arithmetic::div_mod::lemma_multiply_divide_le(num, 2 * dim, FRAC as int);
}

/// Scaling a rect extent by a unit-range fraction stays within the extent.
proof fn lemma_rel_times_size_in_range(rel: int, size: int)
    requires
        0 <= rel <= FRAC,
        1 <= size <= COORD_LIMIT,
    ensures
        0 <= rel * size / (FRAC as int) <= size,
{
    vstd::arithmetic::mul::lemma_mul_nonnegative(rel, size);
    vstd::arithmetic::div_mod::lemma_div_pos_is_pos(rel * size, FRAC as int);
    vstd::arithmetic::mul::lemma_mul_inequality(rel, FRAC as int, size);
    vstd::arithmetic::div_mod::lemma_multiply_divide_le(rel * size, FRAC as int, size);
}

/// Rust's truncating remainder is congruent to the dividend and stays inside
/// an open full turn on either side.
proof fn lemma_trunc_rem_is_congruent(a: int, m: int)
    requires
        m >= 1,
    ensures
        (trunc_rem(a, m) - a) % m == 0,
        -m < trunc_rem(a, m) < m,
{
    vstd::arithmetic::div_mod::lemma_fundamental_div_mod(a, m);
    vstd::arithmetic::div_mod::lemma_mod_division_less_than_divisor(a, m);
    if a >= 0 {
        assert(trunc_rem(a, m) == a % m);
        assert(trunc_rem(a, m) - a == (-(a / m)) * m) by (nonlinear_arith)
            requires
                a == m * (a / m) + a % m && trunc_rem(a, m) == a % m,
        ;
        lemma_mul_multiple_mod(-(a / m), m);
    } else {
        vstd::arithmetic::div_mod::lemma_fundamental_div_mod(-a, m);
        vstd::arithmetic::div_mod::lemma_mod_division_less_than_divisor(-a, m);
        vstd::arithmetic::div_mod::lemma_div_pos_is_pos(-a, m);
        assert(trunc_rem(a, m) == -((-a) % m));
        assert(trunc_rem(a, m) - a == ((-a) / m) * m) by (nonlinear_arith)
            requires
                -a == m * ((-a) / m) + (-a) % m && trunc_rem(a, m) == -((-a) % m),
        ;
        lemma_mul_multiple_mod((-a) / m, m);
    }
}

/// The truncating remainder of `a` by `m`, as Rust's `%` computes it.
pub open spec fn trunc_rem(a: int, m: int) -> int {
    if a >= 0 {
        a % m
    } else {
        -((-a) % m)
    }
}

/// A multiple of `m` is zero modulo `m`.
proof fn lemma_mul_multiple_mod(k: int, m: int)
    requires
        m >= 1,
    ensures
        (k * m) % m == 0,
{
    vstd::arithmetic::div_mod::lemma_mod_multiples_basic(k, m);
}

/// Adding or subtracting one full turn preserves congruence modulo a full turn.
proof fn lemma_congruence_step(a: int, n: int, r: int, m: int)
    requires
        m >= 1,
        (n - a) % m == 0,
        r == n || r == n - m || r == n + m,
    ensures
        (r - a) % m == 0,
{
    if r == n - m {
        vstd::arithmetic::div_mod::lemma_mod_sub_multiples_vanish(n - a, m);
        assert(r - a == n - a - m);
    } else if r == n + m {
        vstd::arithmetic::div_mod::lemma_mod_add_multiples_vanish(n - a, m);
        assert(r - a == n - a + m);
    }
}

} // verus!
