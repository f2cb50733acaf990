//! The viewer widget state: image data and its statistics, the view
//! transform, per-mode contrast/bias settings, colormap selection and the
//! dirty flag driving texture rebuilds. All state is held in fixed point;
//! the host layer owns the event loop and the rendering surface and calls
//! these methods.

use vstd::prelude::*;

use crate::colormap::{Colormap, Rgb};
use crate::fixed::{
    abs_i64, abs_spec, clamp_i64, clamp_spec, coord_in_range, div_floor, div_floor_wide,
    COORD_LIMIT, FRAC, MAX_IMAGE_DIM, SCALE, VALUE_LIMIT,
};
use crate::geom::{Pos2, Rect, Vec2};
use crate::stats;
use crate::stretch::{
    apply_contrast_bias, apply_full_stretch_value, apply_stretch, contrast_bias_spec,
    full_stretch_spec, log_stretch_spec, ContrastBias, StretchMode, StretchType, DEFAULT_BIAS,
    DEFAULT_CONTRAST, MAX_CONTRAST, MIN_CONTRAST,
};
use crate::transform::ViewTransform;

verus! {

/// A self-contained widget state for viewing 2D array/image data. Multiple
/// instances can coexist without sharing state; the host must serialize
/// access to one instance.
pub struct ArrayViewerWidget {
    /// Raw samples in milli-units, row-major; `None` marks a sample that is
    /// not a finite number.
    pub pixels: Option<Vec<Option<i64>>>,
    /// Image width in pixels.
    pub width: u32,
    /// Image height in pixels.
    pub height: u32,
    /// Current minimum value for scaling, milli-units.
    pub min_val: i64,
    /// Current maximum value for scaling, milli-units.
    pub max_val: i64,
    /// Original auto-computed minimum (for reset).
    pub original_min_val: i64,
    /// Original auto-computed maximum (for reset).
    pub original_max_val: i64,
    /// Whether the source data is integer-typed (display formatting only).
    pub is_integer: bool,
    /// Pan/zoom/rotation state.
    pub transform: ViewTransform,
    /// Current stretch type (linear or logarithmic).
    pub stretch_type: StretchType,
    /// Contrast/bias settings for the linear mode.
    pub linear_cb: ContrastBias,
    /// Contrast/bias settings for the logarithmic mode.
    pub log_cb: ContrastBias,
    /// Contrast settings for the symmetric mode (its bias is pinned on read).
    pub symmetric_cb: ContrastBias,
    /// Whether the user is currently dragging to adjust contrast/bias.
    pub is_adjusting_stretch: bool,
    /// Colormap for the standard (linear/logarithmic) modes.
    pub standard_colormap: Colormap,
    /// Colormap for the symmetric/diverging mode.
    pub diverging_colormap: Colormap,
    /// Symmetric mode: scale around zero.
    pub symmetric_mode: bool,
    /// Whether the colormap is reversed.
    pub colormap_reversed: bool,
    /// Set when the rendered bitmap must be rebuilt.
    pub texture_dirty: bool,
    /// Cached hover information: image position and the raw sample there.
    pub hover_info: Option<(u32, u32, Option<i64>)>,
}

impl ArrayViewerWidget {
    /// The samples as a sequence; empty when no image is loaded.
    pub open spec fn pixels_view(self) -> Seq<Option<i64>> {
        match self.pixels {
            Some(p) => p@,
            None => Seq::empty(),
        }
    }

    /// Well-formedness: the invariant every method preserves.
    pub open spec fn wf(self) -> bool {
        self.transform.wf() && self.linear_cb.wf() && self.log_cb.wf() && self.symmetric_cb.wf()
            && self.width <= MAX_IMAGE_DIM && self.height <= MAX_IMAGE_DIM && (
        self.pixels is Some ==> self.pixels_view().len() == self.width * self.height)
            && stats::samples_in_range(self.pixels_view()) && value_in_range(self.min_val)
            && value_in_range(self.max_val) && value_in_range(self.original_min_val)
            && value_in_range(self.original_max_val)
            && !self.standard_colormap.is_diverging_spec()
            && self.diverging_colormap.is_diverging_spec()
    }

    /// The initial state: no image, unit range, default transform and
    /// stretch settings, grayscale and the first diverging palette.
    pub open spec fn init_spec() -> ArrayViewerWidget {
        ArrayViewerWidget {
            pixels: None,
            width: 0,
            height: 0,
            min_val: 0,
            max_val: SCALE,
            original_min_val: 0,
            original_max_val: SCALE,
            is_integer: false,
            transform: ViewTransform::default_spec(),
            stretch_type: StretchType::Linear,
            linear_cb: ContrastBias { contrast: DEFAULT_CONTRAST, bias: DEFAULT_BIAS },
            log_cb: ContrastBias { contrast: DEFAULT_CONTRAST, bias: DEFAULT_BIAS },
            symmetric_cb: ContrastBias { contrast: DEFAULT_CONTRAST, bias: DEFAULT_BIAS },
            is_adjusting_stretch: false,
            standard_colormap: Colormap::Grayscale,
            diverging_colormap: Colormap::RdBu,
            symmetric_mode: false,
            colormap_reversed: false,
            texture_dirty: false,
            hover_info: None,
        }
    }

    /// Create a new empty widget.
    pub fn new() -> (r: ArrayViewerWidget)
        ensures
            r == Self::init_spec(),
            r.wf(),
    {
        ArrayViewerWidget {
            pixels: None,
            width: 0,
            height: 0,
            min_val: 0,
            max_val: SCALE,
            original_min_val: 0,
            original_max_val: SCALE,
            is_integer: false,
            transform: ViewTransform::new(),
            stretch_type: StretchType::Linear,
            linear_cb: ContrastBias { contrast: DEFAULT_CONTRAST, bias: DEFAULT_BIAS },
            log_cb: ContrastBias { contrast: DEFAULT_CONTRAST, bias: DEFAULT_BIAS },
            symmetric_cb: ContrastBias { contrast: DEFAULT_CONTRAST, bias: DEFAULT_BIAS },
            is_adjusting_stretch: false,
            standard_colormap: Colormap::Grayscale,
            diverging_colormap: Colormap::RdBu,
            symmetric_mode: false,
            colormap_reversed: false,
            texture_dirty: false,
            hover_info: None,
        }
    }

    /// Check if image data is loaded.
    pub fn has_image(&self) -> (r: bool)
        ensures
            r == (self.pixels is Some),
    {
        self.pixels.is_some()
    }

    /// Get the image dimensions.
    pub fn dimensions(&self) -> (r: (u32, u32))
        ensures
            r == (self.width, self.height),
    {
        (self.width, self.height)
    }

    /// Get the current stretch type.
    pub fn stretch_type(&self) -> (r: StretchType)
        ensures
            r == self.stretch_type,
    {
        self.stretch_type
    }

    /// Toggle between the linear and logarithmic stretch.
    pub fn toggle_stretch_type(&mut self)
        ensures
            *final(self) == (ArrayViewerWidget {
                stretch_type: if old(self).stretch_type == StretchType::Linear {
                    StretchType::Log
                } else {
                    StretchType::Linear
                },
                texture_dirty: true,
                ..*old(self)
            }),
            old(self).wf() ==> final(self).wf(),
    {
        self.stretch_type = match self.stretch_type {
            StretchType::Linear => StretchType::Log,
            StretchType::Log => StretchType::Linear,
        };
        self.texture_dirty = true;
    }

    /// What the state becomes when a stretch type is selected directly:
    /// selecting the current type changes nothing; switching to the
    /// logarithmic stretch leaves symmetric mode, which does not mix with
    /// signed ranges, and then falls back from the active diverging palette
    /// to grayscale.
    pub open spec fn set_stretch_type_spec(self, st: StretchType) -> ArrayViewerWidget {
        if self.stretch_type == st {
            self
        } else if st == StretchType::Log && self.symmetric_mode {
            ArrayViewerWidget {
                stretch_type: st,
                symmetric_mode: false,
                standard_colormap: if self.diverging_colormap.is_diverging_spec() {
                    Colormap::Grayscale
                } else {
                    self.standard_colormap
                },
                texture_dirty: true,
                ..self
            }
        } else {
            ArrayViewerWidget { stretch_type: st, texture_dirty: true, ..self }
        }
    }

    /// Set the stretch type directly.
    pub fn set_stretch_type(&mut self, stretch_type: StretchType)
        ensures
            *final(self) == old(self).set_stretch_type_spec(stretch_type),
            old(self).wf() ==> final(self).wf(),
    {
        if self.stretch_type != stretch_type {
            self.stretch_type = stretch_type;
            if stretch_type == StretchType::Log && self.symmetric_mode {
                self.symmetric_mode = false;
                if self.diverging_colormap.is_diverging() {
                    self.standard_colormap = Colormap::Grayscale;
                }
            }
            self.texture_dirty = true;
        }
    }

    /// The contrast/bias in effect: in symmetric mode the symmetric slot's
    /// contrast with the bias pinned to its default; otherwise the slot of
    /// the active stretch type.
    pub open spec fn current_contrast_bias_spec(self) -> ContrastBias {
        if self.symmetric_mode {
            ContrastBias { contrast: self.symmetric_cb.contrast, bias: DEFAULT_BIAS }
        } else if self.stretch_type == StretchType::Linear {
            self.linear_cb
        } else {
            self.log_cb
        }
    }

    /// Get the contrast/bias for the active stretch mode.
    pub fn current_contrast_bias(&self) -> (r: ContrastBias)
        ensures
            r == self.current_contrast_bias_spec(),
            self.wf() ==> r.wf(),
    {
        if self.symmetric_mode {
            ContrastBias { contrast: self.symmetric_cb.contrast, bias: DEFAULT_BIAS }
        } else {
            match self.stretch_type {
                StretchType::Linear => self.linear_cb,
                StretchType::Log => self.log_cb,
            }
        }
    }

    /// The state with the active slot replaced: the symmetric slot in
    /// symmetric mode, else the slot of the active stretch type.
    pub open spec fn with_active_slot(self, cb: ContrastBias) -> ArrayViewerWidget {
        if self.symmetric_mode {
            ArrayViewerWidget { symmetric_cb: cb, ..self }
        } else if self.stretch_type == StretchType::Linear {
            ArrayViewerWidget { linear_cb: cb, ..self }
        } else {
            ArrayViewerWidget { log_cb: cb, ..self }
        }
    }

    /// The active slot as stored (unlike `current_contrast_bias_spec`, the
    /// symmetric slot's stored bias is not pinned here).
    pub open spec fn active_slot(self) -> ContrastBias {
        if self.symmetric_mode {
            self.symmetric_cb
        } else if self.stretch_type == StretchType::Linear {
            self.linear_cb
        } else {
            self.log_cb
        }
    }

    /// Replace the active slot and mark the texture dirty.
    fn set_active_slot(&mut self, cb: ContrastBias)
        ensures
            *final(self) == (ArrayViewerWidget {
                texture_dirty: true,
                ..old(self).with_active_slot(cb)
            }),
    {
        if self.symmetric_mode {
            self.symmetric_cb = cb;
        } else {
            match self.stretch_type {
                StretchType::Linear => self.linear_cb = cb,
                StretchType::Log => self.log_cb = cb,
            }
        }
        self.texture_dirty = true;
    }

    /// Set the contrast value, clamped into `[0, 10]`.
    pub fn set_contrast(&mut self, contrast: i64)
        ensures
            *final(self) == (ArrayViewerWidget {
                texture_dirty: true,
                ..old(self).with_active_slot(
                    ContrastBias {
                        contrast: clamp_spec(
                            contrast as int,
                            MIN_CONTRAST as int,
                            MAX_CONTRAST as int,
                        ) as i64,
                        bias: old(self).active_slot().bias,
                    },
                )
            }),
            old(self).wf() ==> final(self).wf(),
    {
        let clamped = clamp_i64(contrast, MIN_CONTRAST, MAX_CONTRAST);
        let bias = if self.symmetric_mode {
            self.symmetric_cb.bias
        } else {
            match self.stretch_type {
                StretchType::Linear => self.linear_cb.bias,
                StretchType::Log => self.log_cb.bias,
            }
        };
        self.set_active_slot(ContrastBias { contrast: clamped, bias });
    }

    /// Set the bias value, clamped into `[0, 1]`. In symmetric mode the bias
    /// is pinned and the call changes nothing.
    pub fn set_bias(&mut self, bias: i64)
        ensures
            old(self).symmetric_mode ==> *final(self) == *old(self),
            !old(self).symmetric_mode ==> *final(self) == (ArrayViewerWidget {
                texture_dirty: true,
                ..old(self).with_active_slot(
                    ContrastBias {
                        contrast: old(self).active_slot().contrast,
                        bias: clamp_spec(bias as int, 0, SCALE as int) as i64,
                    },
                )
            }),
            old(self).wf() ==> final(self).wf(),
    {
        if !self.symmetric_mode {
            let clamped = clamp_i64(bias, 0, SCALE);
            let contrast = match self.stretch_type {
                StretchType::Linear => self.linear_cb.contrast,
                StretchType::Log => self.log_cb.contrast,
            };
            self.set_active_slot(ContrastBias { contrast, bias: clamped });
        }
    }

    /// What a contrast/bias drag does to the active slot: a horizontal drag
    /// moves the bias by its fraction of the viewport width (outside
    /// symmetric mode); a vertical drag moves the contrast by ten times its
    /// fraction of the viewport height, upward drags increasing it.
    pub open spec fn adjusted_slot_spec(self, dx: int, dy: int, vw: int, vh: int) -> ContrastBias {
        let slot = self.active_slot();
        ContrastBias {
            contrast: clamp_spec(
                slot.contrast - dy * (MAX_CONTRAST as int) / vh,
                MIN_CONTRAST as int,
                MAX_CONTRAST as int,
            ) as i64,
            bias: if self.symmetric_mode {
                slot.bias
            } else {
                clamp_spec(slot.bias + dx * (SCALE as int) / vw, 0, SCALE as int) as i64
            },
        }
    }

    /// Adjust contrast and bias from a mouse drag delta, in milli-pixels,
    /// against the viewport size. In symmetric mode only the contrast moves,
    /// keeping the scaling centered.
    pub fn adjust_contrast_bias(&mut self, dx: i64, dy: i64, viewport_size: Vec2)
        requires
            old(self).wf(),
            coord_in_range(dx),
            coord_in_range(dy),
            1 <= viewport_size.x <= COORD_LIMIT,
            1 <= viewport_size.y <= COORD_LIMIT,
        ensures
            *final(self) == (ArrayViewerWidget {
                texture_dirty: true,
                ..old(self).with_active_slot(
                    old(self).adjusted_slot_spec(
                        dx as int,
                        dy as int,
                        viewport_size.x as int,
                        viewport_size.y as int,
                    ),
                )
            }),
            final(self).wf(),
    {
        let slot = if self.symmetric_mode {
            self.symmetric_cb
        } else {
            match self.stretch_type {
                StretchType::Linear => self.linear_cb,
                StretchType::Log => self.log_cb,
            }
        };
        proof {
            crate::fixed::lemma_div_in_range(
                dx * SCALE,
                viewport_size.x as int,
                1_000_000_000_000_000,
            );
            crate::fixed::lemma_div_in_range(
                dy * MAX_CONTRAST,
                viewport_size.y as int,
                10_000_000_000_000_000,
            );
        }
        let bias = if self.symmetric_mode {
            slot.bias
        } else {
            clamp_i64(slot.bias + div_floor(dx * SCALE, viewport_size.x), 0, SCALE)
        };
        let contrast = clamp_i64(
            slot.contrast - div_floor(dy * MAX_CONTRAST, viewport_size.y),
            MIN_CONTRAST,
            MAX_CONTRAST,
        );
        self.set_active_slot(ContrastBias { contrast, bias });
    }

    /// Reset the active slot's contrast/bias to the defaults.
    pub fn reset_current_stretch(&mut self)
        ensures
            *final(self) == (ArrayViewerWidget {
                texture_dirty: true,
                ..old(self).with_active_slot(
                    ContrastBias { contrast: DEFAULT_CONTRAST, bias: DEFAULT_BIAS },
                )
            }),
            old(self).wf() ==> final(self).wf(),
    {
        self.set_active_slot(ContrastBias { contrast: DEFAULT_CONTRAST, bias: DEFAULT_BIAS });
    }

    /// Reset all three slots to the defaults and switch the active display
    /// mode back to the linear stretch: symmetric mode is left too, falling
    /// back from an active diverging palette to grayscale.
    pub fn reset_all_stretch(&mut self)
        ensures
            *final(self) == (ArrayViewerWidget {
                linear_cb: ContrastBias { contrast: DEFAULT_CONTRAST, bias: DEFAULT_BIAS },
                log_cb: ContrastBias { contrast: DEFAULT_CONTRAST, bias: DEFAULT_BIAS },
                symmetric_cb: ContrastBias { contrast: DEFAULT_CONTRAST, bias: DEFAULT_BIAS },
                stretch_type: StretchType::Linear,
                texture_dirty: true,
                ..old(self).set_symmetric_spec(false)
            }),
            !final(self).symmetric_mode,
            old(self).wf() ==> final(self).wf(),
    {
        self.linear_cb = ContrastBias { contrast: DEFAULT_CONTRAST, bias: DEFAULT_BIAS };
        self.log_cb = ContrastBias { contrast: DEFAULT_CONTRAST, bias: DEFAULT_BIAS };
        self.symmetric_cb = ContrastBias { contrast: DEFAULT_CONTRAST, bias: DEFAULT_BIAS };
        self.stretch_type = StretchType::Linear;
        if self.symmetric_mode {
            self.symmetric_mode = false;
            if self.diverging_colormap.is_diverging() {
                self.standard_colormap = Colormap::Grayscale;
            }
        }
        self.texture_dirty = true;
    }

    /// Whether the active stretch mode differs from the defaults; in
    /// symmetric mode only the contrast counts.
    pub fn is_stretch_modified(&self) -> (r: bool)
        ensures
            self.symmetric_mode ==> r == (self.symmetric_cb.contrast != DEFAULT_CONTRAST),
            !self.symmetric_mode ==> r == !(self.current_contrast_bias_spec().contrast
                == DEFAULT_CONTRAST && self.current_contrast_bias_spec().bias == DEFAULT_BIAS),
    {
        if self.symmetric_mode {
            self.symmetric_cb.contrast != DEFAULT_CONTRAST
        } else {
            !self.current_contrast_bias().is_default()
        }
    }

    /// Whether the scaling limits differ from the auto-computed originals.
    pub fn is_limits_modified(&self) -> (r: bool)
        ensures
            r == (self.min_val != self.original_min_val || self.max_val
                != self.original_max_val),
    {
        self.min_val != self.original_min_val || self.max_val != self.original_max_val
    }

    /// Whether any display setting (stretch or limits) has been modified.
    pub fn is_display_modified(&self) -> (r: bool)
        ensures
            self.symmetric_mode ==> r == (self.symmetric_cb.contrast != DEFAULT_CONTRAST
                || self.min_val != self.original_min_val || self.max_val
                != self.original_max_val),
            !self.symmetric_mode ==> r == (!(self.current_contrast_bias_spec().contrast
                == DEFAULT_CONTRAST && self.current_contrast_bias_spec().bias == DEFAULT_BIAS)
                || self.min_val != self.original_min_val || self.max_val
                != self.original_max_val),
    {
        self.is_stretch_modified() || self.is_limits_modified()
    }

    /// Reset the scaling limits to the auto-computed originals.
    pub fn reset_limits(&mut self)
        ensures
            *final(self) == (ArrayViewerWidget {
                min_val: old(self).original_min_val,
                max_val: old(self).original_max_val,
                texture_dirty: true,
                ..*old(self)
            }),
            old(self).wf() ==> final(self).wf(),
    {
        self.min_val = self.original_min_val;
        self.max_val = self.original_max_val;
        self.texture_dirty = true;
    }

    /// Reset all display settings: the active stretch slot and the limits.
    pub fn reset_display(&mut self)
        ensures
            *final(self) == (ArrayViewerWidget {
                min_val: old(self).original_min_val,
                max_val: old(self).original_max_val,
                texture_dirty: true,
                ..old(self).with_active_slot(
                    ContrastBias { contrast: DEFAULT_CONTRAST, bias: DEFAULT_BIAS },
                )
            }),
            old(self).wf() ==> final(self).wf(),
    {
        self.reset_current_stretch();
        self.reset_limits();
    }

    /// Record whether the user is currently adjusting the stretch.
    pub fn set_adjusting_stretch(&mut self, adjusting: bool)
        ensures
            *final(self) == (ArrayViewerWidget { is_adjusting_stretch: adjusting, ..*old(self) }),
            old(self).wf() ==> final(self).wf(),
    {
        self.is_adjusting_stretch = adjusting;
    }

    /// Whether the user is currently adjusting the stretch.
    pub fn is_adjusting_stretch(&self) -> (r: bool)
        ensures
            r == self.is_adjusting_stretch,
    {
        self.is_adjusting_stretch
    }

    /// The colormap in effect: the diverging slot in symmetric mode, the
    /// standard slot otherwise.
    pub open spec fn colormap_spec(self) -> Colormap {
        if self.symmetric_mode {
            self.diverging_colormap
        } else {
            self.standard_colormap
        }
    }

    /// Get the colormap in effect for the current mode.
    pub fn colormap(&self) -> (r: Colormap)
        ensures
            r == self.colormap_spec(),
    {
        if self.symmetric_mode {
            self.diverging_colormap
        } else {
            self.standard_colormap
        }
    }

    /// What the state becomes when a colormap is selected: a diverging
    /// palette goes to the diverging slot and enables symmetric mode, where
    /// alone it is valid; a standard palette goes to the standard slot.
    pub open spec fn set_colormap_spec(self, colormap: Colormap) -> ArrayViewerWidget {
        if colormap.is_diverging_spec() {
            ArrayViewerWidget {
                diverging_colormap: colormap,
                symmetric_mode: true,
                texture_dirty: true,
                ..self
            }
        } else {
            ArrayViewerWidget { standard_colormap: colormap, texture_dirty: true, ..self }
        }
    }

    /// Select a colormap. Selecting a diverging palette implies symmetric
    /// mode, so it is enabled along the way.
    pub fn set_colormap(&mut self, colormap: Colormap)
        ensures
            *final(self) == old(self).set_colormap_spec(colormap),
            colormap.is_diverging_spec() ==> final(self).symmetric_mode
                && final(self).colormap_spec() == colormap,
            old(self).wf() ==> final(self).wf(),
    {
        if colormap.is_diverging() {
            self.diverging_colormap = colormap;
            self.symmetric_mode = true;
        } else {
            self.standard_colormap = colormap;
        }
        self.texture_dirty = true;
    }

    /// Whether symmetric mode is enabled.
    pub fn is_symmetric(&self) -> (r: bool)
        ensures
            r == self.symmetric_mode,
    {
        self.symmetric_mode
    }

    /// What the state becomes when symmetric mode is switched: a no-op in
    /// the requested state; turning it off while a diverging palette is
    /// active substitutes grayscale for the palette in effect (the
    /// diverging slot keeps its choice for the next activation).
    pub open spec fn set_symmetric_spec(self, enabled: bool) -> ArrayViewerWidget {
        if self.symmetric_mode == enabled {
            self
        } else if enabled {
            ArrayViewerWidget { symmetric_mode: true, texture_dirty: true, ..self }
        } else {
            ArrayViewerWidget {
                symmetric_mode: false,
                standard_colormap: if self.diverging_colormap.is_diverging_spec() {
                    Colormap::Grayscale
                } else {
                    self.standard_colormap
                },
                texture_dirty: true,
                ..self
            }
        }
    }

    /// Enable or disable symmetric mode; a no-op when already in the
    /// requested state. Deactivating it while a diverging palette is active
    /// falls back to grayscale.
    pub fn set_symmetric(&mut self, enabled: bool)
        ensures
            *final(self) == old(self).set_symmetric_spec(enabled),
            final(self).symmetric_mode == enabled,
            old(self).wf() ==> final(self).wf(),
    {
        if self.symmetric_mode != enabled {
            self.symmetric_mode = enabled;
            if !enabled && self.diverging_colormap.is_diverging() {
                self.standard_colormap = Colormap::Grayscale;
            }
            self.texture_dirty = true;
        }
    }

    /// Toggle symmetric mode.
    pub fn toggle_symmetric(&mut self)
        ensures
            *final(self) == old(self).set_symmetric_spec(!old(self).symmetric_mode),
            final(self).symmetric_mode == !old(self).symmetric_mode,
            old(self).wf() ==> final(self).wf(),
    {
        let target = !self.symmetric_mode;
        self.set_symmetric(target);
    }

    /// Whether the colormap is reversed.
    pub fn is_reversed(&self) -> (r: bool)
        ensures
            r == self.colormap_reversed,
    {
        self.colormap_reversed
    }

    /// Toggle colormap reversal.
    pub fn toggle_reverse(&mut self)
        ensures
            *final(self) == (ArrayViewerWidget {
                colormap_reversed: !old(self).colormap_reversed,
                texture_dirty: true,
                ..*old(self)
            }),
            old(self).wf() ==> final(self).wf(),
    {
        self.colormap_reversed = !self.colormap_reversed;
        self.texture_dirty = true;
    }

    /// The display mode in effect: symmetric when enabled, else the stretch
    /// type.
    pub fn stretch_mode(&self) -> (r: StretchMode)
        ensures
            self.symmetric_mode ==> r == StretchMode::Symmetric,
            !self.symmetric_mode && self.stretch_type == StretchType::Linear ==> r
                == StretchMode::Linear,
            !self.symmetric_mode && self.stretch_type == StretchType::Log ==> r
                == StretchMode::Log,
    {
        if self.symmetric_mode {
            StretchMode::Symmetric
        } else {
            match self.stretch_type {
                StretchType::Linear => StretchMode::Linear,
                StretchType::Log => StretchMode::Log,
            }
        }
    }

    /// What the state becomes when a display mode is selected: the
    /// composition of the symmetric switch and the stretch selection, in the
    /// order that keeps the rules (leaving symmetric mode first, or entering
    /// it over the linear stretch).
    pub open spec fn set_stretch_mode_spec(self, mode: StretchMode) -> ArrayViewerWidget {
        match mode {
            StretchMode::Linear => self.set_symmetric_spec(false).set_stretch_type_spec(
                StretchType::Linear,
            ),
            StretchMode::Log => self.set_symmetric_spec(false).set_stretch_type_spec(
                StretchType::Log,
            ),
            StretchMode::Symmetric => self.set_stretch_type_spec(
                StretchType::Linear,
            ).set_symmetric_spec(true),
        }
    }

    /// Select a display mode: the linear or logarithmic stretch with
    /// symmetric mode off, or symmetric mode over the linear stretch.
    pub fn set_stretch_mode(&mut self, mode: StretchMode)
        ensures
            *final(self) == old(self).set_stretch_mode_spec(mode),
            final(self).symmetric_mode == (mode == StretchMode::Symmetric),
            final(self).stretch_type == if mode == StretchMode::Log {
                StretchType::Log
            } else {
                StretchType::Linear
            },
            old(self).wf() ==> final(self).wf(),
    {
        match mode {
            StretchMode::Linear => {
                self.set_symmetric(false);
                self.set_stretch_type(StretchType::Linear);
            },
            StretchMode::Log => {
                self.set_symmetric(false);
                self.set_stretch_type(StretchType::Log);
            },
            StretchMode::Symmetric => {
                self.set_stretch_type(StretchType::Linear);
                self.set_symmetric(true);
            },
        }
    }
}

impl ArrayViewerWidget {
    /// What the state becomes when new image data is set: the samples and
    /// their statistics replace the old ones, the texture is marked dirty,
    /// and when the dimensions changed the pan is reset and the pivot moves
    /// to the new image center; zoom and rotation are always preserved.
    pub open spec fn set_image_spec(
        self,
        pixels: Seq<Option<i64>>,
        width: u32,
        height: u32,
        is_integer: bool,
    ) -> ArrayViewerWidget {
        let dims_changed = width != self.width || height != self.height;
        let mn = stats::stats_spec(pixels).0;
        let mx = stats::stats_spec(pixels).1;
        ArrayViewerWidget {
            pixels: self.pixels,
            width,
            height,
            min_val: mn as i64,
            max_val: mx as i64,
            original_min_val: mn as i64,
            original_max_val: mx as i64,
            is_integer,
            transform: if dims_changed {
                ViewTransform {
                    pan_offset: crate::geom::Vec2 { x: 0, y: 0 },
                    pivot_point: (
                        (500 * (width as int - 1)) as i64,
                        (500 * (height as int - 1)) as i64,
                    ),
                    ..self.transform
                }
            } else {
                self.transform
            },
            texture_dirty: true,
            ..self
        }
    }

    /// Set new image data, computing the value range for auto-scaling. Pan
    /// is reset and the pivot recentered if the dimensions change; zoom is
    /// always preserved.
    pub fn set_image(&mut self, pixels: Vec<Option<i64>>, width: u32, height: u32, is_integer: bool)
        requires
            old(self).wf(),
            pixels@.len() == width * height,
            width <= MAX_IMAGE_DIM,
            height <= MAX_IMAGE_DIM,
            stats::samples_in_range(pixels@),
        ensures
            *final(self) == (ArrayViewerWidget {
                pixels: final(self).pixels,
                ..old(self).set_image_spec(pixels@, width, height, is_integer)
            }),
            final(self).pixels matches Some(p) && p@ == pixels@,
            final(self).wf(),
    {
        let dimensions_changed = width != self.width || height != self.height;
        let (mn, mx) = stats::compute(&pixels);
        self.pixels = Some(pixels);
        self.width = width;
        self.height = height;
        self.min_val = mn;
        self.max_val = mx;
        self.original_min_val = mn;
        self.original_max_val = mx;
        self.texture_dirty = true;
        self.is_integer = is_integer;
        if dimensions_changed {
            self.transform.reset_pan();
            self.transform.set_pivot_to_center(width, height);
        }
    }

    /// Get a mutable reference to the transform.
    pub fn transform_mut(&mut self) -> (r: &mut ViewTransform)
        ensures
            *r == old(self).transform,
            *final(self) == (ArrayViewerWidget { transform: *final(r), ..*old(self) }),
    {
        &mut self.transform
    }

    /// Get a reference to the transform.
    pub fn transform(&self) -> (r: &ViewTransform)
        ensures
            *r == self.transform,
    {
        &self.transform
    }

    /// Check if the view is at its default state.
    pub fn is_default_view(&self) -> (r: bool)
        requires
            self.wf(),
        ensures
            r == self.transform.is_default_spec(),
    {
        self.transform.is_default()
    }

    /// Zoom in by one step.
    pub fn zoom_in(&mut self, center: Option<Pos2>, viewport_center: Pos2)
        requires
            old(self).wf(),
            coord_in_range(viewport_center.x),
            coord_in_range(viewport_center.y),
            center matches Some(c) ==> coord_in_range(c.x) && coord_in_range(c.y),
        ensures
            *final(self) == (ArrayViewerWidget {
                transform: ViewTransform::zoom_around_spec(
                    old(self).transform,
                    crate::transform::ZOOM_STEP as int,
                    ViewTransform::chosen_center_spec(center, viewport_center),
                    viewport_center,
                ),
                ..*old(self)
            }),
            crate::transform::MIN_ZOOM <= final(self).transform.zoom
                <= crate::transform::MAX_ZOOM,
            final(self).wf(),
    {
        self.transform.zoom_in(center, viewport_center);
    }

    /// Zoom out by one step.
    pub fn zoom_out(&mut self, center: Option<Pos2>, viewport_center: Pos2)
        requires
            old(self).wf(),
            coord_in_range(viewport_center.x),
            coord_in_range(viewport_center.y),
            center matches Some(c) ==> coord_in_range(c.x) && coord_in_range(c.y),
        ensures
            *final(self) == (ArrayViewerWidget {
                transform: ViewTransform::zoom_around_spec(
                    old(self).transform,
                    crate::transform::ZOOM_STEP_INV as int,
                    ViewTransform::chosen_center_spec(center, viewport_center),
                    viewport_center,
                ),
                ..*old(self)
            }),
            crate::transform::MIN_ZOOM <= final(self).transform.zoom
                <= crate::transform::MAX_ZOOM,
            final(self).wf(),
    {
        self.transform.zoom_out(center, viewport_center);
    }

    /// Reset zoom and pan to fit-to-view, preserving rotation and pivot.
    pub fn zoom_to_fit(&mut self)
        ensures
            *final(self) == (ArrayViewerWidget {
                transform: ViewTransform {
                    zoom: SCALE,
                    pan_offset: crate::geom::Vec2 { x: 0, y: 0 },
                    ..old(self).transform
                },
                ..*old(self)
            }),
            old(self).wf() ==> final(self).wf(),
    {
        self.transform.reset_zoom_and_pan();
    }

    /// Get the current zoom level, times 1000 (1000 = fit to view).
    pub fn zoom_level(&self) -> (r: i64)
        ensures
            r == self.transform.zoom,
    {
        self.transform.zoom
    }

    /// Get the rotation angle in millidegrees.
    pub fn rotation(&self) -> (r: i64)
        ensures
            r == self.transform.rotation_mdeg,
    {
        self.transform.rotation()
    }

    /// Set the rotation angle in millidegrees (counter-clockwise),
    /// normalized as `ViewTransform::set_rotation` does.
    pub fn set_rotation(&mut self, mdeg: i64)
        ensures
            -crate::trig::HALF_TURN_MDEG <= final(self).transform.rotation_mdeg
                <= crate::trig::HALF_TURN_MDEG,
            mdeg >= 0 ==> -crate::trig::HALF_TURN_MDEG < final(self).transform.rotation_mdeg,
            mdeg < 0 ==> final(self).transform.rotation_mdeg < crate::trig::HALF_TURN_MDEG,
            (final(self).transform.rotation_mdeg - mdeg) % (
            crate::transform::FULL_TURN_MDEG as int) == 0,
            final(self).transform.zoom == old(self).transform.zoom,
            final(self).transform.pan_offset == old(self).transform.pan_offset,
            final(self).transform.pivot_point == old(self).transform.pivot_point,
            final(self).transform.show_pivot_marker == old(self).transform.show_pivot_marker,
            *final(self) == (ArrayViewerWidget { transform: final(self).transform, ..*old(self) }),
            old(self).wf() ==> final(self).wf(),
    {
        self.transform.set_rotation(mdeg);
    }

    /// Get the pivot point in milli image coordinates.
    pub fn pivot_point(&self) -> (r: (i64, i64))
        ensures
            r == self.transform.pivot_point,
    {
        self.transform.pivot_point()
    }

    /// Set the pivot point in milli image coordinates.
    pub fn set_pivot_point(&mut self, x: i64, y: i64)
        requires
            coord_in_range(x),
            coord_in_range(y),
        ensures
            *final(self) == (ArrayViewerWidget {
                transform: ViewTransform { pivot_point: (x, y), ..old(self).transform },
                ..*old(self)
            }),
            old(self).wf() ==> final(self).wf(),
    {
        self.transform.set_pivot_point(x, y);
    }

    /// Get whether the pivot marker is shown.
    pub fn show_pivot_marker(&self) -> (r: bool)
        ensures
            r == self.transform.show_pivot_marker,
    {
        self.transform.show_pivot_marker
    }

    /// Set whether the pivot marker is shown.
    pub fn set_show_pivot_marker(&mut self, show: bool)
        ensures
            *final(self) == (ArrayViewerWidget {
                transform: ViewTransform { show_pivot_marker: show, ..old(self).transform },
                ..*old(self)
            }),
            old(self).wf() ==> final(self).wf(),
    {
        self.transform.show_pivot_marker = show;
    }

    /// Whether the pivot point lies within half a pixel of the image center.
    pub open spec fn pivot_at_center_spec(self) -> bool {
        abs_spec(self.transform.pivot_point.0 - 500 * (self.width as int - 1)) < 500 && abs_spec(
            self.transform.pivot_point.1 - 500 * (self.height as int - 1),
        ) < 500
    }

    /// Check if the pivot point is at the image center.
    pub fn is_pivot_at_center(&self) -> (r: bool)
        requires
            self.wf(),
        ensures
            r == self.pivot_at_center_spec(),
    {
        let center_x = 500 * (self.width as i64) - 500;
        let center_y = 500 * (self.height as i64) - 500;
        let (px, py) = self.transform.pivot_point();
        let dx = abs_i64(px - center_x);
        let dy = abs_i64(py - center_y);
        dx < 500 && dy < 500
    }

    /// The scaling range in effect: in symmetric mode it is centered on
    /// zero with magnitude `max(|min|, |max|)`; otherwise the current
    /// limits.
    pub open spec fn scaling_range_spec(self) -> (int, int) {
        if self.symmetric_mode {
            let m = if abs_spec(self.min_val as int) >= abs_spec(self.max_val as int) {
                abs_spec(self.min_val as int)
            } else {
                abs_spec(self.max_val as int)
            };
            (-m, m)
        } else {
            (self.min_val as int, self.max_val as int)
        }
    }

    /// Get the scaling range for the current mode. In symmetric mode the
    /// range is always `(-m, m)` with `m = max(|min|, |max|)`, whatever the
    /// current limits.
    pub fn scaling_range(&self) -> (r: (i64, i64))
        requires
            self.wf(),
        ensures
            (r.0 as int, r.1 as int) == self.scaling_range_spec(),
            value_in_range(r.0) && value_in_range(r.1),
            self.symmetric_mode ==> r.0 == -r.1 && r.1 >= 0,
    {
        if self.symmetric_mode {
            let abs_min = abs_i64(self.min_val);
            let abs_max = abs_i64(self.max_val);
            let m = if abs_min >= abs_max {
                abs_min
            } else {
                abs_max
            };
            (-m, m)
        } else {
            (self.min_val, self.max_val)
        }
    }

    /// Get the raw sample at image coordinates, or `None` when no image is
    /// loaded or the coordinates fall outside it. The inner value is the
    /// sample itself, which may be `None` for a sample that is not a finite
    /// number.
    pub fn get_pixel_value(&self, x: u32, y: u32) -> (r: Option<Option<i64>>)
        requires
            self.wf(),
        ensures
            (self.pixels is Some && x < self.width && y < self.height) ==> r == Some(
                self.pixels_view()[y as int * self.width as int + x as int],
            ),
            !(self.pixels is Some && x < self.width && y < self.height) ==> r is None,
    {
        match &self.pixels {
            Some(pixels) => {
                if x < self.width && y < self.height {
                    let n = pixels.len();
                    proof {
                        assert((y as int) * (self.width as int) + x < (self.width as int)
                            * (self.height as int)) by (nonlinear_arith)
                            requires
                                x < self.width && y < self.height,
                        ;
                    }
                    let idx = (y as usize) * (self.width as usize) + (x as usize);
                    Some(pixels[idx])
                } else {
                    None
                }
            },
            None => None,
        }
    }

    /// Get the current scaling limits.
    pub fn value_range(&self) -> (r: (i64, i64))
        ensures
            r == (self.min_val, self.max_val),
    {
        (self.min_val, self.max_val)
    }

    /// Set the minimum scaling limit; a no-op when unchanged.
    pub fn set_min_val(&mut self, min_val: i64)
        requires
            value_in_range(min_val),
        ensures
            min_val == old(self).min_val ==> *final(self) == *old(self),
            min_val != old(self).min_val ==> *final(self) == (ArrayViewerWidget {
                min_val,
                texture_dirty: true,
                ..*old(self)
            }),
            old(self).wf() ==> final(self).wf(),
    {
        if self.min_val != min_val {
            self.min_val = min_val;
            self.texture_dirty = true;
        }
    }

    /// Set the maximum scaling limit; a no-op when unchanged.
    pub fn set_max_val(&mut self, max_val: i64)
        requires
            value_in_range(max_val),
        ensures
            max_val == old(self).max_val ==> *final(self) == *old(self),
            max_val != old(self).max_val ==> *final(self) == (ArrayViewerWidget {
                max_val,
                texture_dirty: true,
                ..*old(self)
            }),
            old(self).wf() ==> final(self).wf(),
    {
        if self.max_val != max_val {
            self.max_val = max_val;
            self.texture_dirty = true;
        }
    }

    /// Set both scaling limits at once.
    pub fn set_value_range(&mut self, min_val: i64, max_val: i64)
        requires
            value_in_range(min_val),
            value_in_range(max_val),
        ensures
            final(self).min_val == min_val,
            final(self).max_val == max_val,
            final(self).texture_dirty == (old(self).texture_dirty || min_val != old(self).min_val
                || max_val != old(self).max_val),
            *final(self) == (ArrayViewerWidget {
                min_val,
                max_val,
                texture_dirty: final(self).texture_dirty,
                ..*old(self)
            }),
            old(self).wf() ==> final(self).wf(),
    {
        self.set_min_val(min_val);
        self.set_max_val(max_val);
    }

    /// Check if the source data is integer-typed.
    pub fn is_integer(&self) -> (r: bool)
        ensures
            r == self.is_integer,
    {
        self.is_integer
    }

    /// Get the cached hover information.
    pub fn hover_info(&self) -> (r: Option<(u32, u32, Option<i64>)>)
        ensures
            r == self.hover_info,
    {
        self.hover_info
    }

    /// Cache hover information: an image position and the raw sample there.
    pub fn set_hover_info(&mut self, info: Option<(u32, u32, Option<i64>)>)
        ensures
            *final(self) == (ArrayViewerWidget { hover_info: info, ..*old(self) }),
            old(self).wf() ==> final(self).wf(),
    {
        self.hover_info = info;
    }
}

impl ArrayViewerWidget {
    /// Apply the full stretch pipeline to a single sample: normalize
    /// against the scale range, stretch, then contrast/bias. The result
    /// lies in `[0, 1000]` and indexes the colormap.
    pub fn apply_full_stretch(
        &self,
        v: Option<i64>,
        scale_min: i64,
        scale_max: i64,
        cb: ContrastBias,
        stretch_type: StretchType,
    ) -> (r: i64)
        requires
            value_in_range(scale_min),
            value_in_range(scale_max),
            v matches Some(x) ==> -VALUE_LIMIT - SCALE <= x <= VALUE_LIMIT + SCALE,
            cb.wf(),
        ensures
            r == full_stretch_spec(v, scale_min as int, scale_max as int, cb, stretch_type),
            0 <= r <= SCALE,
    {
        apply_full_stretch_value(v, scale_min, scale_max, cb, stretch_type)
    }

    /// Apply the current stretch and contrast/bias to an already normalized
    /// value, as the colorbar legend does (without the reversal step).
    pub fn apply_colorbar_stretch(&self, t: i64) -> (r: i64)
        requires
            self.wf(),
            0 <= t <= SCALE,
        ensures
            r == self.colorbar_stretch_spec(t as int),
            0 <= r <= SCALE,
    {
        let cb = self.current_contrast_bias();
        let stretched = apply_stretch(t, self.stretch_type);
        apply_contrast_bias(stretched, cb.contrast, cb.bias)
    }

    /// What `apply_colorbar_stretch` computes: the current stretch curve
    /// and contrast/bias over an already normalized value.
    pub open spec fn colorbar_stretch_spec(self, t: int) -> int {
        let stretched = if self.stretch_type == StretchType::Linear {
            t
        } else {
            log_stretch_spec(t)
        };
        contrast_bias_spec(
            stretched,
            self.current_contrast_bias_spec().contrast as int,
            self.current_contrast_bias_spec().bias as int,
        )
    }

    /// The color one sample renders to: the full pipeline against the
    /// current scaling range, mode and contrast/bias, the optional
    /// reversal, and the colormap lookup.
    pub open spec fn rendered_pixel_spec(self, v: Option<i64>) -> (int, int, int) {
        let lo = self.scaling_range_spec().0;
        let hi = self.scaling_range_spec().1;
        let t = full_stretch_spec(
            v,
            lo,
            hi,
            self.current_contrast_bias_spec(),
            self.stretch_type,
        );
        let shown = if self.colormap_reversed {
            (SCALE as int) - t
        } else {
            t
        };
        self.colormap_spec().map_spec(shown)
    }

    /// Build the rendered bitmap from the current samples: every sample
    /// through the full pipeline and the colormap, row-major. Returns
    /// `None` when no image is loaded.
    pub fn build_color_image(&self) -> (r: Option<Vec<Rgb>>)
        requires
            self.wf(),
        ensures
            self.pixels is None ==> r is None,
            self.pixels is Some ==> (r matches Some(img) && img@.len()
                == self.pixels_view().len() && (forall|i: int|
                0 <= i < img@.len() ==> ((#[trigger] img@[i]).r as int, img@[i].g as int,
                img@[i].b as int) == self.rendered_pixel_spec(self.pixels_view()[i]))),
    {
        let pixels = match &self.pixels {
            Some(p) => p,
            None => {
                return None;
            },
        };
        let (scale_min, scale_max) = self.scaling_range();
        let cb = self.current_contrast_bias();
        let stretch_type = self.stretch_type;
        let colormap = self.colormap();
        let reversed = self.colormap_reversed;
        let n = pixels.len();
        let mut out: Vec<Rgb> = Vec::new();
        let mut i: usize = 0;
        while i < n
            invariant
                self.wf(),
                self.pixels is Some,
                n == self.pixels_view().len(),
                (scale_min as int, scale_max as int) == self.scaling_range_spec(),
                value_in_range(scale_min) && value_in_range(scale_max),
                cb == self.current_contrast_bias_spec(),
                cb.wf(),
                stretch_type == self.stretch_type,
                colormap == self.colormap_spec(),
                reversed == self.colormap_reversed,
                0 <= i <= n,
                out@.len() == i,
                forall|j: int|
                    0 <= j < i ==> ((#[trigger] out@[j]).r as int, out@[j].g as int,
                    out@[j].b as int) == self.rendered_pixel_spec(self.pixels_view()[j]),
            decreases n - i,
        {
            let pixels_again = match &self.pixels {
                Some(p) => p,
                None => {
                    proof {
                        assert(false);
                    }
                    return None;
                },
            };
            let v = pixels_again[i];
            let t = apply_full_stretch_value(v, scale_min, scale_max, cb, stretch_type);
            let shown = if reversed {
                SCALE - t
            } else {
                t
            };
            let color = colormap.map(shown);
            out.push(color);
            i = i + 1;
        }
        Some(out)
    }

    /// What entry `i` of the colorbar holds: entries run from the top down,
    /// so entry `i` shows the normalized value `(255 - i) / 255` through
    /// the current stretch, contrast/bias, the optional reversal and the
    /// colormap.
    pub open spec fn colorbar_entry_spec(self, i: int) -> (int, int, int) {
        let t = (255 - i) * (SCALE as int) / 255;
        let shaped = self.colorbar_stretch_spec(t);
        let shown = if self.colormap_reversed {
            (SCALE as int) - shaped
        } else {
            shaped
        };
        self.colormap_spec().map_spec(shown)
    }

    /// Build the 256-entry colorbar strip, high values at the top, using
    /// the same stretch, contrast/bias and colormap as the image.
    pub fn build_colorbar_pixels(&self) -> (r: Vec<Rgb>)
        requires
            self.wf(),
        ensures
            r@.len() == 256,
            forall|i: int|
                0 <= i < 256 ==> ((#[trigger] r@[i]).r as int, r@[i].g as int, r@[i].b as int)
                    == self.colorbar_entry_spec(i),
    {
        let mut out: Vec<Rgb> = Vec::new();
        let mut i: usize = 0;
        while i < 256
            invariant
                self.wf(),
                0 <= i <= 256,
                out@.len() == i,
                forall|j: int|
                    0 <= j < i ==> ((#[trigger] out@[j]).r as int, out@[j].g as int,
                    out@[j].b as int) == self.colorbar_entry_spec(j),
            decreases 256 - i,
        {
            let y = 255 - (i as i64);
            proof {
                crate::fixed::lemma_div_in_range(y * SCALE, 255, 255_000);
                vstd::arithmetic::div_mod::lemma_div_pos_is_pos(y * SCALE, 255);
                vstd::arithmetic::div_mod::lemma_div_is_ordered(y * SCALE, 255_000, 255);
                assert(255_000int / 255 == 1000) by {
                    vstd::arithmetic::div_mod::lemma_fundamental_div_mod_converse_div(
                        255_000,
                        255,
                        1000,
                        0,
                    );
                }
            }
            let t = div_floor(y * SCALE, 255);
            let shaped = self.apply_colorbar_stretch(t);
            let shown = if self.colormap_reversed {
                SCALE - shaped
            } else {
                shaped
            };
            let color = self.colormap().map(shown);
            out.push(color);
            i = i + 1;
        }
        out
    }
}

impl ArrayViewerWidget {
    /// The base (fit-to-view) display size of an image inside an available
    /// area, preserving the aspect ratio: the wider shape fills the width,
    /// the taller shape fills the height.
    pub open spec fn fit_display_size_spec(w: int, h: int, avail: Vec2) -> (int, int) {
        if w * avail.y > h * avail.x {
            (avail.x as int, avail.x * h / w)
        } else {
            (avail.y * w / h, avail.y as int)
        }
    }

    /// Compute the fit-to-view display size, in milli-pixels.
    pub fn fit_display_size(image_width: u32, image_height: u32, avail: Vec2) -> (r: Vec2)
        requires
            1 <= image_width <= MAX_IMAGE_DIM,
            1 <= image_height <= MAX_IMAGE_DIM,
            0 <= avail.x <= COORD_LIMIT,
            0 <= avail.y <= COORD_LIMIT,
        ensures
            (r.x as int, r.y as int) == Self::fit_display_size_spec(
                image_width as int,
                image_height as int,
                avail,
            ),
            0 <= r.x <= COORD_LIMIT,
            0 <= r.y <= COORD_LIMIT,
    {
        let w = image_width as i64;
        let h = image_height as i64;
        proof {
            lemma_fit_products_bounded(w as int, h as int, avail.x as int, avail.y as int);
        }
        if w * avail.y > h * avail.x {
            let fitted = div_floor(avail.x * h, w);
            proof {
                vstd::arithmetic::div_mod::lemma_div_pos_is_pos(avail.x * h, w as int);
                vstd::arithmetic::div_mod::lemma_multiply_divide_le(
                    avail.x * h,
                    w as int,
                    avail.y as int,
                );
            }
            Vec2 { x: avail.x, y: fitted }
        } else {
            let fitted = div_floor(avail.y * w, h);
            proof {
                vstd::arithmetic::div_mod::lemma_div_pos_is_pos(avail.y * w, h as int);
                vstd::arithmetic::div_mod::lemma_multiply_divide_le(
                    avail.y * w,
                    h as int,
                    avail.x as int,
                );
            }
            Vec2 { x: fitted, y: avail.y }
        }
    }

    /// One axis of the visible-bounds conversion: the offset of a visible
    /// screen coordinate inside the rect, as milli image pixels, clamped
    /// into the image.
    pub open spec fn bound_coord_spec(off: int, rsize: int, dim: int, flip_hi: bool) -> int {
        let rel = off * (FRAC as int) / rsize;
        let rel_f = if flip_hi {
            (FRAC as int) - rel
        } else {
            rel
        };
        let v = rel_f * (dim * (SCALE as int)) / (FRAC as int);
        clamp_spec(v, 0, dim * (SCALE as int))
    }

    /// What `get_view_bounds` returns: the portion of the image currently
    /// visible in a viewport of the given size, as `(xmin, xmax, ymin,
    /// ymax)` in milli image pixels, with the vertical axis flipped; all
    /// zeros when no image is loaded or nothing of it is visible.
    pub open spec fn view_bounds_spec(self, vw: int, vh: int) -> (int, int, int, int) {
        if self.pixels is None || self.width == 0 || self.height == 0 {
            (0, 0, 0, 0)
        } else {
            let base = Self::fit_display_size_spec(
                self.width as int,
                self.height as int,
                Vec2 { x: vw as i64, y: vh as i64 },
            );
            let rect = self.transform.image_rect_spec(
                Rect { min: Pos2 { x: 0, y: 0 }, size: Vec2 { x: vw as i64, y: vh as i64 } },
                Vec2 { x: base.0 as i64, y: base.1 as i64 },
            );
            if rect.size.x < 1 || rect.size.y < 1 {
                (0, 0, 0, 0)
            } else {
                let vx0 = if rect.min.x >= 0 { rect.min.x as int } else { 0 };
                let vy0 = if rect.min.y >= 0 { rect.min.y as int } else { 0 };
                let vx1 = if rect.min.x + rect.size.x <= vw { rect.min.x + rect.size.x } else { vw };
                let vy1 = if rect.min.y + rect.size.y <= vh { rect.min.y + rect.size.y } else { vh };
                if vx1 - vx0 <= 0 || vy1 - vy0 <= 0 {
                    (0, 0, 0, 0)
                } else {
                    (
                        Self::bound_coord_spec(
                            vx0 - rect.min.x,
                            rect.size.x as int,
                            self.width as int,
                            false,
                        ),
                        Self::bound_coord_spec(
                            vx1 - rect.min.x,
                            rect.size.x as int,
                            self.width as int,
                            false,
                        ),
                        Self::bound_coord_spec(
                            vy1 - rect.min.y,
                            rect.size.y as int,
                            self.height as int,
                            true,
                        ),
                        Self::bound_coord_spec(
                            vy0 - rect.min.y,
                            rect.size.y as int,
                            self.height as int,
                            true,
                        ),
                    )
                }
            }
        }
    }

    /// Get the visible image bounds as `(xmin, xmax, ymin, ymax)` in milli
    /// image pixels: the portion of the image currently inside the
    /// viewport, with the vertical axis flipped so that `ymin` names the
    /// bottom of the visible region. All zeros when no image is loaded or
    /// nothing of it is visible.
    pub fn get_view_bounds(&self, viewport_width: i64, viewport_height: i64) -> (r: (
        i64,
        i64,
        i64,
        i64,
    ))
        requires
            self.wf(),
            1 <= viewport_width <= COORD_LIMIT,
            1 <= viewport_height <= COORD_LIMIT,
        ensures
            (r.0 as int, r.1 as int, r.2 as int, r.3 as int) == self.view_bounds_spec(
                viewport_width as int,
                viewport_height as int,
            ),
    {
        if !self.has_image() || self.width == 0 || self.height == 0 {
            return (0, 0, 0, 0);
        }
        let avail = Vec2 { x: viewport_width, y: viewport_height };
        let base = Self::fit_display_size(self.width, self.height, avail);
        let viewport_rect = Rect { min: Pos2 { x: 0, y: 0 }, size: avail };
        let rect = self.transform.calculate_image_rect(viewport_rect, base);
        if rect.size.x < 1 || rect.size.y < 1 {
            return (0, 0, 0, 0);
        }
        let vx0 = if rect.min.x >= 0 { rect.min.x } else { 0 };
        let vy0 = if rect.min.y >= 0 { rect.min.y } else { 0 };
        let rx1 = rect.min.x + rect.size.x;
        let ry1 = rect.min.y + rect.size.y;
        let vx1 = if rx1 <= viewport_width { rx1 } else { viewport_width };
        let vy1 = if ry1 <= viewport_height { ry1 } else { viewport_height };
        if vx1 - vx0 <= 0 || vy1 - vy0 <= 0 {
            return (0, 0, 0, 0);
        }
        let xmin = Self::bound_coord(vx0 - rect.min.x, rect.size.x, self.width, false);
        let xmax = Self::bound_coord(vx1 - rect.min.x, rect.size.x, self.width, false);
        let ymin = Self::bound_coord(vy1 - rect.min.y, rect.size.y, self.height, true);
        let ymax = Self::bound_coord(vy0 - rect.min.y, rect.size.y, self.height, true);
        (xmin, xmax, ymin, ymax)
    }

    /// One axis of `get_view_bounds`.
    fn bound_coord(off: i64, rsize: i64, dim: u32, flip_hi: bool) -> (r: i64)
        requires
            1 <= rsize <= 50 * COORD_LIMIT,
            0 <= off <= rsize,
            1 <= dim <= MAX_IMAGE_DIM,
        ensures
            r == Self::bound_coord_spec(off as int, rsize as int, dim as int, flip_hi),
            0 <= r <= (dim as int) * (SCALE as int),
    {
        proof {
            crate::fixed::lemma_unit_frac(off as int, rsize as int);
        }
        let rel = div_floor_wide((off as i128) * (FRAC as i128), rsize as i128) as i64;
        let rel_f = if flip_hi {
            FRAC - rel
        } else {
            rel
        };
        let extent = (dim as i64) * SCALE;
        proof {
            assert(0 <= (rel_f as int) * (extent as int) <= 100_000_000_000_000)
                by (nonlinear_arith)
                requires
                    0 <= rel_f <= 1_000_000 && 0 <= extent <= 100_000_000,
            ;
            crate::fixed::lemma_div_in_range(
                (rel_f as int) * (extent as int),
                FRAC as int,
                100_000_000_000_000,
            );
        }
        let v = div_floor(rel_f * extent, FRAC);
        clamp_i64(v, 0, extent)
    }
}

impl ArrayViewerWidget {
    /// The zoom level one axis asks for when fitting a region: the ratio of
    /// image extent to region extent times the ratio of base display extent
    /// to viewport extent, in milli-zoom.
    pub open spec fn bounds_zoom_spec(dim: int, region: int, base: int, vp: int) -> int {
        dim * (SCALE as int) * (SCALE as int) * base / (region * vp)
    }

    /// The zoom that `set_view_bounds` applies: the smaller of the two
    /// per-axis zooms, clamped into the valid range.
    pub open spec fn set_view_zoom_spec(self, region_w: int, region_h: int, vw: int, vh: int)
        -> int {
        let base = Self::fit_display_size_spec(
            self.width as int,
            self.height as int,
            Vec2 { x: vw as i64, y: vh as i64 },
        );
        let zx = Self::bounds_zoom_spec(self.width as int, region_w, base.0, vw);
        let zy = Self::bounds_zoom_spec(self.height as int, region_h, base.1, vh);
        let z = if zx <= zy {
            zx
        } else {
            zy
        };
        clamp_spec(z, crate::transform::MIN_ZOOM as int, crate::transform::MAX_ZOOM as int)
    }

    /// Set the view to show the image region `[xmin, xmax] x [ymin, ymax]`
    /// (milli image pixels): adjusts the zoom to fit the region and pans so
    /// that the region's center sits at the viewport center. A no-op when
    /// no image is loaded or the region is empty.
    pub fn set_view_bounds(
        &mut self,
        xmin: i64,
        xmax: i64,
        ymin: i64,
        ymax: i64,
        viewport_width: i64,
        viewport_height: i64,
    )
        requires
            old(self).wf(),
            0 <= xmin <= (old(self).width as int) * (SCALE as int),
            0 <= xmax <= (old(self).width as int) * (SCALE as int),
            0 <= ymin <= (old(self).height as int) * (SCALE as int),
            0 <= ymax <= (old(self).height as int) * (SCALE as int),
            1 <= viewport_width <= COORD_LIMIT,
            1 <= viewport_height <= COORD_LIMIT,
        ensures
            (old(self).pixels is None || old(self).width == 0 || old(self).height == 0 || xmax
                <= xmin || ymax <= ymin) ==> *final(self) == *old(self),
            !(old(self).pixels is None || old(self).width == 0 || old(self).height == 0 || xmax
                <= xmin || ymax <= ymin) ==> ({
                let z = old(self).set_view_zoom_spec(
                    xmax - xmin,
                    ymax - ymin,
                    viewport_width as int,
                    viewport_height as int,
                );
                let base = Self::fit_display_size_spec(
                    old(self).width as int,
                    old(self).height as int,
                    Vec2 { x: viewport_width, y: viewport_height },
                );
                *final(self) == (ArrayViewerWidget {
                    transform: ViewTransform {
                        zoom: z as i64,
                        pan_offset: crate::geom::Vec2 {
                            x: ViewTransform::center_pan_spec(
                                (xmin + xmax) / 2,
                                (old(self).width as int) * (SCALE as int),
                                viewport_width as int,
                                base.0,
                                z,
                            ) as i64,
                            y: ViewTransform::center_pan_spec(
                                (old(self).height as int) * (SCALE as int) - (ymin + ymax) / 2,
                                (old(self).height as int) * (SCALE as int),
                                viewport_height as int,
                                base.1,
                                z,
                            ) as i64,
                        },
                        ..old(self).transform
                    },
                    ..*old(self)
                })
            }),
            final(self).wf(),
    {
        if !self.has_image() || self.width == 0 || self.height == 0 {
            return ;
        }
        let region_w = xmax - xmin;
        let region_h = ymax - ymin;
        if region_w <= 0 || region_h <= 0 {
            return ;
        }
        let avail = Vec2 { x: viewport_width, y: viewport_height };
        let base = Self::fit_display_size(self.width, self.height, avail);
        let zx = Self::bounds_zoom(self.width, region_w, base.x, viewport_width);
        let zy = Self::bounds_zoom(self.height, region_h, base.y, viewport_height);
        let z_raw = if zx <= zy {
            zx
        } else {
            zy
        };
        let zoom = clamp_i64(z_raw, crate::transform::MIN_ZOOM, crate::transform::MAX_ZOOM);
        let cx = div_floor(xmin + xmax, 2);
        let cy = div_floor(ymin + ymax, 2);
        self.transform.zoom = zoom;
        let base_rect = Rect { min: Pos2 { x: 0, y: 0 }, size: base };
        self.transform.center_on_image_point(
            Pos2 { x: cx, y: cy },
            Vec2 { x: (self.width as i64) * SCALE, y: (self.height as i64) * SCALE },
            avail,
            base_rect,
        );
    }

    /// One axis of the zoom required to fit a region, saturated far above
    /// the zoom clamp.
    fn bounds_zoom(dim: u32, region: i64, base: i64, vp: i64) -> (r: i64)
        requires
            1 <= dim <= MAX_IMAGE_DIM,
            1 <= region <= (dim as int) * (SCALE as int),
            0 <= base <= COORD_LIMIT,
            1 <= vp <= COORD_LIMIT,
        ensures
            Self::bounds_zoom_spec(dim as int, region as int, base as int, vp as int)
                <= 1_000_000_000 ==> r == Self::bounds_zoom_spec(
                dim as int,
                region as int,
                base as int,
                vp as int,
            ),
            Self::bounds_zoom_spec(dim as int, region as int, base as int, vp as int)
                > 1_000_000_000 ==> r == 1_000_000_000,
            0 <= r <= 1_000_000_000,
    {
        proof {
            assert((dim as int) * (SCALE as int) <= 100_000_000) by (nonlinear_arith)
                requires
                    1 <= dim <= 100_000,
            ;
            lemma_bounds_zoom_products(dim as int, region as int, base as int, vp as int);
        }
        let num: i128 = (dim as i128) * 1_000_000i128 * (base as i128);
        let den: i128 = (region as i128) * (vp as i128);
        let q = div_floor_wide(num, den);
        if q > 1_000_000_000i128 {
            1_000_000_000
        } else {
            q as i64
        }
    }
}

/// The products of the per-axis zoom computation stay inside `i128` and
/// the quotient is nonnegative.
proof fn lemma_bounds_zoom_products(dim: int, region: int, base: int, vp: int)
    requires
        1 <= dim <= MAX_IMAGE_DIM,
        1 <= region <= 100_000_000,
        0 <= base <= COORD_LIMIT,
        1 <= vp <= COORD_LIMIT,
    ensures
        0 <= dim * (SCALE as int) * (SCALE as int) * base
            <= 100_000_000_000_000_000_000_000,
        1 <= region * vp <= 100_000_000_000_000_000_000,
        0 <= dim * (SCALE as int) * (SCALE as int) * base / (region * vp),
        dim * 1_000_000 * base == dim * (SCALE as int) * (SCALE as int) * base,
{
    assert(0 <= dim * (SCALE as int) * (SCALE as int) * base
        <= 100_000_000_000_000_000_000_000 && dim * 1_000_000 * base == dim * (SCALE as int) * (
    SCALE as int) * base && 1 <= region * vp <= 100_000_000_000_000_000_000)
        by (nonlinear_arith)
        requires
            1 <= dim <= 100_000 && 0 <= base <= COORD_LIMIT && 1 <= region <= 100_000_000 && 1
                <= vp <= COORD_LIMIT,
    ;
    vstd::arithmetic::div_mod::lemma_div_pos_is_pos(
        dim * (SCALE as int) * (SCALE as int) * base,
        region * vp,
    );
}

/// The aspect cross-products stay inside `i64`.
proof fn lemma_fit_products_bounded(w: int, h: int, ax: int, ay: int)
    requires
        1 <= w <= MAX_IMAGE_DIM,
        1 <= h <= MAX_IMAGE_DIM,
        0 <= ax <= COORD_LIMIT,
        0 <= ay <= COORD_LIMIT,
    ensures
        0 <= w * ay <= 100_000 * COORD_LIMIT,
        0 <= h * ax <= 100_000 * COORD_LIMIT,
        0 <= ax * h <= 100_000 * COORD_LIMIT,
        0 <= ay * w <= 100_000 * COORD_LIMIT,
        w * ay > h * ax ==> ax * h / w <= ay,
        !(w * ay > h * ax) ==> ay * w / h <= ax,
{
    assert(0 <= w * ay <= 100_000 * COORD_LIMIT && 0 <= h * ax <= 100_000 * COORD_LIMIT && 0 <= ax
        * h <= 100_000 * COORD_LIMIT && 0 <= ay * w <= 100_000 * COORD_LIMIT)
        by (nonlinear_arith)
        requires
            1 <= w <= 100_000 && 1 <= h <= 100_000 && 0 <= ax <= COORD_LIMIT && 0 <= ay
                <= COORD_LIMIT,
    ;
    if w * ay > h * ax {
        assert(ax * h <= w * ay) by (nonlinear_arith)
            requires
                h * ax < w * ay,
        ;
        vstd::arithmetic::div_mod::lemma_multiply_divide_le(ax * h, w, ay);
    } else {
        assert(ay * w <= h * ax) by (nonlinear_arith)
            requires
                w * ay <= h * ax,
        ;
        vstd::arithmetic::div_mod::lemma_multiply_divide_le(ay * w, h, ax);
    }
}

/// Whether a scaling limit is within the accepted magnitude (one widening
/// step beyond the raw sample limit).
pub open spec fn value_in_range(v: i64) -> bool {
    -VALUE_LIMIT - SCALE <= v <= VALUE_LIMIT + SCALE
}

} // verus!
