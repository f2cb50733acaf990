//! The value-stretch pipeline: normalization of a raw sample into the unit
//! range, a stretch curve (linear or logarithmic), and a contrast/bias
//! transform, all in fixed point scaled by 1000.

use vstd::prelude::*;

use crate::fixed::{clamp_i64, clamp_spec, div_floor, SCALE, VALUE_LIMIT};

verus! {

/// Default contrast value, times 1000.
pub const DEFAULT_CONTRAST: i64 = 1000;

/// Default bias value, times 1000.
pub const DEFAULT_BIAS: i64 = 500;

/// Maximum contrast value, times 1000 (the classic 0 to 10 range).
pub const MAX_CONTRAST: i64 = 10_000;

/// Minimum contrast value.
pub const MIN_CONTRAST: i64 = 0;

/// Stretch function type.
#[derive(Clone, Copy, Debug, PartialEq, Eq, Structural)]
pub enum StretchType {
    Linear,
    Log,
}

impl Default for StretchType {
    fn default() -> (r: Self)
        ensures
            r == StretchType::Linear,
    {
        StretchType::Linear
    }
}

/// A display mode: the stretch curve, or the symmetric mode that overrides
/// it with a range centered on zero.
#[derive(Clone, Copy, Debug, PartialEq, Eq, Structural)]
pub enum StretchMode {
    Linear,
    Log,
    Symmetric,
}

/// Contrast and bias settings for a stretch mode, times 1000.
#[derive(Clone, Copy, Debug, PartialEq, Eq, Structural)]
pub struct ContrastBias {
    pub contrast: i64,
    pub bias: i64,
}

impl ContrastBias {
    /// The valid domains: contrast in `[0, 10]`, bias in `[0, 1]`.
    pub open spec fn wf(self) -> bool {
        MIN_CONTRAST <= self.contrast <= MAX_CONTRAST && 0 <= self.bias <= SCALE
    }

    /// Whether both values are at their defaults, within a thousandth; in
    /// fixed point only the exact defaults qualify.
    pub fn is_default(&self) -> (r: bool)
        ensures
            r == (self.contrast == DEFAULT_CONTRAST && self.bias == DEFAULT_BIAS),
    {
        self.contrast == DEFAULT_CONTRAST && self.bias == DEFAULT_BIAS
    }
}

impl Default for ContrastBias {
    fn default() -> (r: Self)
        ensures
            r == (ContrastBias { contrast: DEFAULT_CONTRAST, bias: DEFAULT_BIAS }),
            r.wf(),
    {
        ContrastBias { contrast: DEFAULT_CONTRAST, bias: DEFAULT_BIAS }
    }
}

/// One linear segment of the logarithmic stretch table, evaluated at `x`.
pub open spec fn seg_spec(x: int, x0: int, y0: int, x1: int, y1: int) -> int {
    y0 + (x - x0) * (y1 - y0) / (x1 - x0)
}

/// The logarithmic stretch curve on the unit range times 1000: a piecewise
/// linear table through `1000 * log10(x + 1) / 3` at the knots
/// 0, 1, 3, 7, ..., 511, 1000, so that an input of 0 gives exactly 0 and an
/// input of 1000 gives exactly 1000. It compresses the bright end of the
/// dynamic range as the classic `log10(1000 t + 1) / log10(1000)` curve
/// does.
pub open spec fn log_stretch_spec(x: int) -> int {
    if x < 1 {
        seg_spec(x, 0, 0, 1, 100)
    } else if x < 3 {
        seg_spec(x, 1, 100, 3, 201)
    } else if x < 7 {
        seg_spec(x, 3, 201, 7, 301)
    } else if x < 15 {
        seg_spec(x, 7, 301, 15, 401)
    } else if x < 31 {
        seg_spec(x, 15, 401, 31, 502)
    } else if x < 63 {
        seg_spec(x, 31, 502, 63, 602)
    } else if x < 127 {
        seg_spec(x, 63, 602, 127, 702)
    } else if x < 255 {
        seg_spec(x, 127, 702, 255, 803)
    } else if x < 511 {
        seg_spec(x, 255, 803, 511, 903)
    } else {
        seg_spec(x, 511, 903, 1000, 1000)
    }
}

/// Evaluate one linear segment; the result stays between the segment's end
/// values.
fn seg_eval(x: i64, x0: i64, y0: i64, x1: i64, y1: i64) -> (r: i64)
    requires
        x0 <= x <= x1,
        x0 < x1,
        0 <= y0 <= y1,
        x1 - x0 <= SCALE,
        y1 - y0 <= SCALE,
        y1 <= SCALE,
    ensures
        r == seg_spec(x as int, x0 as int, y0 as int, x1 as int, y1 as int),
        y0 <= r <= y1,
{
    proof {
        assert(0 <= (x - x0) * (y1 - y0) <= 1_000_000) by (nonlinear_arith)
            requires
                0 <= x - x0 <= 1000 && 0 <= y1 - y0 <= 1000,
        ;
        vstd::arithmetic::mul::lemma_mul_nonnegative((x - x0) as int, (y1 - y0) as int);
        vstd::arithmetic::div_mod::lemma_div_pos_is_pos(
            (x - x0) * (y1 - y0),
            (x1 - x0) as int,
        );
        vstd::arithmetic::mul::lemma_mul_inequality(
            (x - x0) as int,
            (x1 - x0) as int,
            (y1 - y0) as int,
        );
        vstd::arithmetic::div_mod::lemma_multiply_divide_le(
            (x - x0) * (y1 - y0),
            (x1 - x0) as int,
            (y1 - y0) as int,
        );
    }
    y0 + div_floor((x - x0) * (y1 - y0), x1 - x0)
}

/// Apply the stretch curve to a normalized value in `[0, 1000]`. The linear
/// stretch is the identity; the logarithmic stretch maps 0 to 0 and 1000 to
/// 1000 and compresses the bright end.
pub fn apply_stretch(x: i64, stretch_type: StretchType) -> (r: i64)
    requires
        0 <= x <= SCALE,
    ensures
        stretch_type == StretchType::Linear ==> r == x,
        stretch_type == StretchType::Log ==> r == log_stretch_spec(x as int),
        0 <= r <= SCALE,
        x == 0 ==> r == 0,
        x == SCALE ==> r == SCALE,
{
    match stretch_type {
        StretchType::Linear => x,
        StretchType::Log => {
            let r = if x < 1 {
                seg_eval(x, 0, 0, 1, 100)
            } else if x < 3 {
                seg_eval(x, 1, 100, 3, 201)
            } else if x < 7 {
                seg_eval(x, 3, 201, 7, 301)
            } else if x < 15 {
                seg_eval(x, 7, 301, 15, 401)
            } else if x < 31 {
                seg_eval(x, 15, 401, 31, 502)
            } else if x < 63 {
                seg_eval(x, 31, 502, 63, 602)
            } else if x < 127 {
                seg_eval(x, 63, 602, 127, 702)
            } else if x < 255 {
                seg_eval(x, 127, 702, 255, 803)
            } else if x < 511 {
                seg_eval(x, 255, 803, 511, 903)
            } else {
                seg_eval(x, 511, 903, 1000, 1000)
            };
            proof {
                if x == 0 {
                    assert(0 * 100 == 0) by (nonlinear_arith);
                    vstd::arithmetic::div_mod::lemma_div_of0(1);
                }
                if x == SCALE {
                    assert(489 * 97 / 489 == 97) by {
                        assert(489 * 97 == 97 * 489) by (nonlinear_arith);
                        vstd::arithmetic::div_mod::lemma_div_multiples_vanish(97, 489);
                    }
                }
            }
            r
        },
    }
}

/// The contrast/bias transform: `clamp((x - bias) * contrast + 1/2, 0, 1)`
/// in unit terms, fixed point times 1000.
pub open spec fn contrast_bias_spec(x: int, contrast: int, bias: int) -> int {
    clamp_spec((x - bias) * contrast / (SCALE as int) + 500, 0, SCALE as int)
}

/// Apply the contrast/bias transform to a stretched value in `[0, 1000]`.
pub fn apply_contrast_bias(x: i64, contrast: i64, bias: i64) -> (r: i64)
    requires
        0 <= x <= SCALE,
        MIN_CONTRAST <= contrast <= MAX_CONTRAST,
        0 <= bias <= SCALE,
    ensures
        r == contrast_bias_spec(x as int, contrast as int, bias as int),
        0 <= r <= SCALE,
{
    proof {
        assert(-10_000_000 <= (x - bias) * contrast <= 10_000_000) by (nonlinear_arith)
            requires
                -1000 <= x - bias <= 1000 && 0 <= contrast <= 10_000,
        ;
        vstd::arithmetic::div_mod::lemma_div_is_ordered(
            -10_000_000,
            (x - bias) * contrast,
            SCALE as int,
        );
        vstd::arithmetic::div_mod::lemma_div_is_ordered(
            (x - bias) * contrast,
            10_000_000,
            SCALE as int,
        );
        vstd::arithmetic::div_mod::lemma_div_multiples_vanish(-10_000, SCALE as int);
        vstd::arithmetic::div_mod::lemma_div_multiples_vanish(10_000, SCALE as int);
        assert((SCALE as int) * -10_000 == -10_000_000);
        assert((SCALE as int) * 10_000 == 10_000_000);
    }
    let shaped = div_floor((x - bias) * contrast, SCALE) + 500;
    clamp_i64(shaped, 0, SCALE)
}

/// The normalization of a raw sample into `[0, 1000]`: a sample that is not
/// a finite number, or a scale range that does not exceed zero, normalizes
/// to 0 and renders as the lowest colormap entry.
pub open spec fn normalized_spec(v: Option<i64>, lo: int, hi: int) -> int {
    match v {
        Some(x) => if hi - lo >= 1 {
            clamp_spec((x - lo) * (SCALE as int) / (hi - lo), 0, SCALE as int)
        } else {
            0
        },
        None => 0,
    }
}

/// Normalize a raw sample against the scale range `[lo, hi]`.
pub fn normalize(v: Option<i64>, lo: i64, hi: i64) -> (r: i64)
    requires
        -VALUE_LIMIT - SCALE <= lo <= VALUE_LIMIT + SCALE,
        -VALUE_LIMIT - SCALE <= hi <= VALUE_LIMIT + SCALE,
        v matches Some(x) ==> -VALUE_LIMIT - SCALE <= x <= VALUE_LIMIT + SCALE,
    ensures
        r == normalized_spec(v, lo as int, hi as int),
        0 <= r <= SCALE,
{
    match v {
        Some(x) => {
            if hi - lo >= 1 {
                proof {
                    assert(-4_010_000_000_000_000_000 <= (x - lo) * (SCALE as int)
                        <= 4_010_000_000_000_000_000) by (nonlinear_arith)
                        requires
                            -4_000_000_000_000_000 - 10_000 <= x - lo <= 4_000_000_000_000_000
                                + 10_000,
                    ;
                }
                let t = div_floor((x - lo) * SCALE, hi - lo);
                clamp_i64(t, 0, SCALE)
            } else {
                0
            }
        },
        None => 0,
    }
}

/// The full pipeline on one sample: normalize, stretch, then contrast/bias.
pub open spec fn full_stretch_spec(
    v: Option<i64>,
    lo: int,
    hi: int,
    cb: ContrastBias,
    st: StretchType,
) -> int {
    let t = normalized_spec(v, lo, hi);
    let stretched = if st == StretchType::Linear {
        t
    } else {
        log_stretch_spec(t)
    };
    contrast_bias_spec(stretched, cb.contrast as int, cb.bias as int)
}

/// Apply the full stretch pipeline to a single sample; the result lies in
/// `[0, 1000]` and indexes the colormap.
pub fn apply_full_stretch_value(v: Option<i64>, lo: i64, hi: i64, cb: ContrastBias, st: StretchType)
    -> (r: i64)
    requires
        -VALUE_LIMIT - SCALE <= lo <= VALUE_LIMIT + SCALE,
        -VALUE_LIMIT - SCALE <= hi <= VALUE_LIMIT + SCALE,
        v matches Some(x) ==> -VALUE_LIMIT - SCALE <= x <= VALUE_LIMIT + SCALE,
        cb.wf(),
    ensures
        r == full_stretch_spec(v, lo as int, hi as int, cb, st),
        0 <= r <= SCALE,
{
    let t = normalize(v, lo, hi);
    let stretched = apply_stretch(t, st);
    apply_contrast_bias(stretched, cb.contrast, cb.bias)
}

/// A sample that is not a finite number renders as the lowest colormap
/// entry under default contrast and bias, whatever the scale range and the
/// stretch curve.
pub proof fn lemma_nonfinite_renders_lowest(lo: int, hi: int, st: StretchType)
    ensures
        full_stretch_spec(
            None,
            lo,
            hi,
            ContrastBias { contrast: DEFAULT_CONTRAST, bias: DEFAULT_BIAS },
            st,
        ) == 0,
{
    assert(normalized_spec(None, lo, hi) == 0);
    if st == StretchType::Log {
        assert(log_stretch_spec(0) == 0) by {
            assert(0 * 100 == 0) by (nonlinear_arith);
            vstd::arithmetic::div_mod::lemma_div_of0(1);
        }
    }
    assert((0 - 500) * 1000 / 1000 == -500) by {
        assert((0 - 500) * 1000 == 1000 * -500) by (nonlinear_arith);
        vstd::arithmetic::div_mod::lemma_div_multiples_vanish(-500, 1000);
    }
}

} // verus!
