//! Colormaps: a directly computed grayscale ramp, and four palettes defined
//! by piecewise linear gradients over 256 entries, classified as standard or
//! diverging. Diverging palettes are meant for symmetric (signed) data.

use vstd::prelude::*;

use crate::fixed::{clamp_spec, div_floor, SCALE};

verus! {

/// An RGB color, one byte per channel.
#[derive(Clone, Copy, Debug, PartialEq, Eq, Structural)]
pub struct Rgb {
    pub r: u8,
    pub g: u8,
    pub b: u8,
}

/// Available colormap types.
#[derive(Clone, Copy, Debug, PartialEq, Eq, Structural)]
pub enum Colormap {
    Grayscale,
    Inferno,
    Magma,
    /// Diverging colormap, only available in symmetric mode.
    RdBu,
    /// Diverging colormap, only available in symmetric mode.
    RdYlBu,
}

impl Default for Colormap {
    fn default() -> (r: Self)
        ensures
            r == Colormap::Grayscale,
    {
        Colormap::Grayscale
    }
}

impl Colormap {
    /// Get the display name.
    pub fn name(&self) -> (r: &'static str)
        ensures
            r@ == self.name_spec(),
    {
        match self {
            Colormap::Grayscale => "Gray",
            Colormap::Inferno => "Inferno",
            Colormap::Magma => "Magma",
            Colormap::RdBu => "RdBu",
            Colormap::RdYlBu => "RdYlBu",
        }
    }

    /// The display name of each palette.
    pub open spec fn name_spec(self) -> Seq<char> {
        match self {
            Colormap::Grayscale => "Gray"@,
            Colormap::Inferno => "Inferno"@,
            Colormap::Magma => "Magma"@,
            Colormap::RdBu => "RdBu"@,
            Colormap::RdYlBu => "RdYlBu"@,
        }
    }

    /// Whether this is a diverging colormap (requires symmetric mode).
    pub fn is_diverging(&self) -> (r: bool)
        ensures
            r == self.is_diverging_spec(),
    {
        match self {
            Colormap::RdBu | Colormap::RdYlBu => true,
            _ => false,
        }
    }

    /// The static classification: exactly the two blue-to-red palettes are
    /// diverging.
    pub open spec fn is_diverging_spec(self) -> bool {
        self == Colormap::RdBu || self == Colormap::RdYlBu
    }

    /// All non-diverging colormaps.
    pub fn standard_colormaps() -> (r: Vec<Colormap>)
        ensures
            r@ =~= seq![Colormap::Grayscale, Colormap::Inferno, Colormap::Magma],
    {
        let mut v: Vec<Colormap> = Vec::new();
        v.push(Colormap::Grayscale);
        v.push(Colormap::Inferno);
        v.push(Colormap::Magma);
        v
    }

    /// The diverging colormaps (for symmetric mode).
    pub fn diverging_colormaps() -> (r: Vec<Colormap>)
        ensures
            r@ =~= seq![Colormap::RdBu, Colormap::RdYlBu],
    {
        let mut v: Vec<Colormap> = Vec::new();
        v.push(Colormap::RdBu);
        v.push(Colormap::RdYlBu);
        v
    }

    /// The table index a normalized value selects: `floor(t * 255)` over the
    /// unit range, in `[0, 255]`.
    pub open spec fn lut_index_spec(t: int) -> int {
        clamp_spec(t, 0, SCALE as int) * 255 / (SCALE as int)
    }

    /// The color of each palette at a normalized value `t` in `[0, 1000]`:
    /// grayscale is `round(t * 255)` on every channel; every other palette
    /// samples its 256-entry gradient at `lut_index_spec(t)`, nearest
    /// neighbor without interpolation between entries.
    pub open spec fn map_spec(self, t: int) -> (int, int, int) {
        if self == Colormap::Grayscale {
            let v = (clamp_spec(t, 0, SCALE as int) * 510 + 1000) / 2000;
            (v, v, v)
        } else {
            palette_color_spec(self, Self::lut_index_spec(t))
        }
    }

    /// Map a normalized value in `[0, 1000]` to a color.
    pub fn map(&self, t: i64) -> (r: Rgb)
        requires
            0 <= t <= SCALE,
        ensures
            (r.r as int, r.g as int, r.b as int) == self.map_spec(t as int),
    {
        match self {
            Colormap::Grayscale => {
                proof {
                    lemma_gray_round_range(t as int);
                }
                let v = div_floor(t * 510 + 1000, 2000) as u8;
                Rgb { r: v, g: v, b: v }
            },
            _ => {
                proof {
                    lemma_lut_index_range(t as int);
                }
                let idx = div_floor(t * 255, SCALE);
                palette_color(*self, idx)
            },
        }
    }
}

/// The rounded grayscale level lies in `[0, 255]`.
proof fn lemma_gray_round_range(t: int)
    requires
        0 <= t <= SCALE,
    ensures
        0 <= (t * 510 + 1000) / 2000 <= 255,
{
    vstd::arithmetic::div_mod::lemma_div_pos_is_pos(t * 510 + 1000, 2000);
    vstd::arithmetic::div_mod::lemma_div_is_ordered(t * 510 + 1000, 511_000, 2000);
    assert(511_000int / 2000 == 255) by {
        vstd::arithmetic::div_mod::lemma_fundamental_div_mod_converse_div(511_000, 2000, 255, 1000);
    }
}

/// The table index lies in `[0, 255]`.
proof fn lemma_lut_index_range(t: int)
    requires
        0 <= t <= SCALE,
    ensures
        0 <= t * 255 / (SCALE as int) <= 255,
        Colormap::lut_index_spec(t) == t * 255 / (SCALE as int),
{
    vstd::arithmetic::mul::lemma_mul_nonnegative(t, 255);
    vstd::arithmetic::div_mod::lemma_div_pos_is_pos(t * 255, SCALE as int);
    vstd::arithmetic::mul::lemma_mul_inequality(t, SCALE as int, 255);
    vstd::arithmetic::div_mod::lemma_multiply_divide_le(t * 255, SCALE as int, 255);
}

/// The gradient anchor colors of each non-grayscale palette, at the five
/// table entries 0, 64, 128, 192 and 255.
pub open spec fn palette_anchor_spec(cm: Colormap, k: int) -> (int, int, int) {
    match cm {
        Colormap::Inferno => if k <= 0 {
            (0, 0, 4)
        } else if k == 1 {
            (87, 16, 110)
        } else if k == 2 {
            (188, 55, 84)
        } else if k == 3 {
            (249, 142, 9)
        } else {
            (252, 255, 164)
        },
        Colormap::Magma => if k <= 0 {
            (0, 0, 4)
        } else if k == 1 {
            (81, 18, 124)
        } else if k == 2 {
            (183, 55, 121)
        } else if k == 3 {
            (252, 137, 97)
        } else {
            (252, 253, 191)
        },
        Colormap::RdBu => if k <= 0 {
            (103, 0, 31)
        } else if k == 1 {
            (214, 96, 77)
        } else if k == 2 {
            (247, 247, 247)
        } else if k == 3 {
            (67, 147, 195)
        } else {
            (5, 48, 97)
        },
        Colormap::RdYlBu => if k <= 0 {
            (165, 0, 38)
        } else if k == 1 {
            (244, 109, 67)
        } else if k == 2 {
            (255, 255, 191)
        } else if k == 3 {
            (116, 173, 209)
        } else {
            (49, 54, 149)
        },
        Colormap::Grayscale => (0, 0, 0),
    }
}

/// The linear interpolation of one channel between the anchors that bracket
/// the index.
pub open spec fn lerp_spec(idx: int, a: int, b: int, c0: int, c1: int) -> int {
    c0 + (idx - a) * (c1 - c0) / (b - a)
}

/// The gradient color of a palette at a table index in `[0, 255]`.
pub open spec fn palette_color_spec(cm: Colormap, idx: int) -> (int, int, int) {
    let k: int = if idx < 64 {
        0
    } else if idx < 128 {
        1
    } else if idx < 192 {
        2
    } else {
        3
    };
    let a = 64 * k;
    let b = if k == 3 {
        255
    } else {
        64 * (k + 1)
    };
    let c0 = palette_anchor_spec(cm, k);
    let c1 = palette_anchor_spec(cm, k + 1);
    (
        lerp_spec(idx, a, b, c0.0, c1.0),
        lerp_spec(idx, a, b, c0.1, c1.1),
        lerp_spec(idx, a, b, c0.2, c1.2),
    )
}

/// The anchor colors of each palette, as executable values.
fn palette_anchor(cm: Colormap, k: i64) -> (r: (i64, i64, i64))
    ensures
        (r.0 as int, r.1 as int, r.2 as int) == palette_anchor_spec(cm, k as int),
        0 <= r.0 <= 255 && 0 <= r.1 <= 255 && 0 <= r.2 <= 255,
{
    match cm {
        Colormap::Inferno => if k <= 0 {
            (0, 0, 4)
        } else if k == 1 {
            (87, 16, 110)
        } else if k == 2 {
            (188, 55, 84)
        } else if k == 3 {
            (249, 142, 9)
        } else {
            (252, 255, 164)
        },
        Colormap::Magma => if k <= 0 {
            (0, 0, 4)
        } else if k == 1 {
            (81, 18, 124)
        } else if k == 2 {
            (183, 55, 121)
        } else if k == 3 {
            (252, 137, 97)
        } else {
            (252, 253, 191)
        },
        Colormap::RdBu => if k <= 0 {
            (103, 0, 31)
        } else if k == 1 {
            (214, 96, 77)
        } else if k == 2 {
            (247, 247, 247)
        } else if k == 3 {
            (67, 147, 195)
        } else {
            (5, 48, 97)
        },
        Colormap::RdYlBu => if k <= 0 {
            (165, 0, 38)
        } else if k == 1 {
            (244, 109, 67)
        } else if k == 2 {
            (255, 255, 191)
        } else if k == 3 {
            (116, 173, 209)
        } else {
            (49, 54, 149)
        },
        Colormap::Grayscale => (0, 0, 0),
    }
}

/// Interpolate one channel; the result stays between the two anchor values.
fn lerp_channel(idx: i64, a: i64, b: i64, c0: i64, c1: i64) -> (r: i64)
    requires
        a <= idx <= b,
        a < b,
        b - a <= 255,
        0 <= c0 <= 255,
        0 <= c1 <= 255,
    ensures
        r == lerp_spec(idx as int, a as int, b as int, c0 as int, c1 as int),
        0 <= r <= 255,
{
    proof {
        lemma_lerp_range(idx as int, a as int, b as int, c0 as int, c1 as int);
    }
    c0 + div_floor((idx - a) * (c1 - c0), b - a)
}

/// The interpolated channel stays between the two anchor values.
proof fn lemma_lerp_range(idx: int, a: int, b: int, c0: int, c1: int)
    requires
        a <= idx <= b,
        a < b,
        b - a <= 255,
        0 <= c0 <= 255,
        0 <= c1 <= 255,
    ensures
        -65_025 <= (idx - a) * (c1 - c0) <= 65_025,
        c1 >= c0 ==> 0 <= (idx - a) * (c1 - c0) / (b - a) <= c1 - c0,
        c1 < c0 ==> c1 - c0 <= (idx - a) * (c1 - c0) / (b - a) <= 0,
{
    assert(-65_025 <= (idx - a) * (c1 - c0) <= 65_025) by (nonlinear_arith)
        requires
            0 <= idx - a <= 255 && -255 <= c1 - c0 <= 255,
    ;
    if c1 >= c0 {
        vstd::arithmetic::mul::lemma_mul_nonnegative(idx - a, c1 - c0);
        vstd::arithmetic::div_mod::lemma_div_pos_is_pos((idx - a) * (c1 - c0), b - a);
        vstd::arithmetic::mul::lemma_mul_inequality(idx - a, b - a, c1 - c0);
        vstd::arithmetic::div_mod::lemma_multiply_divide_le(
            (idx - a) * (c1 - c0),
            b - a,
            c1 - c0,
        );
    } else {
        assert((b - a) * (c1 - c0) <= (idx - a) * (c1 - c0) <= 0) by (nonlinear_arith)
            requires
                0 <= idx - a <= b - a && c1 - c0 < 0,
        ;
        vstd::arithmetic::div_mod::lemma_div_is_ordered(
            (b - a) * (c1 - c0),
            (idx - a) * (c1 - c0),
            b - a,
        );
        vstd::arithmetic::div_mod::lemma_div_is_ordered((idx - a) * (c1 - c0), 0, b - a);
        vstd::arithmetic::div_mod::lemma_div_of0(b - a);
        assert((b - a) * (c1 - c0) / (b - a) == c1 - c0) by {
            vstd::arithmetic::div_mod::lemma_div_multiples_vanish(c1 - c0, b - a);
        }
    }
}

/// The gradient color of a palette at a table index.
fn palette_color(cm: Colormap, idx: i64) -> (r: Rgb)
    requires
        0 <= idx <= 255,
    ensures
        (r.r as int, r.g as int, r.b as int) == palette_color_spec(cm, idx as int),
{
    let k: i64 = if idx < 64 {
        0
    } else if idx < 128 {
        1
    } else if idx < 192 {
        2
    } else {
        3
    };
    let a = 64 * k;
    let b = if k == 3 {
        255
    } else {
        64 * (k + 1)
    };
    let c0 = palette_anchor(cm, k);
    let c1 = palette_anchor(cm, k + 1);
    let red = lerp_channel(idx, a, b, c0.0, c1.0);
    let green = lerp_channel(idx, a, b, c0.1, c1.1);
    let blue = lerp_channel(idx, a, b, c0.2, c1.2);
    Rgb { r: red as u8, g: green as u8, b: blue as u8 }
}

} // verus!
