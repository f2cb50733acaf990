//! Fixed-point sine and cosine on millidegrees.
//!
//! Angles are `i64` millidegrees, results are scaled by 1000 (so 1000 stands
//! for 1.0). The sine of an angle in `[0, 180]` degrees is computed with
//! Bhaskara's rational approximation `4x(180-x) / (40500 - x(180-x))` (`x` in
//! degrees), which is exact at 0, 30, 90, 150 and 180 degrees and within
//! 0.0017 of the true sine everywhere on that range; negative angles use the
//! sine's point symmetry and the cosine is the sine of the complement.

use vstd::prelude::*;

use crate::fixed::div_floor;

verus! {

/// Half turn in millidegrees.
pub const HALF_TURN_MDEG: i64 = 180_000;

/// Quarter turn in millidegrees.
pub const QUARTER_TURN_MDEG: i64 = 90_000;

/// Bhaskara's approximation of `1000 * sin(x)` for `x` in `[0, 180_000]`
/// millidegrees.
pub open spec fn sin_half_turn(x: int) -> int {
    4000 * x * (180_000 - x) / (40_500_000_000 - x * (180_000 - x))
}

/// `1000 * sin(a)` for `a` in `[-180_000, 180_000]` millidegrees.
pub open spec fn sin_mdeg_spec(a: int) -> int {
    if a < 0 {
        -sin_half_turn(-a)
    } else {
        sin_half_turn(a)
    }
}

/// `1000 * cos(a)` for `a` in `[-180_000, 180_000]` millidegrees.
pub open spec fn cos_mdeg_spec(a: int) -> int {
    if a < 0 {
        sin_mdeg_spec(QUARTER_TURN_MDEG + a)
    } else {
        sin_mdeg_spec(QUARTER_TURN_MDEG - a)
    }
}

/// The numerator and denominator of Bhaskara's formula stay well inside
/// `i64`, the denominator is positive, and the quotient lies in `[0, 1000]`.
pub proof fn lemma_sin_half_turn_range(x: int)
    requires
        0 <= x <= 180_000,
    ensures
        0 <= sin_half_turn(x) <= 1000,
{
    let t = x * (180_000 - x);
    assert(0 <= t <= 8_100_000_000) by (nonlinear_arith)
        requires
            t == x * (180_000 - x) && 0 <= x <= 180_000,
    ;
    let num = 4000 * x * (180_000 - x);
    let den = 40_500_000_000 - t;
    assert(num == 4000 * t) by (nonlinear_arith)
        requires
            t == x * (180_000 - x) && num == 4000 * x * (180_000 - x),
    ;
    assert(den >= 32_400_000_000);
    vstd::arithmetic::div_mod::lemma_div_pos_is_pos(num, den);
    assert(num <= 1000 * den) by (nonlinear_arith)
        requires num == 4000 * t && den == 40_500_000_000 - t && 0 <= t <= 8_100_000_000;
    vstd::arithmetic::div_mod::lemma_div_is_ordered(num, 1000 * den, den);
    vstd::arithmetic::div_mod::lemma_div_multiples_vanish(1000, den);
}

/// Range of the sine: `[-1000, 1000]`.
pub proof fn lemma_sin_mdeg_range(a: int)
    requires
        -180_000 <= a <= 180_000,
    ensures
        -1000 <= sin_mdeg_spec(a) <= 1000,
{
    if a < 0 {
        lemma_sin_half_turn_range(-a);
    } else {
        lemma_sin_half_turn_range(a);
    }
}

/// Range of the cosine: `[-1000, 1000]`.
pub proof fn lemma_cos_mdeg_range(a: int)
    requires
        -180_000 <= a <= 180_000,
    ensures
        -1000 <= cos_mdeg_spec(a) <= 1000,
{
    if a < 0 {
        lemma_sin_mdeg_range(QUARTER_TURN_MDEG + a);
    } else {
        lemma_sin_mdeg_range(QUARTER_TURN_MDEG - a);
    }
}

/// The sine is odd and the cosine even in the angle.
pub proof fn lemma_trig_negation(a: int)
    requires
        -180_000 <= a <= 180_000,
    ensures
        sin_mdeg_spec(-a) == -sin_mdeg_spec(a),
        cos_mdeg_spec(-a) == cos_mdeg_spec(a),
{
}

/// The sine is symmetric about the quarter turn: supplementary angles have
/// the same sine, exactly, in this fixed-point form.
pub proof fn lemma_sin_half_symmetry(a: int)
    ensures
        sin_half_turn(a) == sin_half_turn(180_000 - a),
{
    assert(4000 * a * (180_000 - a) == 4000 * (180_000 - a) * (180_000 - (180_000 - a)))
        by (nonlinear_arith);
    assert(a * (180_000 - a) == (180_000 - a) * (180_000 - (180_000 - a))) by (nonlinear_arith);
}

/// The fixed-point sine and cosine have nearly unit norm: for every angle
/// the squared norm lies within half a percent above and nine tenths of a
/// percent below one. This is what makes rotating and then un-rotating
/// about the same center nearly the identity.
pub proof fn lemma_trig_norm(a: int)
    requires
        -180_000 <= a <= 180_000,
    ensures
        ({
            let s = sin_mdeg_spec(a);
            let c = cos_mdeg_spec(a);
            991_000 <= c * c + s * s <= 1_000_500
        }),
{
    let s = sin_mdeg_spec(a);
    let c = cos_mdeg_spec(a);
    if 0 <= a <= 90_000 {
        lemma_half_pair_norm(a);
    } else if a > 90_000 {
        let x = 180_000 - a;
        lemma_sin_half_symmetry(a);
        assert(s == sin_half_turn(x));
        assert(c == -sin_half_turn(90_000 - x));
        assert(c * c == sin_half_turn(90_000 - x) * sin_half_turn(90_000 - x))
            by (nonlinear_arith)
            requires
                c == -sin_half_turn(90_000 - x),
        ;
        lemma_half_pair_norm(x);
    } else if -90_000 <= a {
        let x = -a;
        assert(s == -sin_half_turn(x));
        assert(c == sin_half_turn(90_000 - x));
        assert(s * s == sin_half_turn(x) * sin_half_turn(x)) by (nonlinear_arith)
            requires
                s == -sin_half_turn(x),
        ;
        lemma_half_pair_norm(x);
    } else {
        let x = 180_000 + a;
        lemma_sin_half_symmetry(-a);
        assert(s == -sin_half_turn(x));
        assert(c == -sin_half_turn(90_000 - x));
        assert(s * s == sin_half_turn(x) * sin_half_turn(x) && c * c == sin_half_turn(90_000 - x)
            * sin_half_turn(90_000 - x)) by (nonlinear_arith)
            requires
                s == -sin_half_turn(x) && c == -sin_half_turn(90_000 - x),
        ;
        lemma_half_pair_norm(x);
    }
}

/// One half-pair of the norm bound: the Bhaskara sine of an angle and of
/// its complement, floored to milli-units, have a squared sum within half a
/// percent above and nine tenths of a percent below one. The proof clears
/// the two denominators and reduces the claim, by the symmetry about the
/// quarter turn, to a pair of quartic inequalities in the squared offset
/// from 45 degrees.
proof fn lemma_half_pair_norm(x: int)
    requires
        0 <= x <= 90_000,
    ensures
        ({
            let s = sin_half_turn(x);
            let c = sin_half_turn(90_000 - x);
            991_000 <= s * s + c * c <= 1_000_500
        }),
{
    let t = x * (180_000 - x);
    let u = (90_000 - x) * (180_000 - (90_000 - x));
    let d1 = 40_500_000_000 - t;
    let d2 = 40_500_000_000 - u;
    lemma_sin_half_turn_range(x);
    lemma_sin_half_turn_range(90_000 - x);
    let s = sin_half_turn(x);
    let c = sin_half_turn(90_000 - x);
    assert(0 <= t <= 8_100_000_000 && 0 <= u <= 8_100_000_000) by (nonlinear_arith)
        requires
            t == x * (180_000 - x) && u == (90_000 - x) * (180_000 - (90_000 - x)) && 0 <= x
                <= 90_000,
    ;
    assert(4000 * x * (180_000 - x) == 4000 * t) by (nonlinear_arith)
        requires
            t == x * (180_000 - x),
    ;
    assert(4000 * (90_000 - x) * (180_000 - (90_000 - x)) == 4000 * u) by (nonlinear_arith)
        requires
            u == (90_000 - x) * (180_000 - (90_000 - x)),
    ;
    assert(s == 4000 * t / d1);
    assert(c == 4000 * u / d2);
    vstd::arithmetic::mul::lemma_mul_nonnegative(4000, t);
    vstd::arithmetic::div_mod::lemma_fundamental_div_mod(4000 * t, d1);
    vstd::arithmetic::div_mod::lemma_mod_division_less_than_divisor(4000 * t, d1);
    let r1 = (4000 * t) % d1;
    vstd::arithmetic::div_mod::lemma_fundamental_div_mod(4000 * u, d2);
    vstd::arithmetic::div_mod::lemma_mod_division_less_than_divisor(4000 * u, d2);
    let r2 = (4000 * u) % d2;
    assert(s * d1 <= 4000 * t && 4000 * t < (s + 1) * d1) by (nonlinear_arith)
        requires
            4000 * t == d1 * s + r1 && 0 <= r1 < d1,
    ;
    assert(c * d2 <= 4000 * u && 4000 * u < (c + 1) * d2) by (nonlinear_arith)
        requires
            4000 * u == d2 * c + r2 && 0 <= r2 < d2,
    ;
    // substitution symmetric about the quarter turn
    let z = x - 45_000;
    let w = z * z;
    assert(0 <= w <= 2_025_000_000) by (nonlinear_arith)
        requires
            w == z * z && -45_000 <= z <= 45_000,
    ;
    let aa = 6_075_000_000 - w;
    let dd = 34_425_000_000 + w;
    let b = 90_000 * z;
    assert(t == aa + b && u == aa - b && d1 == dd - b && d2 == dd + b) by (nonlinear_arith)
        requires
            t == x * (180_000 - x) && u == (90_000 - x) * (180_000 - (90_000 - x)) && d1
                == 40_500_000_000 - t && d2 == 40_500_000_000 - u && z == x - 45_000 && w == z
                * z && aa == 6_075_000_000 - w && dd == 34_425_000_000 + w && b == 90_000 * z,
    ;
    let p = aa * dd + b * b;
    let q2 = 13_286_025_000_000_000_000_000_000_000_000 * w;
    let g = dd * dd - b * b;
    assert(b * b == 8_100_000_000 * w) by (nonlinear_arith)
        requires
            b == 90_000 * z && w == z * z,
    ;
    assert(p == (6_075_000_000 - w) * (34_425_000_000 + w) + 8_100_000_000 * w) by (nonlinear_arith)
        requires
            p == aa * dd + b * b && aa == 6_075_000_000 - w && dd == 34_425_000_000 + w && b * b
                == 8_100_000_000 * w,
    ;
    assert(g == (34_425_000_000 + w) * (34_425_000_000 + w) - 8_100_000_000 * w)
        by (nonlinear_arith)
        requires
            g == dd * dd - b * b && dd == 34_425_000_000 + w && b * b == 8_100_000_000 * w,
    ;
    // the norm inequality of the exact quotients, as quartics in w
    assert(32_000_000 * (p * p + q2) >= 996_000 * (g * g)) by (nonlinear_arith)
        requires
            p == (6_075_000_000 - w) * (34_425_000_000 + w) + 8_100_000_000 * w && q2
                == 13_286_025_000_000_000_000_000_000_000_000 * w && g == (34_425_000_000 + w) * (
            34_425_000_000 + w) - 8_100_000_000 * w && 0 <= w <= 2_025_000_000,
    ;
    assert(32_000_000 * (p * p + q2) <= 1_000_500 * (g * g)) by (nonlinear_arith)
        requires
            p == (6_075_000_000 - w) * (34_425_000_000 + w) + 8_100_000_000 * w && q2
                == 13_286_025_000_000_000_000_000_000_000_000 * w && g == (34_425_000_000 + w) * (
            34_425_000_000 + w) - 8_100_000_000 * w && 0 <= w <= 2_025_000_000,
    ;
    // tie the quartics back to the quotient sandwiches
    assert(t * d2 == p + 40_500_000_000 * b && u * d1 == p - 40_500_000_000 * b && d1 * d2 == g)
        by (nonlinear_arith)
        requires
            t == aa + b && u == aa - b && d1 == dd - b && d2 == dd + b && p == aa * dd + b * b
                && g == dd * dd - b * b && aa + dd == 40_500_000_000,
    ;
    assert(q2 == 1_640_250_000_000_000_000_000 * (b * b)) by (nonlinear_arith)
        requires
            q2 == 13_286_025_000_000_000_000_000_000_000_000 * w && b * b == 8_100_000_000 * w,
    ;
    assert((t * d2) * (t * d2) + (u * d1) * (u * d1) == 2 * (p * p) + 2 * q2) by (nonlinear_arith)
        requires
            t * d2 == p + 40_500_000_000 * b && u * d1 == p - 40_500_000_000 * b && q2
                == 1_640_250_000_000_000_000_000 * (b * b),
    ;
    assert(g > 0) by (nonlinear_arith)
        requires
            g == d1 * d2 && d1 > 0 && d2 > 0,
    ;
    assert(32_000_000 * (p * p + q2) == 16_000_000 * ((t * d2) * (t * d2)) + 16_000_000 * ((u
        * d1) * (u * d1))) by (nonlinear_arith)
        requires
            (t * d2) * (t * d2) + (u * d1) * (u * d1) == 2 * (p * p) + 2 * q2,
    ;
    // upper bound on the floored norm
    assert((s * s) * (g * g) <= 16_000_000 * ((t * d2) * (t * d2))) by (nonlinear_arith)
        requires
            s * d1 <= 4000 * t && 0 <= s && 0 < d1 && 0 < d2 && g == d1 * d2 && 0 <= t,
    ;
    assert((c * c) * (g * g) <= 16_000_000 * ((u * d1) * (u * d1))) by (nonlinear_arith)
        requires
            c * d2 <= 4000 * u && 0 <= c && 0 < d1 && 0 < d2 && g == d1 * d2 && 0 <= u,
    ;
    assert(s * s + c * c <= 1_000_500) by (nonlinear_arith)
        requires
            (s * s) * (g * g) + (c * c) * (g * g) <= 32_000_000 * (p * p + q2) && 32_000_000 * (p
                * p + q2) <= 1_000_500 * (g * g) && g > 0,
    ;
    // lower bound on the floored norm
    assert(16_000_000 * ((t * d2) * (t * d2)) <= ((s + 1) * (s + 1)) * (g * g))
        by (nonlinear_arith)
        requires
            4000 * t < (s + 1) * d1 && 0 <= s && 0 < d1 && 0 < d2 && g == d1 * d2 && 0 <= t,
    ;
    assert(16_000_000 * ((u * d1) * (u * d1)) <= ((c + 1) * (c + 1)) * (g * g))
        by (nonlinear_arith)
        requires
            4000 * u < (c + 1) * d2 && 0 <= c && 0 < d1 && 0 < d2 && g == d1 * d2 && 0 <= u,
    ;
    assert((s + 1) * (s + 1) + (c + 1) * (c + 1) >= 996_000) by (nonlinear_arith)
        requires
            996_000 * (g * g) <= 32_000_000 * (p * p + q2) && 32_000_000 * (p * p + q2) <= ((s
                + 1) * (s + 1)) * (g * g) + ((c + 1) * (c + 1)) * (g * g) && g > 0,
    ;
    assert(s * s + c * c >= 991_000) by (nonlinear_arith)
        requires
            (s + 1) * (s + 1) + (c + 1) * (c + 1) >= 996_000 && 0 <= s <= 1000 && 0 <= c <= 1000,
    ;
}

/// `1000 * sin(a)` for `a` in millidegrees between a negative and a positive
/// half turn.
pub fn sin_mdeg(a: i64) -> (r: i64)
    requires
        -HALF_TURN_MDEG <= a <= HALF_TURN_MDEG,
    ensures
        r == sin_mdeg_spec(a as int),
        -1000 <= r <= 1000,
{
    proof {
        lemma_sin_mdeg_range(a as int);
    }
    if a < 0 {
        -sin_nonneg(-a)
    } else {
        sin_nonneg(a)
    }
}

/// `1000 * cos(a)` for `a` in millidegrees between a negative and a positive
/// half turn.
pub fn cos_mdeg(a: i64) -> (r: i64)
    requires
        -HALF_TURN_MDEG <= a <= HALF_TURN_MDEG,
    ensures
        r == cos_mdeg_spec(a as int),
        -1000 <= r <= 1000,
{
    proof {
        lemma_cos_mdeg_range(a as int);
    }
    if a < 0 {
        sin_mdeg(QUARTER_TURN_MDEG + a)
    } else {
        sin_mdeg(QUARTER_TURN_MDEG - a)
    }
}

/// Bhaskara's formula on `[0, 180_000]` millidegrees.
fn sin_nonneg(x: i64) -> (r: i64)
    requires
        0 <= x <= HALF_TURN_MDEG,
    ensures
        r == sin_half_turn(x as int),
        0 <= r <= 1000,
{
    proof {
        lemma_sin_half_turn_range(x as int);
        assert(0 <= x as int * (180_000 - x as int) <= 8_100_000_000) by (nonlinear_arith)
            requires
                0 <= x <= 180_000,
        ;
    }
    let t = x * (HALF_TURN_MDEG - x);
    proof {
        assert(4000 * (x as int) * (180_000 - x as int) == 4000 * (t as int)) by (nonlinear_arith)
            requires
                t == x * (180_000 - x),
        ;
    }
    let num = 4000 * t;
    let den = 40_500_000_000 - t;
    div_floor(num, den)
}

} // verus!
