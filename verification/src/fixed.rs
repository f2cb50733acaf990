//! Fixed-point arithmetic helpers.
//!
//! Continuous quantities (screen coordinates, zoom levels, rotation angles,
//! sample values) are represented as `i64` values scaled by [`SCALE`]
//! (milli-units). Relative positions inside a rect use the finer scale
//! [`FRAC`]. All divisions round toward negative infinity, which coincides
//! with the mathematical (Euclidean) `/` of specifications when the divisor
//! is positive.

use vstd::prelude::*;

verus! {

/// Fixed-point scale for coordinates, zoom and sample values: 1000 units = 1.0.
pub const SCALE: i64 = 1000;

/// Fixed-point scale for relative positions inside a rect: 1_000_000 units = 1.0.
pub const FRAC: i64 = 1_000_000;

/// Largest magnitude accepted for a screen or image coordinate (in milli-pixels).
/// Keeps every intermediate product of the coordinate math inside `i64`/`i128`.
pub const COORD_LIMIT: i64 = 1_000_000_000_000;

/// Largest magnitude accepted for a pan offset fed into the zoom math.
pub const PAN_LIMIT: i64 = 1_000_000_000_000_000;

/// Largest magnitude accepted for a raw sample value (in milli-units).
pub const VALUE_LIMIT: i64 = 1_000_000_000_000_000;

/// Largest image dimension (in whole pixels) the coordinate math accepts.
pub const MAX_IMAGE_DIM: u32 = 100_000;

/// True when `x` is small enough to take part in the coordinate math.
pub open spec fn coord_in_range(x: i64) -> bool {
    -COORD_LIMIT <= x <= COORD_LIMIT
}

/// Rust's truncating division, adjusted to round toward negative infinity,
/// agrees with the Euclidean `/` of specifications when the divisor is positive.
proof fn lemma_trunc_to_floor(a: int, b: int)
    requires
        1 <= b,
        a < 0,
    ensures
        (-a) % b != 0 ==> a / b == -((-a) / b) - 1 && (-a) / b < -a,
        (-a) % b == 0 ==> a / b == -((-a) / b),
{
    let n = -a;
    let qe = n / b;
    let re = n % b;
    vstd::arithmetic::div_mod::lemma_fundamental_div_mod(n, b);
    vstd::arithmetic::div_mod::lemma_mod_division_less_than_divisor(n, b);
    vstd::arithmetic::div_mod::lemma_div_pos_is_pos(n, b);
    if re != 0 {
        assert(a == (-qe - 1) * b + (b - re)) by (nonlinear_arith)
            requires n == b * qe + re && a == -n;
        vstd::arithmetic::div_mod::lemma_fundamental_div_mod_converse_div(a, b, -qe - 1, b - re);
        assert(qe < n) by (nonlinear_arith)
            requires n == b * qe + re && 1 <= re && 1 <= b && 0 <= qe;
    } else {
        assert(a == (-qe) * b + 0) by (nonlinear_arith)
            requires n == b * qe && a == -n;
        vstd::arithmetic::div_mod::lemma_fundamental_div_mod_converse_div(a, b, -qe, 0);
    }
}

/// Floor division: rounds toward negative infinity.
/// For a positive divisor this is exactly the `/` of specifications.
pub fn div_floor(a: i64, b: i64) -> (r: i64)
    requires
        1 <= b,
    ensures
        r == a as int / b as int,
{
    let q = a / b;
    let rem = a % b;
    if rem != 0 && a < 0 {
        proof {
            lemma_trunc_to_floor(a as int, b as int);
        }
        q - 1
    } else {
        proof {
            if a < 0 {
                lemma_trunc_to_floor(a as int, b as int);
            }
        }
        q
    }
}

/// Floor division on `i128` intermediates.
pub fn div_floor_wide(a: i128, b: i128) -> (r: i128)
    requires
        1 <= b,
    ensures
        r == a as int / b as int,
{
    let q = a / b;
    let rem = a % b;
    if rem != 0 && a < 0 {
        proof {
            lemma_trunc_to_floor(a as int, b as int);
        }
        q - 1
    } else {
        proof {
            if a < 0 {
                lemma_trunc_to_floor(a as int, b as int);
            }
        }
        q
    }
}

/// The quotient of a bounded value by a positive divisor stays within the
/// same bound.
pub proof fn lemma_div_in_range(a: int, b: int, m: int)
    requires
        1 <= b,
        1 <= m,
        -m <= a <= m,
    ensures
        -m <= a / b <= m,
{
    vstd::arithmetic::div_mod::lemma_fundamental_div_mod(a, b);
    vstd::arithmetic::div_mod::lemma_mod_division_less_than_divisor(a, b);
    assert(-m <= a / b <= m) by (nonlinear_arith)
        requires
            a == b * (a / b) + a % b && 0 <= a % b < b && 1 <= b && 1 <= m && -m <= a <= m,
    ;
}

/// A fraction of a full extent lies in the unit range: for an offset
/// between zero and the extent, `num * FRAC / den` lies in `[0, FRAC]`.
pub proof fn lemma_unit_frac(num: int, den: int)
    requires
        0 <= num <= den,
        1 <= den,
    ensures
        0 <= num * (FRAC as int) / den <= FRAC,
{
    vstd::arithmetic::mul::lemma_mul_nonnegative(num, FRAC as int);
    vstd::arithmetic::div_mod::lemma_div_pos_is_pos(num * (FRAC as int), den);
    vstd::arithmetic::mul::lemma_mul_inequality(num, den, FRAC as int);
    vstd::arithmetic::div_mod::lemma_multiply_divide_le(num * (FRAC as int), den, FRAC as int);
}

/// Clamp `x` into `[lo, hi]`.
pub fn clamp_i64(x: i64, lo: i64, hi: i64) -> (r: i64)
    requires
        lo <= hi,
    ensures
        r == clamp_spec(x as int, lo as int, hi as int),
{
    if x < lo {
        lo
    } else if x > hi {
        hi
    } else {
        x
    }
}

/// The mathematical clamp of `x` into `[lo, hi]`.
pub open spec fn clamp_spec(x: int, lo: int, hi: int) -> int {
    if x < lo {
        lo
    } else if x > hi {
        hi
    } else {
        x
    }
}

/// Absolute value; the argument may not be `i64::MIN`.
pub fn abs_i64(x: i64) -> (r: i64)
    requires
        x != i64::MIN,
    ensures
        r == abs_spec(x as int),
{
    if x < 0 {
        -x
    } else {
        x
    }
}

/// The mathematical absolute value.
pub open spec fn abs_spec(x: int) -> int {
    if x < 0 {
        -x
    } else {
        x
    }
}

} // verus!
