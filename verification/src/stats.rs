//! Image statistics: the minimum and maximum over the finite samples of a
//! buffer, with a degenerate-range fallback. A sample that is not a finite
//! number is held as `None` and ignored.

use vstd::prelude::*;

use crate::fixed::{SCALE, VALUE_LIMIT};

verus! {

/// The minimum over the finite samples, folded from the left; the sentinel
/// `VALUE_LIMIT + 1` stands for "no finite sample seen".
pub open spec fn min_fold(s: Seq<Option<i64>>) -> int
    decreases s.len(),
{
    if s.len() == 0 {
        VALUE_LIMIT + 1
    } else {
        let rest = min_fold(s.drop_last());
        match s.last() {
            Some(v) => if v < rest {
                v as int
            } else {
                rest
            },
            None => rest,
        }
    }
}

/// The maximum over the finite samples, folded from the left; the sentinel
/// `-(VALUE_LIMIT + 1)` stands for "no finite sample seen".
pub open spec fn max_fold(s: Seq<Option<i64>>) -> int
    decreases s.len(),
{
    if s.len() == 0 {
        -VALUE_LIMIT - 1
    } else {
        let rest = max_fold(s.drop_last());
        match s.last() {
            Some(v) => if v > rest {
                v as int
            } else {
                rest
            },
            None => rest,
        }
    }
}

/// Whether any sample is a finite number.
pub open spec fn has_finite(s: Seq<Option<i64>>) -> bool {
    exists|i: int| 0 <= i < s.len() && s[i] is Some
}

/// What `compute` returns: the minimum and maximum over the finite samples;
/// `(0, 1)` when there are none; and when the range collapses, the maximum
/// widened to one unit above the minimum.
pub open spec fn stats_spec(s: Seq<Option<i64>>) -> (int, int) {
    if !has_finite(s) {
        (0, SCALE as int)
    } else {
        let mn = min_fold(s);
        let mx = max_fold(s);
        if mx == mn {
            (mn, mn + SCALE)
        } else {
            (mn, mx)
        }
    }
}

/// Whether every finite sample is within the accepted magnitude.
pub open spec fn samples_in_range(s: Seq<Option<i64>>) -> bool {
    forall|i: int|
        0 <= i < s.len() ==> (#[trigger] s[i] matches Some(v) ==> -VALUE_LIMIT <= v
            <= VALUE_LIMIT)
}

/// Compute the scaling range of a buffer: the minimum and maximum over its
/// finite samples, `(0, 1)` when no sample is finite, and the maximum
/// widened to one unit above the minimum when the range collapses. A pure
/// function of the input.
pub fn compute(samples: &Vec<Option<i64>>) -> (r: (i64, i64))
    requires
        samples_in_range(samples@),
    ensures
        (r.0 as int, r.1 as int) == stats_spec(samples@),
        r.0 < r.1,
        -VALUE_LIMIT <= r.0 <= VALUE_LIMIT,
        -VALUE_LIMIT <= r.1 <= VALUE_LIMIT + SCALE,
{
    let ghost s = samples@;
    let mut mn: i64 = VALUE_LIMIT + 1;
    let mut mx: i64 = -VALUE_LIMIT - 1;
    let mut i: usize = 0;
    while i < samples.len()
        invariant
            0 <= i <= s.len(),
            s == samples@,
            samples_in_range(s),
            mn == min_fold(s.take(i as int)),
            mx == max_fold(s.take(i as int)),
            -VALUE_LIMIT <= mn <= VALUE_LIMIT + 1,
            -VALUE_LIMIT - 1 <= mx <= VALUE_LIMIT,
            has_finite(s.take(i as int)) <==> mn <= VALUE_LIMIT,
            has_finite(s.take(i as int)) <==> mx >= -VALUE_LIMIT,
            mn <= VALUE_LIMIT ==> mn <= mx,
        decreases s.len() - i,
    {
        proof {
            assert(s.take(i + 1).drop_last() =~= s.take(i as int));
            assert(s.take(i + 1).last() == s[i as int]);
            if s[i as int] is Some {
                assert(has_finite(s.take(i + 1)));
            } else {
                assert forall|j: int| 0 <= j < i + 1 && #[trigger] s.take(i + 1)[j] is Some
                    implies has_finite(s.take(i as int)) by {
                    assert(j < i && s.take(i as int)[j] is Some);
                }
            }
        }
        match samples[i] {
            Some(v) => {
                if v < mn {
                    mn = v;
                }
                if v > mx {
                    mx = v;
                }
            },
            None => {},
        }
        i = i + 1;
    }
    proof {
        assert(s.take(s.len() as int) =~= s);
    }
    if mn > VALUE_LIMIT {
        (0, SCALE)
    } else if mx == mn {
        (mn, mn + SCALE)
    } else {
        (mn, mx)
    }
}

} // verus!
