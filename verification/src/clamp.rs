//! A continuity-preserving boundary-reflection ("bouncing") clamp, used by
//! the scenario harness instead of hard clipping. Where hard clipping would
//! introduce an instantaneous jump that a real aircraft cannot produce, the
//! bounce reflects an excursion off the violated boundary by the same
//! magnitude it crossed the boundary by, bounded so the output never
//! exceeds the opposite boundary in one step.
use vstd::prelude::*;

verus! {

/// Magnitude bound on clamp operands; keeps every reflection free of
/// overflow in 64-bit arithmetic, far beyond any physical flight value.
pub const CLAMP_BOUND: i64 = 0x2000_0000_0000_0000;

/// Reflection off a floor: a value below `floor` bounces back above it by
/// the magnitude of the excursion; a value at or above passes unchanged.
pub open spec fn bounce_at_least(v: int, floor: int) -> int {
    if v >= floor {
        v
    } else {
        floor + (floor - v)
    }
}

/// Reflection off a ceiling: a value above `ceiling` bounces back below it
/// by the magnitude of the excursion; a value at or below passes unchanged.
pub open spec fn bounce_at_most(v: int, ceiling: int) -> int {
    if v <= ceiling {
        v
    } else {
        ceiling - (v - ceiling)
    }
}

/// Reflection into `[lo, hi]`: a value outside bounces off the violated
/// boundary, capped at the opposite boundary; a value inside is unchanged.
pub open spec fn bounce_in_range(v: int, lo: int, hi: int) -> int {
    if v < lo {
        if lo + (lo - v) > hi {
            hi
        } else {
            lo + (lo - v)
        }
    } else if v > hi {
        if hi - (v - hi) < lo {
            lo
        } else {
            hi - (v - hi)
        }
    } else {
        v
    }
}

/// Reflection out of `[lo, hi]`: a value inside the band bounces outward
/// off the nearer boundary, just clearing it; a value outside is unchanged.
pub open spec fn bounce_not_in_range(v: int, lo: int, hi: int) -> int {
    if v < lo || v > hi {
        v
    } else if v - lo <= hi - v {
        lo - 1 - (v - lo)
    } else {
        hi + 1 + (hi - v)
    }
}

/// The bounded-perturbation primitive behind the harness's constraint
/// transforms. Its lifecycle is scoped to one mould and it is reset per
/// scenario run.
pub struct BouncingClamp();

impl BouncingClamp {
    /// Force `value` to at least `floor` by bouncing an excursion below
    /// `floor` back above it.
    pub fn at_least(&mut self, value: &mut i64, floor: i64)
        requires
            -CLAMP_BOUND <= *old(value) <= CLAMP_BOUND,
            -CLAMP_BOUND <= floor <= CLAMP_BOUND,
        ensures
            *final(value) == bounce_at_least(*old(value) as int, floor as int),
            *final(value) >= floor,
    {
        if *value < floor {
            *value = floor + (floor - *value);
        }
    }

    /// Force `value` to at most `ceiling` by bouncing an excursion above
    /// `ceiling` back below it.
    pub fn at_most(&mut self, value: &mut i64, ceiling: i64)
        requires
            -CLAMP_BOUND <= *old(value) <= CLAMP_BOUND,
            -CLAMP_BOUND <= ceiling <= CLAMP_BOUND,
        ensures
            *final(value) == bounce_at_most(*old(value) as int, ceiling as int),
            *final(value) <= ceiling,
    {
        if *value > ceiling {
            *value = ceiling - (*value - ceiling);
        }
    }

    /// Force `value` into `[lo, hi]` by bouncing off whichever boundary is
    /// violated, never past the opposite boundary.
    pub fn in_range(&mut self, value: &mut i64, lo: i64, hi: i64)
        requires
            lo <= hi,
            -CLAMP_BOUND <= *old(value) <= CLAMP_BOUND,
            -CLAMP_BOUND <= lo <= CLAMP_BOUND,
            -CLAMP_BOUND <= hi <= CLAMP_BOUND,
        ensures
            *final(value) == bounce_in_range(*old(value) as int, lo as int, hi as int),
            lo <= *final(value) <= hi,
    {
        if *value < lo {
            let bounced = lo + (lo - *value);
            *value = if bounced > hi {
                hi
            } else {
                bounced
            };
        } else if *value > hi {
            let bounced = hi - (*value - hi);
            *value = if bounced < lo {
                lo
            } else {
                bounced
            };
        }
    }

    /// Force `value` out of `[lo, hi]` by bouncing outward off the nearer
    /// boundary.
    pub fn not_in_range(&mut self, value: &mut i64, lo: i64, hi: i64)
        requires
            lo <= hi,
            -CLAMP_BOUND <= *old(value) <= CLAMP_BOUND,
            -CLAMP_BOUND <= lo <= CLAMP_BOUND,
            -CLAMP_BOUND <= hi <= CLAMP_BOUND,
        ensures
            *final(value) == bounce_not_in_range(*old(value) as int, lo as int, hi as int),
            *final(value) < lo || *final(value) > hi,
    {
        if lo <= *value && *value <= hi {
            if *value - lo <= hi - *value {
                *value = lo - 1 - (*value - lo);
            } else {
                *value = hi + 1 + (hi - *value);
            }
        }
    }
}

/// Bounce continuity for the floor constraint: a value already at or above
/// the floor passes through unchanged; a violating value moves strictly
/// upward, lands at or above the floor, and overshoots the floor by
/// exactly the magnitude of the excursion that crossed below it.
pub proof fn lemma_at_least_continuity(v: int, floor: int)
    ensures
        v >= floor ==> bounce_at_least(v, floor) == v,
        v < floor ==> bounce_at_least(v, floor) > v,
        v < floor ==> bounce_at_least(v, floor) >= floor,
        v < floor ==> bounce_at_least(v, floor) - floor == floor - v,
{
}

/// Bounce continuity for the ceiling constraint, mirror image of the floor
/// law.
pub proof fn lemma_at_most_continuity(v: int, ceiling: int)
    ensures
        v <= ceiling ==> bounce_at_most(v, ceiling) == v,
        v > ceiling ==> bounce_at_most(v, ceiling) < v,
        v > ceiling ==> bounce_at_most(v, ceiling) <= ceiling,
        v > ceiling ==> ceiling - bounce_at_most(v, ceiling) == v - ceiling,
{
}

/// Band-membership law for the range constraint: the result always lies in
/// `[lo, hi]` when the unconstrained input does not, and equals the input
/// when the input already lies in `[lo, hi]`.
pub proof fn lemma_in_range_membership(v: int, lo: int, hi: int)
    requires
        lo <= hi,
    ensures
        lo <= v <= hi ==> bounce_in_range(v, lo, hi) == v,
        !(lo <= v <= hi) ==> lo <= bounce_in_range(v, lo, hi) <= hi,
{
}

/// Band-exclusion law for the inverted range constraint: the result always
/// lies outside `[lo, hi]` when the input lies inside, and equals the
/// input when the input already lies outside.
pub proof fn lemma_not_in_range_exclusion(v: int, lo: int, hi: int)
    requires
        lo <= hi,
    ensures
        (v < lo || v > hi) ==> bounce_not_in_range(v, lo, hi) == v,
        lo <= v <= hi ==> (bounce_not_in_range(v, lo, hi) < lo || bounce_not_in_range(v, lo, hi) > hi),
{
}

} // verus!
