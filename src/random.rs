//! Uniform integer sampling with a dead zone around zero.
use vstd::prelude::*;
use rand::Rng;
use rand::rngs::ThreadRng;

verus! {

#[verifier::external_type_specification]
#[verifier::external_body]
pub struct ExThreadRng(ThreadRng);

/// Relies on `rand::Rng::random_range` on a half-open `i64` range: the value
/// lies in `[lo, hi)`; an empty range panics, so it is excluded.
#[verifier::external_body]
pub(crate) fn random_in(rng: &mut ThreadRng, lo: i64, hi: i64) -> (r: i64)
    requires
        lo < hi,
    ensures
        lo <= r < hi,
{
    rng.random_range(lo..hi)
}

/// Why a dead-zone sample cannot be drawn.
#[derive(Debug, Clone, Copy, PartialEq, Eq, Structural)]
pub enum SampleError {
    /// `min >= max`: the range holds no value at all.
    EmptyRange,
    /// The threshold is negative.
    NegativeThreshold,
    /// Every value of `[min, max)` lies strictly inside `(-threshold, threshold)`.
    DeadZoneCoversRange,
}

/// The values of `[min, max)` whose magnitude reaches `t`.
pub open spec fn admissible(min: int, max: int, t: int, v: int) -> bool {
    min <= v < max && (v <= -t || t <= v)
}

/// Some value of `[min, max)` lies outside the dead zone `(-t, t)`.
pub open spec fn has_admissible(min: int, max: int, t: int) -> bool {
    min < -t || t < max
}

/// The error that `non_zero_rand(min, max, t)` reports, if any.
pub open spec fn sample_error(min: int, max: int, t: int) -> Option<SampleError> {
    if min >= max {
        Some(SampleError::EmptyRange)
    } else if t < 0 {
        Some(SampleError::NegativeThreshold)
    } else if !has_admissible(min, max, t) {
        Some(SampleError::DeadZoneCoversRange)
    } else {
        None
    }
}

/// What to do with a first draw: keep a value, or draw again from `[lo, hi)`.
#[derive(Debug, Clone, Copy, PartialEq, Eq, Structural)]
pub enum Draw {
    Done(i64),
    Redraw(i64, i64),
}

/// The dead-zone rule applied to a first draw `val` from `[min, max)`:
/// a value outside `(-t, t)` is kept; a negative one inside is drawn again
/// from `[min, -t)` and a non-negative one from `[t, max)`. Where that
/// far-side range is empty, the threshold on the other side is returned.
pub open spec fn next_draw(min: int, max: int, t: int, val: int) -> Draw {
    if val <= -t || t <= val {
        Draw::Done(val as i64)
    } else if val < 0 {
        if min < -t {
            Draw::Redraw(min as i64, (-t) as i64)
        } else {
            Draw::Done(t as i64)
        }
    } else {
        if t < max {
            Draw::Redraw(t as i64, max as i64)
        } else {
            Draw::Done((-t) as i64)
        }
    }
}

/// Decides what becomes of a first draw `val` from `[min, max)`. A value it
/// keeps is admissible, and a range it redraws from is non-empty and holds
/// admissible values only.
pub fn resolve_draw(min: i64, max: i64, threshold: i64, val: i64) -> (r: Draw)
    requires
        sample_error(min as int, max as int, threshold as int) is None,
        min <= val < max,
    ensures
        r == next_draw(min as int, max as int, threshold as int, val as int),
        match r {
            Draw::Done(v) => admissible(min as int, max as int, threshold as int, v as int),
            Draw::Redraw(lo, hi) => lo < hi && forall|v: int|
                lo <= v < hi ==> #[trigger] admissible(
                    min as int,
                    max as int,
                    threshold as int,
                    v,
                ),
        },
{
    let t: i64 = threshold;
    if val <= -t || t <= val {
        Draw::Done(val)
    } else if val < 0 {
        if min < -t {
            Draw::Redraw(min, -t)
        } else {
            Draw::Done(t)
        }
    } else {
        if t < max {
            Draw::Redraw(t, max)
        } else {
            Draw::Done(-t)
        }
    }
}

/// Draws a value uniformly from `[min, max)` and applies the dead-zone rule
/// of `resolve_draw` to it, drawing a second time where the rule says so.
/// Every value returned lies in `[min, max)` and outside the dead zone
/// `(-threshold, threshold)`; whenever `max - min > 2 * threshold` a value
/// is returned.
pub fn non_zero_rand(rng: &mut ThreadRng, min: i64, max: i64, threshold: i64) -> (r: Result<
    i64,
    SampleError,
>)
    ensures
        match r {
            Ok(v) => admissible(min as int, max as int, threshold as int, v as int),
            Err(e) => sample_error(min as int, max as int, threshold as int) == Some(e),
        },
        r is Ok <==> sample_error(min as int, max as int, threshold as int) is None,
        min < max && 0 <= threshold && max - min > 2 * threshold ==> r is Ok,
{
    if min >= max {
        return Err(SampleError::EmptyRange);
    }
    if threshold < 0 {
        return Err(SampleError::NegativeThreshold);
    }
    if !(min < -threshold || threshold < max) {
        return Err(SampleError::DeadZoneCoversRange);
    }
    let val: i64 = random_in(rng, min, max);
    match resolve_draw(min, max, threshold, val) {
        Draw::Done(v) => Ok(v),
        Draw::Redraw(lo, hi) => {
            let v: i64 = random_in(rng, lo, hi);
            assert(admissible(min as int, max as int, threshold as int, v as int));
            Ok(v)
        },
    }
}

} // verus!
