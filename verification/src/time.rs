//! Timestamps and the elapsed-time rule that feeds the sensitivity curve.

use vstd::prelude::*;

verus! {

/// Elapsed time, in milliseconds, that is assumed whenever a timestamp fails
/// to advance past the previous one.
pub const FALLBACK_ELAPSED_MS: u128 = 1000;

/// Number of nanoseconds in one millisecond.
pub const NANOS_PER_MILLI: u128 = 1_000_000;

/// A point in time, as a signed count of nanoseconds relative to the Unix
/// epoch. Every value of the field is a valid timestamp.
#[derive(Clone, Copy, Debug, PartialEq, Eq, Structural)]
pub struct Timestamp {
    pub nanos: i128,
}

impl Timestamp {
    /// The epoch itself. Events produced by the filter carry it in place of
    /// a real time, since whoever emits them stamps them anew.
    pub open spec fn spec_epoch() -> Timestamp {
        Timestamp { nanos: 0 }
    }

    #[verifier::when_used_as_spec(spec_epoch)]
    pub fn epoch() -> (t: Timestamp)
        ensures
            t == Timestamp::spec_epoch(),
    {
        Timestamp { nanos: 0 }
    }
}

/// Whole milliseconds from `prev` to `now` when `now` is strictly later, and
/// the fixed fallback otherwise.
pub open spec fn spec_elapsed_millis(prev: Timestamp, now: Timestamp) -> u128 {
    if now.nanos > prev.nanos {
        ((now.nanos - prev.nanos) / (NANOS_PER_MILLI as int)) as u128
    } else {
        FALLBACK_ELAPSED_MS
    }
}

/// Elapsed milliseconds between two timestamps, rounded down. The gap
/// between any two timestamps fits the result type.
///
/// A timestamp that does not lie strictly after `prev` (a repeated stamp, a
/// reordered event, a clock that was set back) yields the fallback of one
/// second, so that such an event is treated as a slow scroll.
pub fn elapsed_millis(prev: Timestamp, now: Timestamp) -> (ms: u128)
    ensures
        ms == spec_elapsed_millis(prev, now),
        now.nanos > prev.nanos ==> ms == (now.nanos - prev.nanos) / 1_000_000,
        now.nanos <= prev.nanos ==> ms == 1000,
{
    if now.nanos > prev.nanos {
        let gap: u128 = if prev.nanos >= 0 || now.nanos < 0 {
            (now.nanos - prev.nanos) as u128
        } else {
            let below: u128 = (-(prev.nanos + 1)) as u128;
            (now.nanos as u128) + below + 1
        };
        gap / NANOS_PER_MILLI
    } else {
        FALLBACK_ELAPSED_MS
    }
}

/// A timestamp that does not advance is always charged the fallback.
pub proof fn lemma_stalled_time_uses_fallback(prev: Timestamp, now: Timestamp)
    requires
        now.nanos <= prev.nanos,
    ensures
        spec_elapsed_millis(prev, now) == FALLBACK_ELAPSED_MS,
{
}

/// Moving the previous timestamp closer to `now`, while keeping it strictly
/// earlier, never lengthens the elapsed time.
pub proof fn lemma_closer_prev_shortens_elapsed(far: Timestamp, near: Timestamp, now: Timestamp)
    requires
        far.nanos <= near.nanos,
        near.nanos < now.nanos,
    ensures
        spec_elapsed_millis(near, now) <= spec_elapsed_millis(far, now),
{
    let d: int = NANOS_PER_MILLI as int;
    let a: int = now.nanos - near.nanos;
    let b: int = now.nanos - far.nanos;
    assert(a / d <= b / d) by (nonlinear_arith)
        requires
            0 <= a <= b,
            d > 0,
    ;
}

} // verus!
