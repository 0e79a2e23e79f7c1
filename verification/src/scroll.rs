//! The timing state and the rescaling of one high-resolution wheel delta.

use vstd::prelude::*;
use crate::time::{elapsed_millis, spec_elapsed_millis, Timestamp};

verus! {

/// The one piece of state kept between events: when the most recent
/// high-resolution wheel event was rescaled. Any timestamp is a valid state.
#[derive(Debug)]
pub struct AnxiousState {
    pub prev_time: Timestamp,
}

impl AnxiousState {
    /// A fresh state whose previous time is `now`, the moment the session
    /// starts.
    pub fn new(now: Timestamp) -> (state: AnxiousState)
        ensures
            state.prev_time == now,
    {
        AnxiousState { prev_time: now }
    }
}

/// Rescales one wheel delta.
///
/// The elapsed time is taken from the state's previous time to `timestamp`,
/// with the fallback for a timestamp that did not advance. The state then
/// moves to `timestamp` whether or not the fallback was used, and `curve` is
/// asked once, for `value` and that elapsed time in milliseconds. Its answer
/// is the result.
pub fn apply_anxious_scroll<F: Fn(i32, u128) -> i32>(
    value: i32,
    timestamp: Timestamp,
    curve: &F,
    anxious_state: &mut AnxiousState,
) -> (scaled: i32)
    requires
        curve.requires((value, spec_elapsed_millis(old(anxious_state).prev_time, timestamp))),
    ensures
        final(anxious_state).prev_time == timestamp,
        curve.ensures(
            (value, spec_elapsed_millis(old(anxious_state).prev_time, timestamp)),
            scaled,
        ),
{
    let elapsed: u128 = elapsed_millis(anxious_state.prev_time, timestamp);
    anxious_state.prev_time = timestamp;
    curve(value, elapsed)
}

} // verus!
