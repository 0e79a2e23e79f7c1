//! The batch classifier: one pass over a batch of events that rescales,
//! discards or forwards each of them, in order.

use vstd::prelude::*;
use crate::event::{Event, EventClass};
use crate::scroll::{apply_anxious_scroll, AnxiousState};
use crate::time::{spec_elapsed_millis, Timestamp};

verus! {

/// Positions, in ascending order, of the events of a batch that are kept:
/// all but the legacy wheel events.
pub open spec fn kept_indices(events: Seq<Event>) -> Seq<int>
    decreases events.len(),
{
    if events.len() == 0 {
        Seq::empty()
    } else {
        let before = kept_indices(events.drop_last());
        if events.last().spec_class() == EventClass::LowResWheel {
            before
        } else {
            before.push(events.len() - 1)
        }
    }
}

/// The timing state after a batch: the timestamp of its last high-resolution
/// wheel event, or `start` where it has none.
pub open spec fn last_scroll_time(events: Seq<Event>, start: Timestamp) -> Timestamp
    decreases events.len(),
{
    if events.len() == 0 {
        start
    } else if events.last().spec_class() == EventClass::HiResWheel {
        events.last().timestamp
    } else {
        last_scroll_time(events.drop_last(), start)
    }
}

/// The elapsed time handed to the curve for the event at position `i`: from
/// the last high-resolution wheel event before it (or from `start`) to the
/// event's own timestamp.
pub open spec fn elapsed_before(events: Seq<Event>, start: Timestamp, i: int) -> u128 {
    spec_elapsed_millis(last_scroll_time(events.take(i), start), events[i].timestamp)
}

/// Whether `out` is what the filter emits for the kept event at position `i`:
/// a high-resolution wheel event with its value replaced by an answer of the
/// curve, any other kept event unchanged.
pub open spec fn emitted_for<F: Fn(i32, u128) -> i32>(
    events: Seq<Event>,
    start: Timestamp,
    i: int,
    out: Event,
    curve: &F,
) -> bool {
    if events[i].spec_class() == EventClass::HiResWheel {
        &&& out == events[i].spec_rescaled(out.value)
        &&& curve.ensures((events[i].value, elapsed_before(events, start, i)), out.value)
    } else {
        out == events[i]
    }
}

/// The kept positions are valid, strictly ascending, name no legacy wheel
/// event and miss no other event. Kept events therefore appear in their
/// relative order of the input, and never more of them than the batch holds.
pub proof fn lemma_kept_indices(events: Seq<Event>)
    ensures
        kept_indices(events).len() <= events.len(),
        forall|j: int|
            0 <= j < kept_indices(events).len() ==> {
                &&& 0 <= #[trigger] kept_indices(events)[j] < events.len()
                &&& events[kept_indices(events)[j]].spec_class() != EventClass::LowResWheel
            },
        forall|j: int, k: int|
            0 <= j < k < kept_indices(events).len() ==> #[trigger] kept_indices(events)[j]
                < #[trigger] kept_indices(events)[k],
        forall|i: int|
            0 <= i < events.len() && (#[trigger] events[i]).spec_class() != EventClass::LowResWheel
                ==> kept_indices(events).contains(i),
    decreases events.len(),
{
    if events.len() > 0 {
        let head = events.drop_last();
        let before = kept_indices(head);
        lemma_kept_indices(head);
        assert forall|i: int|
            0 <= i < events.len() && (#[trigger] events[i]).spec_class()
                != EventClass::LowResWheel implies kept_indices(events).contains(i) by {
            if i < events.len() - 1 {
                assert(head[i] == events[i]);
                let j = choose|j: int| 0 <= j < before.len() && before[j] == i;
                assert(kept_indices(events)[j] == i);
            } else {
                assert(kept_indices(events)[before.len() as int] == i);
            }
        }
    }
}

/// A batch without a high-resolution wheel event leaves the timing state
/// where it was.
pub proof fn lemma_state_untouched_without_scroll(events: Seq<Event>, start: Timestamp)
    requires
        forall|i: int|
            0 <= i < events.len() ==> (#[trigger] events[i]).spec_class() != EventClass::HiResWheel,
    ensures
        last_scroll_time(events, start) == start,
    decreases events.len(),
{
    if events.len() > 0 {
        let head = events.drop_last();
        assert forall|i: int| 0 <= i < head.len() implies (#[trigger] head[i]).spec_class()
            != EventClass::HiResWheel by {
            assert(head[i] == events[i]);
        }
        lemma_state_untouched_without_scroll(head, start);
    }
}

/// Runs one batch through the filter.
///
/// Events are handled in input order. A high-resolution wheel event is
/// replaced by its rescaled counterpart, for which `curve` is asked with the
/// event's value and the elapsed time since the previous such event; a legacy
/// wheel event is dropped; every other event is copied to the output. The
/// timing state ends at the timestamp of the last high-resolution wheel
/// event, and is left alone when the batch has none.
pub fn process_events<F: Fn(i32, u128) -> i32>(
    events: &Vec<Event>,
    curve: &F,
    anxious_state: &mut AnxiousState,
) -> (batch: Vec<Event>)
    requires
        forall|i: int|
            0 <= i < events@.len() && (#[trigger] events@[i]).spec_class() == EventClass::HiResWheel
                ==> curve.requires(
                (events@[i].value, elapsed_before(events@, old(anxious_state).prev_time, i)),
            ),
    ensures
        batch@.len() == kept_indices(events@).len(),
        batch@.len() <= events@.len(),
        forall|j: int|
            0 <= j < batch@.len() ==> emitted_for(
                events@,
                old(anxious_state).prev_time,
                kept_indices(events@)[j],
                #[trigger] batch@[j],
                curve,
            ),
        final(anxious_state).prev_time == last_scroll_time(
            events@,
            old(anxious_state).prev_time,
        ),
{
    let ghost start = anxious_state.prev_time;
    let mut batch: Vec<Event> = Vec::new();
    let mut i: usize = 0;
    while i < events.len()
        invariant
            i <= events@.len(),
            anxious_state.prev_time == last_scroll_time(events@.take(i as int), start),
            batch@.len() == kept_indices(events@.take(i as int)).len(),
            forall|j: int|
                0 <= j < batch@.len() ==> emitted_for(
                    events@,
                    start,
                    kept_indices(events@.take(i as int))[j],
                    #[trigger] batch@[j],
                    curve,
                ),
            forall|k: int|
                0 <= k < events@.len() && (#[trigger] events@[k]).spec_class()
                    == EventClass::HiResWheel ==> curve.requires(
                    (events@[k].value, elapsed_before(events@, start, k)),
                ),
        decreases events@.len() - i,
    {
        let event: Event = events[i];
        proof {
            assert(events@.take(i + 1).drop_last() =~= events@.take(i as int));
            assert(events@.take(i + 1).last() == events@[i as int]);
        }
        match event.class() {
            EventClass::HiResWheel => {
                let scaled: i32 = apply_anxious_scroll(
                    event.value,
                    event.timestamp,
                    curve,
                    anxious_state,
                );
                batch.push(event.rescaled(scaled));
            },
            EventClass::LowResWheel => {},
            EventClass::Other => {
                batch.push(event);
            },
        }
        i += 1;
    }
    proof {
        assert(events@.take(i as int) =~= events@);
        lemma_kept_indices(events@);
    }
    batch
}

} // verus!
