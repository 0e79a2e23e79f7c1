//! Input events as plain values, and the three categories the filter
//! distinguishes.

use vstd::prelude::*;
use crate::time::Timestamp;

verus! {

/// Type tag of relative-axis events.
pub const EV_RELATIVE: u16 = 0x02;

/// Axis code of the legacy, low-resolution vertical wheel.
pub const REL_WHEEL: u16 = 0x08;

/// Axis code of the high-resolution vertical wheel.
pub const REL_WHEEL_HI_RES: u16 = 0x0b;

/// One input event: a type tag, a code whose meaning depends on the type, a
/// signed value and the time at which the device reported it. All field
/// values are admissible.
#[derive(Clone, Copy, Debug, PartialEq, Eq, Structural)]
pub struct Event {
    pub event_type: u16,
    pub code: u16,
    pub value: i32,
    pub timestamp: Timestamp,
}

/// What the filter does with an event.
#[derive(Clone, Copy, Debug, PartialEq, Eq, Structural)]
pub enum EventClass {
    /// A high-resolution wheel delta: rescaled.
    HiResWheel,
    /// A legacy wheel step: discarded.
    LowResWheel,
    /// Anything else: forwarded as it is.
    Other,
}

/// The category of an event with the given type tag and code.
pub open spec fn spec_classify(event_type: u16, code: u16) -> EventClass {
    if event_type == EV_RELATIVE && code == REL_WHEEL_HI_RES {
        EventClass::HiResWheel
    } else if event_type == EV_RELATIVE && code == REL_WHEEL {
        EventClass::LowResWheel
    } else {
        EventClass::Other
    }
}

/// Trusted: reads `evdev::EventType::RELATIVE`, which evdev defines as the
/// type tag 0x02.
#[verifier::external_body]
fn relative_event_type() -> (tag: u16)
    ensures
        tag == EV_RELATIVE,
{
    evdev::EventType::RELATIVE.0
}

/// Trusted: reads `evdev::RelativeAxisCode::REL_WHEEL`, which evdev defines
/// as the axis code 0x08.
#[verifier::external_body]
fn wheel_axis_code() -> (code: u16)
    ensures
        code == REL_WHEEL,
{
    evdev::RelativeAxisCode::REL_WHEEL.0
}

/// Trusted: reads `evdev::RelativeAxisCode::REL_WHEEL_HI_RES`, which evdev
/// defines as the axis code 0x0b.
#[verifier::external_body]
fn hi_res_wheel_axis_code() -> (code: u16)
    ensures
        code == REL_WHEEL_HI_RES,
{
    evdev::RelativeAxisCode::REL_WHEEL_HI_RES.0
}

/// Sorts a type tag and code into one of the three categories. No pair is
/// rejected: what is not a vertical wheel event is `Other`.
pub fn classify(event_type: u16, code: u16) -> (class: EventClass)
    ensures
        class == spec_classify(event_type, code),
{
    if event_type == relative_event_type() && code == hi_res_wheel_axis_code() {
        EventClass::HiResWheel
    } else if event_type == relative_event_type() && code == wheel_axis_code() {
        EventClass::LowResWheel
    } else {
        EventClass::Other
    }
}

impl Event {
    /// The category of this event.
    pub open spec fn spec_class(self) -> EventClass {
        spec_classify(self.event_type, self.code)
    }

    /// The category of this event, decided by its type tag and code alone.
    #[verifier::when_used_as_spec(spec_class)]
    pub fn class(self) -> (class: EventClass)
        ensures
            class == self.spec_class(),
    {
        classify(self.event_type, self.code)
    }

    /// The event that replaces a rescaled one: same type tag and code, the
    /// new value, and the epoch for a timestamp.
    pub open spec fn spec_rescaled(self, value: i32) -> Event {
        Event {
            event_type: self.event_type,
            code: self.code,
            value,
            timestamp: Timestamp::spec_epoch(),
        }
    }

    /// Builds the replacement for this event with `value` in place of its
    /// own. The timestamp is left at the epoch for the emitter to assign.
    #[verifier::when_used_as_spec(spec_rescaled)]
    pub fn rescaled(self, value: i32) -> (out: Event)
        ensures
            out == self.spec_rescaled(value),
    {
        Event {
            event_type: self.event_type,
            code: self.code,
            value,
            timestamp: Timestamp::epoch(),
        }
    }
}

} // verus!
