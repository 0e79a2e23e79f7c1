use evdev::{EventType, InputEvent, RelativeAxisCode};
use mouse_scroll_daemon::batch::process_events;
use mouse_scroll_daemon::event::{
    classify, Event, EventClass, EV_RELATIVE, REL_WHEEL, REL_WHEEL_HI_RES,
};
use mouse_scroll_daemon::scroll::AnxiousState;
use mouse_scroll_daemon::time::Timestamp;
use std::time::{SystemTime, UNIX_EPOCH};

const MS: i128 = 1_000_000;

fn base_time() -> Timestamp {
    Timestamp { nanos: 1_000_000_000 * 1_000_000_000 }
}

fn at_ms(ms: i128) -> Timestamp {
    Timestamp { nanos: base_time().nanos + ms * MS }
}

fn stamp(time: SystemTime) -> Timestamp {
    match time.duration_since(UNIX_EPOCH) {
        Ok(since) => Timestamp { nanos: since.as_nanos() as i128 },
        Err(before) => Timestamp { nanos: -(before.duration().as_nanos() as i128) },
    }
}

fn plain(event: &InputEvent) -> Event {
    Event {
        event_type: event.event_type().0,
        code: event.code(),
        value: event.value(),
        timestamp: stamp(event.timestamp()),
    }
}

fn logistic(value: i32, elapsed_ms: u128) -> i32 {
    let value = value as f32;
    let vel = value.abs() / elapsed_ms as f32;
    let c = (15.0f32 / 1.0) - 1.0;
    let sens = 15.0 / (1.0 + c * (-1.0 * vel * 0.3).exp());
    (value * sens) as i32
}

fn hi_res(value: i32, ms: i128) -> Event {
    Event { event_type: 2, code: 0x0b, value, timestamp: at_ms(ms) }
}

fn lo_res(value: i32, ms: i128) -> Event {
    Event { event_type: 2, code: 0x08, value, timestamp: at_ms(ms) }
}

fn motion_x(value: i32, ms: i128) -> Event {
    Event { event_type: 2, code: 0x00, value, timestamp: at_ms(ms) }
}

#[test]
fn test_process_events_basic() {
    let events = vec![
        InputEvent::new_now(EventType::RELATIVE.0, RelativeAxisCode::REL_WHEEL_HI_RES.0, 120),
        InputEvent::new_now(EventType::RELATIVE.0, RelativeAxisCode::REL_WHEEL.0, 1),
        InputEvent::new_now(EventType::RELATIVE.0, RelativeAxisCode::REL_X.0, 10),
    ];
    let events: Vec<Event> = events.iter().map(plain).collect();

    let mut state = AnxiousState { prev_time: base_time() };
    let result = process_events(&events, &logistic, &mut state);

    assert_eq!(result.len(), 2);

    assert_eq!(EventType(result[0].event_type), EventType::RELATIVE);
    assert_eq!(result[0].code, RelativeAxisCode::REL_WHEEL_HI_RES.0);

    assert_eq!(EventType(result[1].event_type), EventType::RELATIVE);
    assert_eq!(result[1].code, RelativeAxisCode::REL_X.0);
    assert_eq!(result[1].value, 10);
}

#[test]
fn batch_rescales_drops_and_forwards() {
    let events = vec![hi_res(120, 10), lo_res(1, 10), motion_x(10, 10)];
    let mut state = AnxiousState::new(base_time());
    let result = process_events(&events, &logistic, &mut state);
    assert_eq!(
        result,
        vec![
            Event { event_type: 2, code: 0x0b, value: 1301, timestamp: Timestamp::epoch() },
            motion_x(10, 10),
        ]
    );
    assert_eq!(state.prev_time, at_ms(10));
}

#[test]
fn batch_without_scroll_leaves_state_alone() {
    let key = Event { event_type: 1, code: 0x110, value: 1, timestamp: at_ms(3) };
    let sync = Event { event_type: 0, code: 0, value: 0, timestamp: at_ms(4) };
    let events = vec![motion_x(3, 1), lo_res(-1, 2), key, lo_res(1, 3), sync];
    let mut state = AnxiousState::new(base_time());
    let result = process_events(&events, &|_v: i32, _ms: u128| -> i32 { panic!("no scroll") }, &mut state);
    assert_eq!(result, vec![motion_x(3, 1), key, sync]);
    assert_eq!(state.prev_time, base_time());
}

#[test]
fn empty_batch_gives_empty_output() {
    let mut state = AnxiousState::new(base_time());
    let result = process_events(&Vec::new(), &logistic, &mut state);
    assert!(result.is_empty());
    assert_eq!(state.prev_time, base_time());
}

#[test]
fn elapsed_runs_from_the_previous_scroll_event() {
    let events = vec![
        hi_res(-120, 0),
        hi_res(120, 1),
        lo_res(1, 8),
        hi_res(-120, 10),
        motion_x(10, 12),
        hi_res(120, 5),
        hi_res(7, 5),
    ];
    let seen = std::cell::RefCell::new(Vec::new());
    let mut state = AnxiousState::new(at_ms(-40));
    let result = process_events(
        &events,
        &|v: i32, ms: u128| {
            seen.borrow_mut().push((v, ms));
            v + 1
        },
        &mut state,
    );
    assert_eq!(
        seen.into_inner(),
        vec![(-120, 40u128), (120, 1), (-120, 9), (120, 1000), (7, 1000)]
    );
    let values: Vec<i32> = result.iter().map(|e| e.value).collect();
    assert_eq!(values, vec![-119, 121, -119, 10, 121, 8]);
    let codes: Vec<u16> = result.iter().map(|e| e.code).collect();
    assert_eq!(codes, vec![0x0b, 0x0b, 0x0b, 0x00, 0x0b, 0x0b]);
    assert_eq!(result[3], motion_x(10, 12));
    assert_eq!(result[0].timestamp, Timestamp::epoch());
    assert_eq!(state.prev_time, at_ms(5));
}

#[test]
fn classify_tells_the_three_categories_apart() {
    assert_eq!(classify(2, 0x0b), EventClass::HiResWheel);
    assert_eq!(classify(2, 0x08), EventClass::LowResWheel);
    assert_eq!(classify(2, 0x00), EventClass::Other);
    assert_eq!(classify(2, 0x06), EventClass::Other);
    assert_eq!(classify(2, 0x0c), EventClass::Other);
    assert_eq!(classify(1, 0x0b), EventClass::Other);
    assert_eq!(classify(3, 0x08), EventClass::Other);
    assert_eq!(classify(0, 0), EventClass::Other);
    assert_eq!(classify(u16::MAX, u16::MAX), EventClass::Other);
    assert_eq!(hi_res(1, 0).class(), EventClass::HiResWheel);
    assert_eq!(lo_res(1, 0).class(), EventClass::LowResWheel);
    assert_eq!(motion_x(1, 0).class(), EventClass::Other);
}

#[test]
fn category_constants_match_the_device_library() {
    assert_eq!(EV_RELATIVE, EventType::RELATIVE.0);
    assert_eq!(REL_WHEEL, RelativeAxisCode::REL_WHEEL.0);
    assert_eq!(REL_WHEEL_HI_RES, RelativeAxisCode::REL_WHEEL_HI_RES.0);
    assert_eq!(
        classify(EventType::RELATIVE.0, RelativeAxisCode::REL_HWHEEL_HI_RES.0),
        EventClass::Other
    );
    assert_eq!(classify(EventType::KEY.0, RelativeAxisCode::REL_WHEEL.0), EventClass::Other);
}

#[test]
fn rescaled_keeps_type_and_code() {
    let event = hi_res(120, 10);
    let out = event.rescaled(-5);
    assert_eq!(out, Event { event_type: 2, code: 0x0b, value: -5, timestamp: Timestamp { nanos: 0 } });
    let fresh = InputEvent::new(out.event_type, out.code, out.value);
    assert_eq!(plain(&fresh), out);
}
