use evdev::{EventType, KeyCode, MiscCode, RelativeAxisCode};
use surface_dial_daemon::dial_device::{DialEvent, DialEventKind, RawEvent, TimeVal};

fn raw(event_type: u16, code: u16, value: i32) -> RawEvent {
    RawEvent { time: TimeVal { sec: 0, usec: 0 }, event_type, code, value }
}

fn make_key(code: KeyCode, value: i32) -> RawEvent {
    raw(EventType::KEY.0, code.0, value)
}

fn make_rel(code: RelativeAxisCode, value: i32) -> RawEvent {
    raw(EventType::RELATIVE.0, code.0, value)
}

#[test]
fn btn0_press_is_button_press() {
    let evt = DialEvent::from_raw_evt(make_key(KeyCode::BTN_0, 1)).unwrap();
    assert!(matches!(evt.kind, DialEventKind::ButtonPress));
}

#[test]
fn btn0_release_is_button_release() {
    let evt = DialEvent::from_raw_evt(make_key(KeyCode::BTN_0, 0)).unwrap();
    assert!(matches!(evt.kind, DialEventKind::ButtonRelease));
}

#[test]
fn rel_dial_positive_is_dial() {
    let evt = DialEvent::from_raw_evt(make_rel(RelativeAxisCode::REL_DIAL, 3)).unwrap();
    assert!(matches!(evt.kind, DialEventKind::Dial(3)));
}

#[test]
fn rel_dial_negative_is_dial() {
    let evt = DialEvent::from_raw_evt(make_rel(RelativeAxisCode::REL_DIAL, -2)).unwrap();
    assert!(matches!(evt.kind, DialEventKind::Dial(-2)));
}

#[test]
fn synchronization_event_is_ignored() {
    // EV_SYN = 0, SYN_REPORT = 0
    let evt = DialEvent::from_raw_evt(raw(0, 0, 0)).unwrap();
    assert!(matches!(evt.kind, DialEventKind::Ignored));
}

#[test]
fn misc_event_is_ignored() {
    let evt = DialEvent::from_raw_evt(raw(EventType::MISC.0, MiscCode::MSC_SCAN.0, 0)).unwrap();
    assert!(matches!(evt.kind, DialEventKind::Ignored));
}

#[test]
fn unknown_key_returns_none() {
    // KEY_A is not BTN_0
    assert!(DialEvent::from_raw_evt(make_key(KeyCode::KEY_A, 1)).is_none());
}

#[test]
fn non_dial_rel_axis_returns_none() {
    // REL_X is not REL_DIAL
    assert!(DialEvent::from_raw_evt(make_rel(RelativeAxisCode::REL_X, 1)).is_none());
}
