use surface_dial_daemon::dial_device::{
    timeval_convertible, DialDevice, DialEvent, DialEventKind, DialInputKind, EventTime, RawEvent,
    RawInputEvent, ReceivedInput, TimeVal,
};
use surface_dial_daemon::dial_device::events::is_disconnect;
use surface_dial_daemon::error::Error;
use surface_dial_daemon::focus_watcher::{str_contains, FocusTracker, FocusWatcher, Profile, WindowProps};

fn event(event_type: u16, code: u16, value: i32) -> RawEvent {
    RawEvent { time: TimeVal { sec: 12, usec: 345678 }, event_type, code, value }
}

fn profile(name: &str, match_app_id: Option<&str>, mode: &str) -> Profile {
    Profile { name: name.into(), match_app_id: match_app_id.map(|s| s.into()), mode: mode.into() }
}

fn window(has_focus: Option<bool>, app_id: Option<&str>) -> WindowProps {
    WindowProps { has_focus, app_id: app_id.map(|s| s.into()) }
}

#[test]
fn event_time_is_kept() {
    let evt = DialEvent::from_raw_evt(event(2, 7, 1)).unwrap();
    assert_eq!(evt.time, EventTime { secs: 12, nanos: 345_678_000 });
    assert_eq!(evt.kind, DialEventKind::Dial(1));
}

#[test]
fn timevals_before_the_epoch_are_not_convertible() {
    assert!(!timeval_convertible(TimeVal { sec: -1, usec: 0 }));
    assert!(timeval_convertible(TimeVal { sec: 0, usec: 999_999 }));
    assert!(!timeval_convertible(TimeVal { sec: 0, usec: 5_000_000 }));
}

#[test]
fn long_press_is_reported_while_the_button_is_held() {
    let mut d = DialDevice::new();
    assert!(!d.waits_for_long_press());
    let e = d.next_event(ReceivedInput::Input(RawInputEvent::Event(event(1, 0x100, 1)))).unwrap();
    assert_eq!(e.kind, DialEventKind::ButtonPress);
    assert!(d.waits_for_long_press());
    let e = d.next_event(ReceivedInput::TimedOut).unwrap();
    assert_eq!(e.kind, DialEventKind::ButtonLongPress);
    assert_eq!(e.time, EventTime { secs: 0, nanos: 0 });
    assert!(!d.waits_for_long_press());
}

#[test]
fn release_cancels_long_press() {
    let mut d = DialDevice::new();
    d.next_event(ReceivedInput::Input(RawInputEvent::Event(event(1, 0x100, 1)))).unwrap();
    let e = d.next_event(ReceivedInput::Input(RawInputEvent::Event(event(1, 0x100, 0)))).unwrap();
    assert_eq!(e.kind, DialEventKind::ButtonRelease);
    assert!(!d.waits_for_long_press());
    let e = d.next_event(ReceivedInput::Input(RawInputEvent::Connect)).unwrap();
    assert_eq!(e.kind, DialEventKind::Connect);
}

#[test]
fn unexpected_event_is_an_error() {
    let mut d = DialDevice::new();
    let err = d.next_event(ReceivedInput::Input(RawInputEvent::Event(event(1, 30, 1)))).unwrap_err();
    assert!(matches!(err, Error::UnexpectedEvt(_)));
    let msg = err.message();
    assert!(msg.starts_with("Unexpected event: InputEvent"));
    assert!(msg.contains("KEY_A"));
}

#[test]
fn input_kinds_match_their_device_names() {
    assert!(DialInputKind::Control.matches_device_name("\"Surface Dial System Control\""));
    assert!(!DialInputKind::Control.matches_device_name("\"Surface Dial System Multi Axis\""));
    assert!(DialInputKind::MultiAxis.matches_device_name("\"Surface Dial System Multi Axis\""));
    assert!(!DialInputKind::MultiAxis.matches_device_name("Surface Dial System Multi Axis"));
    assert!(DialInputKind::MultiAxis.reports_connection());
    assert!(!DialInputKind::Control.reports_connection());
}

#[test]
fn substring_search() {
    assert!(str_contains("org.mozilla.firefox", "firefox"));
    assert!(str_contains("abc", ""));
    assert!(!str_contains("ab", "abc"));
    assert!(!str_contains("abd", "bc"));
}

#[test]
fn profile_matching_rules() {
    let profiles = vec![
        profile("browser", Some("FireFox"), "Scroll"),
        profile("music", Some("spot"), "Media"),
        profile("default", None, "Zoom"),
        profile("default2", None, "Volume"),
    ];
    assert_eq!(FocusWatcher::match_profile(&profiles, "org.Mozilla.FIREFOX"), "Scroll");
    assert_eq!(FocusWatcher::match_profile(&profiles, "Spotify"), "Media");
    assert_eq!(FocusWatcher::match_profile(&profiles, "gedit"), "Zoom");
    assert_eq!(FocusWatcher::match_profile(&profiles[..2], "gedit"), "Scroll");
    assert_eq!(FocusWatcher::match_profile(&[profile("m", Some("x"), "Media")], "y"), "Scroll");
}

#[test]
fn focused_window_is_found() {
    let windows = vec![
        window(Some(false), Some("a")),
        window(None, Some("b")),
        window(Some(true), Some("c")),
        window(Some(true), Some("d")),
    ];
    assert_eq!(FocusWatcher::find_focused_app_id(&windows), Some("c".to_string()));
    let windows = vec![window(Some(true), None), window(Some(true), Some("d"))];
    assert_eq!(FocusWatcher::find_focused_app_id(&windows), None);
    assert_eq!(FocusWatcher::find_focused_app_id(&[]), None);
}

#[test]
fn tracker_switches_once_per_focus_change() {
    let profiles = vec![profile("music", Some("spot"), "Media"), profile("default", None, "Zoom")];
    let mut t = FocusTracker::new();
    let spotify = vec![window(Some(true), Some("spotify"))];
    let editor = vec![window(Some(true), Some("gedit"))];
    assert_eq!(t.observe(&spotify, &profiles), Some("Media".to_string()));
    assert_eq!(t.observe(&spotify, &profiles), None);
    assert_eq!(t.observe(&[], &profiles), None);
    assert_eq!(t.observe(&editor, &profiles), Some("Zoom".to_string()));
    assert_eq!(t.observe(&spotify, &profiles), Some("Media".to_string()));
}

#[test]
fn only_enodev_means_disconnect() {
    assert!(is_disconnect(Some(19)));
    assert!(!is_disconnect(Some(5)));
    assert!(!is_disconnect(None));
}

#[test]
fn earliest_time_counts_as_zero() {
    let t = TimeVal { sec: i64::MIN, usec: 0 };
    assert!(timeval_convertible(t));
    assert!(!timeval_convertible(TimeVal { sec: i64::MIN, usec: 1 }));
    let evt = DialEvent::from_raw_evt(RawEvent { time: t, event_type: 1, code: 0x100, value: 1 }).unwrap();
    assert_eq!(evt.time, EventTime { secs: 0, nanos: 0 });
    let mut d = DialDevice::new();
    let err = d
        .next_event(ReceivedInput::Input(RawInputEvent::Event(RawEvent { time: t, event_type: 2, code: 0, value: 1 })))
        .unwrap_err();
    assert!(err.message().starts_with("Unexpected event: InputEvent"));
}
