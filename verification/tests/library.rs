use surface_dial_daemon::config_mode::{modes_from_specs, resolve_keys, ConfigMode, ModeSpec};
use surface_dial_daemon::controller::controls::{DbusEvent, DbusMode, Media, Volume, Zoom};
use surface_dial_daemon::error::Error;
use surface_dial_daemon::fake_input::{
    key_click_events, parse_key_code, scroll_mt_end_events, scroll_mt_start_events,
    scroll_mt_step_events, scroll_step_events, AbsAxis, Key, OutputEvent, RelAxis, ScrollStep,
    TouchButton, MT_BASELINE,
};

const ALL_KEY_NAMES: [&str; 97] = [
    "KEY_A",
    "KEY_B",
    "KEY_C",
    "KEY_D",
    "KEY_E",
    "KEY_F",
    "KEY_G",
    "KEY_H",
    "KEY_I",
    "KEY_J",
    "KEY_K",
    "KEY_L",
    "KEY_M",
    "KEY_N",
    "KEY_O",
    "KEY_P",
    "KEY_Q",
    "KEY_R",
    "KEY_S",
    "KEY_T",
    "KEY_U",
    "KEY_V",
    "KEY_W",
    "KEY_X",
    "KEY_Y",
    "KEY_Z",
    "KEY_0",
    "KEY_1",
    "KEY_2",
    "KEY_3",
    "KEY_4",
    "KEY_5",
    "KEY_6",
    "KEY_7",
    "KEY_8",
    "KEY_9",
    "KEY_F1",
    "KEY_F2",
    "KEY_F3",
    "KEY_F4",
    "KEY_F5",
    "KEY_F6",
    "KEY_F7",
    "KEY_F8",
    "KEY_F9",
    "KEY_F10",
    "KEY_F11",
    "KEY_F12",
    "KEY_LEFTSHIFT",
    "KEY_RIGHTSHIFT",
    "KEY_LEFTCTRL",
    "KEY_RIGHTCTRL",
    "KEY_LEFTALT",
    "KEY_RIGHTALT",
    "KEY_LEFTMETA",
    "KEY_RIGHTMETA",
    "KEY_UP",
    "KEY_DOWN",
    "KEY_LEFT",
    "KEY_RIGHT",
    "KEY_HOME",
    "KEY_END",
    "KEY_PAGEUP",
    "KEY_PAGEDOWN",
    "KEY_SPACE",
    "KEY_ENTER",
    "KEY_BACKSPACE",
    "KEY_DELETE",
    "KEY_INSERT",
    "KEY_TAB",
    "KEY_ESC",
    "KEY_CAPSLOCK",
    "KEY_EQUAL",
    "KEY_MINUS",
    "KEY_LEFTBRACE",
    "KEY_RIGHTBRACE",
    "KEY_SEMICOLON",
    "KEY_APOSTROPHE",
    "KEY_GRAVE",
    "KEY_BACKSLASH",
    "KEY_COMMA",
    "KEY_DOT",
    "KEY_SLASH",
    "KEY_MUTE",
    "KEY_VOLUMEUP",
    "KEY_VOLUMEDOWN",
    "KEY_PLAYPAUSE",
    "KEY_NEXTSONG",
    "KEY_PREVIOUSSONG",
    "KEY_STOPCD",
    "KEY_BRIGHTNESSUP",
    "KEY_BRIGHTNESSDOWN",
    "KEY_PRINT",
    "KEY_SCROLLLOCK",
    "KEY_PAUSE",
    "KEY_SLEEP",
    "KEY_WAKEUP",
];

fn spec(name: &str, press: &[&str], release: &[&str], cw: &[&str], ccw: &[&str]) -> ModeSpec {
    let strings = |v: &[&str]| v.iter().map(|s| s.to_string()).collect::<Vec<String>>();
    ModeSpec {
        name: name.to_string(),
        icon: "input-keyboard".to_string(),
        haptics: true,
        steps: 36,
        on_btn_press: strings(press),
        on_btn_release: strings(release),
        on_dial_cw: strings(cw),
        on_dial_ccw: strings(ccw),
    }
}

#[test]
fn every_listed_key_name_parses_to_its_key() {
    for name in ALL_KEY_NAMES.iter() {
        let key = parse_key_code(name).expect("listed key");
        assert_eq!(format!("{:?}", key), *name);
    }
}

#[test]
fn key_names_are_case_sensitive() {
    assert!(parse_key_code("key_a").is_none());
    assert!(parse_key_code("KEY_A ").is_none());
    assert!(parse_key_code("KEY_F13").is_none());
}

#[test]
fn key_click_presses_then_releases_the_chord() {
    let (press, release) = key_click_events(&[Key::KEY_LEFTCTRL, Key::KEY_Z]);
    assert_eq!(press, vec![OutputEvent::Key(Key::KEY_LEFTCTRL, 1), OutputEvent::Key(Key::KEY_Z, 1)]);
    assert_eq!(release, vec![OutputEvent::Key(Key::KEY_LEFTCTRL, 0), OutputEvent::Key(Key::KEY_Z, 0)]);
}

#[test]
fn scroll_steps_are_opposite() {
    assert_eq!(
        scroll_step_events(ScrollStep::Up),
        vec![OutputEvent::Rel(RelAxis::Wheel, 1), OutputEvent::Rel(RelAxis::WheelHiRes, 120)]
    );
    assert_eq!(
        scroll_step_events(ScrollStep::Down),
        vec![OutputEvent::Rel(RelAxis::Wheel, -1), OutputEvent::Rel(RelAxis::WheelHiRes, -120)]
    );
}

#[test]
fn touch_scroll_moves_both_fingers() {
    assert_eq!(MT_BASELINE, i32::MAX / 8);
    let (first, second) = scroll_mt_start_events();
    assert_eq!(first.len(), 8);
    assert_eq!(second[2], OutputEvent::Abs(AbsAxis::MtPositionX, MT_BASELINE / 2));
    let step = scroll_mt_step_events(-7);
    assert_eq!(step[1], OutputEvent::Abs(AbsAxis::MtPositionY, MT_BASELINE - 7));
    assert_eq!(step[4], OutputEvent::Abs(AbsAxis::Y, MT_BASELINE - 7));
    let end = scroll_mt_end_events();
    assert_eq!(end[5], OutputEvent::Button(TouchButton::ToolDoubleTap, 0));
}

#[test]
fn media_volume_zoom_chords() {
    let mut media = Media::new();
    assert_eq!(media.on_btn_press(), None);
    assert_eq!(media.on_btn_release(), Some(vec![Key::KEY_PLAYPAUSE]));
    assert_eq!(media.on_dial(1), Some(vec![Key::KEY_NEXTSONG]));
    assert_eq!(media.on_dial(0), Some(vec![Key::KEY_PREVIOUSSONG]));
    let mut volume = Volume::new();
    assert_eq!(volume.on_btn_release(), Some(vec![Key::KEY_MUTE]));
    assert_eq!(volume.on_dial(-3), Some(vec![Key::KEY_LEFTSHIFT, Key::KEY_VOLUMEDOWN]));
    let mut zoom = Zoom::new();
    assert_eq!(zoom.on_btn_release(), None);
    assert_eq!(zoom.on_dial(2), Some(vec![Key::KEY_LEFTCTRL, Key::KEY_EQUAL]));
    assert_eq!(zoom.meta().icon, "zoom-in");
}

#[test]
fn dbus_mode_forwards_events() {
    let mut mode = DbusMode::new();
    assert_eq!(mode.meta().name, "DbusMode");
    assert_eq!(mode.on_btn_press(), DbusEvent::Pressed);
    assert_eq!(mode.on_btn_release(), DbusEvent::Released);
    assert_eq!(mode.on_dial(-4), DbusEvent::Rotated(-4));
}

#[test]
fn unknown_key_message_names_key_and_field() {
    let e = resolve_keys("on_dial_cw", &["KEY_A".into(), "KEY_X\"Y".into(), "NOPE".into()]).unwrap_err();
    assert_eq!(
        e.message(),
        "Could not open config file: modes.yaml: unknown key \"KEY_X\\\"Y\" in field `on_dial_cw`"
    );
}

#[test]
fn config_mode_clicks_its_chords() {
    let mut mode = ConfigMode::from_spec(spec("Undo / Redo", &[], &["KEY_LEFTCTRL", "KEY_S"], &["KEY_LEFTCTRL", "KEY_Y"], &["KEY_LEFTCTRL", "KEY_Z"])).unwrap();
    assert_eq!(mode.meta().name, "Undo / Redo");
    assert_eq!(mode.on_btn_press(), None);
    assert_eq!(mode.on_btn_release(), Some(vec![Key::KEY_LEFTCTRL, Key::KEY_S]));
    assert_eq!(mode.on_dial(5), Some(vec![Key::KEY_LEFTCTRL, Key::KEY_Y]));
    assert_eq!(mode.on_dial(-5), Some(vec![Key::KEY_LEFTCTRL, Key::KEY_Z]));
}

#[test]
fn config_mode_reports_first_bad_field() {
    let err = ConfigMode::from_spec(spec("Bad", &[], &["BAD_RELEASE"], &["BAD_CW"], &[])).unwrap_err();
    assert!(matches!(&err, Error::ConfigFile(m) if m.contains("`on_btn_release`") && m.contains("BAD_RELEASE")));
}

#[test]
fn modes_from_specs_keeps_order_or_fails_on_first_bad_entry() {
    let modes = modes_from_specs(vec![spec("A", &[], &[], &[], &[]), spec("B", &[], &[], &["KEY_UP"], &[])]).unwrap();
    assert_eq!(modes.len(), 2);
    assert_eq!(modes[1].meta().name, "B");
    let err = modes_from_specs(vec![
        spec("A", &[], &[], &[], &[]),
        spec("B", &["NOPE1"], &[], &[], &[]),
        spec("C", &["NOPE2"], &[], &[], &[]),
    ])
    .unwrap_err();
    assert!(err.message().contains("NOPE1"));
}

#[test]
fn open_event_file_message_quotes_path() {
    let err = Error::OpenEventFile("/dev/input/event0".into(), "Permission denied (os error 13)".into());
    assert_eq!(err.message(), "Could not open \"/dev/input/event0\": Permission denied (os error 13)");
    assert_eq!(Error::HidError("x".into()).message(), "HID API Error: x");
    assert_eq!(Error::Notif("y".into()).message(), "Notification error: y");
}

#[test]
fn event_file_path_is_quoted_as_a_path() {
    let err = Error::OpenEventFile("/tmp/it's".into(), "x".into());
    let expected = format!("Could not open {:?}: x", std::path::Path::new("/tmp/it's"));
    assert_eq!(err.message(), expected);
}

#[test]
fn keyboard_registers_every_key() {
    let keys = surface_dial_daemon::fake_input::all_keys();
    assert_eq!(keys.len(), ALL_KEY_NAMES.len());
    for name in ALL_KEY_NAMES.iter() {
        assert!(keys.contains(&parse_key_code(name).unwrap()));
    }
}
