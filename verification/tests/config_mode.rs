use surface_dial_daemon::config_mode::resolve_keys;
use surface_dial_daemon::fake_input::{parse_key_code, Key};

#[test]
fn resolve_known_keys_succeeds() {
    let keys = resolve_keys("test", &["KEY_LEFTCTRL".into(), "KEY_Z".into()]).unwrap();
    assert_eq!(keys, vec![Key::KEY_LEFTCTRL, Key::KEY_Z]);
}

#[test]
fn resolve_unknown_key_errors() {
    let result = resolve_keys("test", &["KEY_UNKNOWN_XYZ".into()]);
    assert!(result.is_err());
    let msg = result.unwrap_err().message();
    assert!(msg.contains("KEY_UNKNOWN_XYZ"));
}

#[test]
fn parse_key_code_roundtrip() {
    // spot-check a sample of keys across categories
    for name in &[
        "KEY_A", "KEY_Z", "KEY_0", "KEY_9",
        "KEY_F1", "KEY_F12",
        "KEY_LEFTSHIFT", "KEY_RIGHTCTRL",
        "KEY_UP", "KEY_PAGEDOWN",
        "KEY_ENTER", "KEY_ESC", "KEY_TAB",
        "KEY_MUTE", "KEY_VOLUMEUP", "KEY_PLAYPAUSE",
        "KEY_BRIGHTNESSUP", "KEY_BRIGHTNESSDOWN",
    ] {
        assert!(
            parse_key_code(name).is_some(),
            "{name} should be a supported key"
        );
    }
}

#[test]
fn parse_key_code_unknown_returns_none() {
    assert!(parse_key_code("NOT_A_KEY").is_none());
    assert!(parse_key_code("").is_none());
}
