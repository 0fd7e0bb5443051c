use std::io;
use surface_dial_daemon::error::Error;

#[test]
fn display_config_file() {
    let err = Error::ConfigFile("could not open config directory".into());
    assert_eq!(
        err.message(),
        "Could not open config file: could not open config directory"
    );
}

#[test]
fn display_open_dev_input_dir() {
    let err = Error::OpenDevInputDir(io::Error::from_raw_os_error(2).to_string());
    assert!(err.message().starts_with("Could not open /dev/input directory:"));
}

#[test]
fn display_open_event_file() {
    let path = std::path::PathBuf::from("/dev/input/event0");
    let err = Error::OpenEventFile(
        path.to_string_lossy().into_owned(),
        io::Error::from_raw_os_error(13).to_string(),
    );
    assert!(err.message().starts_with("Could not open"));
    assert!(err.message().contains("event0"));
}

#[test]
fn display_missing_dial() {
    assert_eq!(Error::MissingDial.message(), "Could not find the Surface Dial");
}

#[test]
fn display_multiple_dials() {
    assert_eq!(Error::MultipleDials.message(), "Found multiple dials");
}

#[test]
fn display_evdev() {
    let err = Error::Evdev(io::Error::from_raw_os_error(5).to_string());
    assert!(err.message().starts_with("Evdev error:"));
}

#[test]
fn display_term_sig() {
    assert_eq!(
        Error::TermSig.message(),
        "Received termination signal (either SIGTERM or SIGINT)"
    );
}

#[test]
fn error_implements_std_error() {
    // The library's error describes itself through `message`.
    let err = Error::MissingDial;
    assert!(err.message().contains("Surface Dial"));
}
