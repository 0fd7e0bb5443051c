use vstd::prelude::*;
use vstd::string::StringExecFns;

use crate::dial_device::{describe_event, input_event_text, valid_timeval, RawEvent};

verus! {

/// Errors raised by the daemon. Errors of the operating system and of
/// outside libraries are kept as their messages.
#[derive(Debug)]
pub enum Error {
    /// The configuration could not be read or understood.
    ConfigFile(String),
    /// Reading `/dev/input` failed.
    OpenDevInputDir(String),
    /// An event file could not be opened: its path and the reason.
    OpenEventFile(String, String),
    /// The HID layer failed.
    HidError(String),
    MissingDial,
    MultipleDials,
    /// The dial sent an event that it is not known to send.
    UnexpectedEvt(RawEvent),
    /// Writing a fake input event failed.
    Evdev(String),
    /// A desktop notification could not be shown.
    Notif(String),
    TermSig,
}

/// The text of `{:?}` on a string: the string in double quotes, with
/// special characters escaped.
pub uninterp spec fn debug_text(s: Seq<char>) -> Seq<char>;

/// Formats a string with `str`'s `Debug` (std's `format!`).
#[verifier::external_body]
pub(crate) fn debug_quoted(s: &str) -> (r: String)
    ensures
        r@ == debug_text(s@),
{
    format!("{:?}", s)
}

/// The text of `{:?}` on a path: the path in double quotes, with special
/// characters escaped as `Path`'s `Debug` escapes them.
pub uninterp spec fn path_debug_text(s: Seq<char>) -> Seq<char>;

/// Formats a path with `std::path::Path`'s `Debug` (std's `format!`).
#[verifier::external_body]
pub(crate) fn debug_quoted_path(s: &str) -> (r: String)
    ensures
        r@ == path_debug_text(s@),
{
    format!("{:?}", std::path::Path::new(s))
}

/// The errors whose message can be formatted: the time of an unexpected
/// event must be one that evdev can format.
pub open spec fn error_describable(e: Error) -> bool {
    match e {
        Error::UnexpectedEvt(evt) => valid_timeval(evt.time),
        _ => true,
    }
}

/// The text that describes an error to the user.
pub open spec fn error_message(e: Error) -> Seq<char> {
    match e {
        Error::ConfigFile(s) => "Could not open config file: "@ + s@,
        Error::OpenDevInputDir(s) => "Could not open /dev/input directory: "@ + s@,
        Error::OpenEventFile(path, s) => "Could not open "@ + path_debug_text(path@) + ": "@ + s@,
        Error::HidError(s) => "HID API Error: "@ + s@,
        Error::MissingDial => "Could not find the Surface Dial"@,
        Error::MultipleDials => "Found multiple dials"@,
        Error::UnexpectedEvt(evt) => "Unexpected event: "@ + input_event_text(
            evt.time.sec,
            evt.time.usec,
            evt.event_type,
            evt.code,
            evt.value,
        ),
        Error::Evdev(s) => "Evdev error: "@ + s@,
        Error::Notif(s) => "Notification error: "@ + s@,
        Error::TermSig => "Received termination signal (either SIGTERM or SIGINT)"@,
    }
}

impl Error {
    /// The text that describes this error to the user.
    pub fn message(&self) -> (r: String)
        requires
            error_describable(*self),
        ensures
            r@ == error_message(*self),
    {
        match self {
            Error::ConfigFile(s) => String::from_str("Could not open config file: ").concat(s.as_str()),
            Error::OpenDevInputDir(s) => String::from_str("Could not open /dev/input directory: ").concat(
                s.as_str(),
            ),
            Error::OpenEventFile(path, s) => {
                let quoted = debug_quoted_path(path.as_str());
                String::from_str("Could not open ").concat(quoted.as_str()).concat(": ").concat(s.as_str())
            },
            Error::HidError(s) => String::from_str("HID API Error: ").concat(s.as_str()),
            Error::MissingDial => String::from_str("Could not find the Surface Dial"),
            Error::MultipleDials => String::from_str("Found multiple dials"),
            Error::UnexpectedEvt(evt) => {
                let text = describe_event(evt);
                String::from_str("Unexpected event: ").concat(text.as_str())
            },
            Error::Evdev(s) => String::from_str("Evdev error: ").concat(s.as_str()),
            Error::Notif(s) => String::from_str("Notification error: ").concat(s.as_str()),
            Error::TermSig => String::from_str("Received termination signal (either SIGTERM or SIGINT)"),
        }
    }
}

} // verus!
