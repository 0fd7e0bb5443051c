use vstd::prelude::*;

use crate::fake_input::str_eq;

verus! {

/// The time of a kernel input event (`struct timeval`).
#[derive(Clone, Copy, Debug, PartialEq, Eq, Structural)]
pub struct TimeVal {
    pub sec: i64,
    pub usec: i64,
}

/// One event as the kernel reports it (`struct input_event`).
#[derive(Clone, Copy, Debug, PartialEq, Eq, Structural)]
pub struct RawEvent {
    pub time: TimeVal,
    pub event_type: u16,
    pub code: u16,
    pub value: i32,
}

/// What the device reader hands on: an input event, or a change of the
/// dial's connection.
#[derive(Clone, Copy, Debug, PartialEq, Eq, Structural)]
pub enum RawInputEvent {
    Event(RawEvent),
    Connect,
    Disconnect,
}

/// Which of the dial's two input devices a reader listens to.
#[derive(Clone, Copy, Debug, PartialEq, Eq, Structural)]
pub enum DialInputKind {
    Control,
    MultiAxis,
}

/// The `NAME` property (quotes included) of the input device of each kind.
pub open spec fn device_name(kind: DialInputKind) -> Seq<char> {
    match kind {
        DialInputKind::Control => "\"Surface Dial System Control\""@,
        DialInputKind::MultiAxis => "\"Surface Dial System Multi Axis\""@,
    }
}

/// Error number of a read from a device that has gone away (`ENODEV`).
pub const ENODEV: i32 = 19;

/// Whether a failed read from an event file means that the dial has
/// disconnected, which ends reading without an error.
pub fn is_disconnect(os_error: Option<i32>) -> (r: bool)
    ensures
        r == (os_error == Some(ENODEV)),
{
    match os_error {
        Some(code) => code == ENODEV,
        None => false,
    }
}

impl DialInputKind {
    /// Whether an input device whose parent has the `NAME` property `name`
    /// is the device of this kind.
    pub fn matches_device_name(&self, name: &str) -> (r: bool)
        ensures
            r == (name@ == device_name(*self)),
    {
        match self {
            DialInputKind::Control => str_eq(name, "\"Surface Dial System Control\""),
            DialInputKind::MultiAxis => str_eq(name, "\"Surface Dial System Multi Axis\""),
        }
    }

    /// Whether a reader of this kind reports the dial's connection and
    /// disconnection; only one of the two readers does, so that each is
    /// reported once.
    pub fn reports_connection(&self) -> (r: bool)
        ensures
            r == (*self != DialInputKind::Control),
    {
        match self {
            DialInputKind::Control => false,
            DialInputKind::MultiAxis => true,
        }
    }
}

} // verus!
