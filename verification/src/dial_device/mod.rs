use vstd::prelude::*;

use crate::error::Error;
use evdev::EventSummary;

pub mod events;

pub use events::{DialInputKind, RawEvent, RawInputEvent, TimeVal};

verus! {

/// Code of the dial's button (`BTN_0` in `linux/input-event-codes.h`).
pub const BTN_0: u16 = 0x100;

/// Code of the dial's rotation axis (`REL_DIAL`).
pub const REL_DIAL: u16 = 0x07;

/// The kinds of input event that the dial's logic tells apart.
#[derive(Clone, Copy, Debug, PartialEq, Eq, Structural)]
pub enum EventClass {
    Synchronization,
    Key { code: u16, value: i32 },
    RelativeAxis { code: u16, value: i32 },
    Misc,
    Other,
}

/// How an event of the given type is classified: types 0, 1, 2 and 4 are
/// synchronization, key, relative-axis and miscellaneous events.
pub open spec fn event_class(event_type: u16, code: u16, value: i32) -> EventClass {
    if event_type == 0 {
        EventClass::Synchronization
    } else if event_type == 1 {
        EventClass::Key { code, value }
    } else if event_type == 2 {
        EventClass::RelativeAxis { code, value }
    } else if event_type == 4 {
        EventClass::Misc
    } else {
        EventClass::Other
    }
}

/// Classifies an event with `evdev::InputEvent::destructure`, which sorts
/// an event by its type into synchronization (0), key (1), relative axis (2),
/// miscellaneous (4) and others, handing on the code and value unchanged.
#[verifier::external_body]
fn classify(event_type: u16, code: u16, value: i32) -> (r: EventClass)
    ensures
        r == event_class(event_type, code, value),
{
    match evdev::InputEvent::new(event_type, code, value).destructure() {
        EventSummary::Synchronization(..) => EventClass::Synchronization,
        EventSummary::Key(_, k, v) => EventClass::Key { code: k.0, value: v },
        EventSummary::RelativeAxis(_, c, v) => EventClass::RelativeAxis { code: c.0, value: v },
        EventSummary::Misc(..) => EventClass::Misc,
        _ => EventClass::Other,
    }
}

/// Time since the Unix epoch.
#[derive(Clone, Copy, Debug, PartialEq, Eq, Structural)]
pub struct EventTime {
    pub secs: u64,
    pub nanos: u32,
}

/// The nanoseconds that an event's time adds to its seconds, as evdev
/// computes them: microseconds truncated to 32 bits, times 1000.
pub open spec fn timeval_nanos(t: TimeVal) -> int {
    (t.usec as u32) * 1000
}

/// The event times that evdev turns into a system time without overflow:
/// the nanoseconds fit in 32 bits, and either the time is not before the
/// epoch and its seconds fit, or it is the earliest second (`i64::MIN`)
/// with no nanoseconds, which is the one time before the epoch that
/// subtracting from the epoch can reach.
pub open spec fn valid_timeval(t: TimeVal) -> bool {
    &&& timeval_nanos(t) <= u32::MAX
    &&& {
        ||| 0 <= t.sec && t.sec + timeval_nanos(t) / 1_000_000_000 <= i64::MAX
        ||| t.sec == i64::MIN && timeval_nanos(t) == 0
    }
}

/// Whether evdev can convert an event time (see `valid_timeval`).
pub fn timeval_convertible(t: TimeVal) -> (r: bool)
    ensures
        r == valid_timeval(t),
{
    let micros = t.usec as u32;
    let nanos: u64 = micros as u64 * 1000;
    if nanos > 0xffff_ffff {
        return false;
    }
    if t.sec < 0 {
        return t.sec == i64::MIN && nanos == 0;
    }
    let carry = (nanos / 1_000_000_000) as i64;
    t.sec <= i64::MAX - carry
}

/// The time since the epoch of an event time; a time before the epoch
/// counts as zero.
pub open spec fn event_time_of(t: TimeVal) -> EventTime {
    if t.sec < 0 {
        EventTime { secs: 0, nanos: 0 }
    } else {
        EventTime {
            secs: (t.sec + timeval_nanos(t) / 1_000_000_000) as u64,
            nanos: (timeval_nanos(t) % 1_000_000_000) as u32,
        }
    }
}

/// The time of an event since the epoch, from `evdev::InputEvent::timestamp`
/// and `SystemTime::duration_since(..).unwrap_or_default()`: evdev builds
/// the time as the epoch plus (or, for a negative `sec`, minus) `sec`
/// seconds and `usec as u32 * 1000` nanoseconds; a time before the epoch
/// gives zero. It panics on the overflows that `requires` leaves out.
#[verifier::external_body]
fn event_time(t: TimeVal) -> (r: EventTime)
    requires
        valid_timeval(t),
    ensures
        r == event_time_of(t),
{
    let tv = libc::timeval { tv_sec: t.sec, tv_usec: t.usec };
    let raw = libc::input_event { time: tv, type_: 0, code: 0, value: 0 };
    let since = evdev::InputEvent::from(raw).timestamp().duration_since(std::time::SystemTime::UNIX_EPOCH);
    let d = since.unwrap_or_default();
    EventTime { secs: d.as_secs(), nanos: d.subsec_nanos() }
}

/// The text of `{:?}` on the `evdev::InputEvent` with these fields.
pub uninterp spec fn input_event_text(sec: i64, usec: i64, event_type: u16, code: u16, value: i32) -> Seq<char>;

/// Formats an event with `evdev::InputEvent`'s `Debug`; the text is a
/// function of the event's fields (formatting the time panics for the times
/// that `valid_timeval` leaves out).
#[verifier::external_body]
pub(crate) fn describe_event(e: &RawEvent) -> (r: String)
    requires
        valid_timeval(e.time),
    ensures
        r@ == input_event_text(e.time.sec, e.time.usec, e.event_type, e.code, e.value),
{
    let tv = libc::timeval { tv_sec: e.time.sec, tv_usec: e.time.usec };
    let raw = libc::input_event { time: tv, type_: e.event_type, code: e.code, value: e.value };
    format!("{:?}", evdev::InputEvent::from(raw))
}

/// An event of the dial.
#[derive(Clone, Copy, Debug, PartialEq, Eq, Structural)]
pub enum DialEventKind {
    Connect,
    Disconnect,
    Ignored,
    ButtonPress,
    ButtonRelease,
    Dial(i32),
    /// Synthetic: the button has been held for the long-press timeout.
    ButtonLongPress,
}

/// An event of the dial and when it happened.
#[derive(Clone, Copy, Debug, PartialEq, Eq, Structural)]
pub struct DialEvent {
    pub time: EventTime,
    pub kind: DialEventKind,
}

/// The kind of dial event that an input event stands for, if any.
pub open spec fn dial_event_kind(e: RawEvent) -> Option<DialEventKind> {
    match event_class(e.event_type, e.code, e.value) {
        EventClass::Synchronization | EventClass::Misc => Some(DialEventKind::Ignored),
        EventClass::Key { code, value } => if code == BTN_0 && value == 0 {
            Some(DialEventKind::ButtonRelease)
        } else if code == BTN_0 && value == 1 {
            Some(DialEventKind::ButtonPress)
        } else {
            None
        },
        EventClass::RelativeAxis { code, value } => if code == REL_DIAL {
            Some(DialEventKind::Dial(value))
        } else {
            None
        },
        EventClass::Other => None,
    }
}

/// The time that a synthetic event carries.
pub open spec fn zero_time() -> EventTime {
    EventTime { secs: 0, nanos: 0 }
}

impl DialEvent {
    /// The dial event that an input event stands for: synchronization and
    /// miscellaneous events are ignored, the button and the rotation are
    /// recognised, anything else is not a dial event.
    pub fn from_raw_evt(evt: RawEvent) -> (r: Option<DialEvent>)
        requires
            valid_timeval(evt.time),
        ensures
            r == match dial_event_kind(evt) {
                Some(kind) => Some(DialEvent { time: event_time_of(evt.time), kind }),
                None => None,
            },
    {
        let time = event_time(evt.time);
        let kind = match classify(evt.event_type, evt.code, evt.value) {
            EventClass::Synchronization | EventClass::Misc => DialEventKind::Ignored,
            EventClass::Key { code, value } => {
                if code == BTN_0 && value == 0 {
                    DialEventKind::ButtonRelease
                } else if code == BTN_0 && value == 1 {
                    DialEventKind::ButtonPress
                } else {
                    return None;
                }
            },
            EventClass::RelativeAxis { code, value } => {
                if code == REL_DIAL {
                    DialEventKind::Dial(value)
                } else {
                    return None;
                }
            },
            EventClass::Other => {
                return None;
            },
        };
        Some(DialEvent { time, kind })
    }
}

/// What waiting for the next input gave: an input, or the end of the
/// long-press timeout.
#[derive(Clone, Copy, Debug, PartialEq, Eq, Structural)]
pub enum ReceivedInput {
    Input(RawInputEvent),
    TimedOut,
}

/// The inputs that `DialDevice::next_event` accepts in a given state: a
/// timeout only while a long press is possible, and event times that evdev
/// can convert.
pub open spec fn acceptable_input(waiting: bool, input: ReceivedInput) -> bool {
    match input {
        ReceivedInput::TimedOut => waiting,
        ReceivedInput::Input(RawInputEvent::Event(e)) => valid_timeval(e.time),
        _ => true,
    }
}

/// Whether a long press is possible after an input: a button press makes it
/// possible; a release, or the end of the wait (a long press), ends it.
pub open spec fn next_waiting(waiting: bool, input: ReceivedInput) -> bool {
    match input {
        ReceivedInput::TimedOut => false,
        ReceivedInput::Input(RawInputEvent::Event(e)) => match dial_event_kind(e) {
            Some(DialEventKind::ButtonPress) => true,
            Some(DialEventKind::ButtonRelease) => false,
            _ => waiting,
        },
        _ => waiting,
    }
}

/// Whether a long press is possible after a run of inputs given to a new
/// device.
pub open spec fn waiting_after(inputs: Seq<ReceivedInput>) -> bool
    decreases inputs.len(),
{
    if inputs.len() == 0 {
        false
    } else {
        next_waiting(waiting_after(inputs.drop_last()), inputs.last())
    }
}

/// Whether each input of a run is one that `next_event` accepts at its
/// point in the run, starting from a new device.
pub open spec fn acceptable_run(inputs: Seq<ReceivedInput>) -> bool {
    forall|n: int| 0 <= n < inputs.len() ==> acceptable_input(waiting_after(#[trigger] inputs.take(n)), inputs[n])
}

/// Whether an input is a press of the button.
pub open spec fn is_press(input: ReceivedInput) -> bool {
    input matches ReceivedInput::Input(RawInputEvent::Event(e)) && dial_event_kind(e) == Some(DialEventKind::ButtonPress)
}

/// Whether an input ends holding the button: a release, or a long press.
pub open spec fn ends_hold(input: ReceivedInput) -> bool {
    ||| input == ReceivedInput::TimedOut
    ||| input matches ReceivedInput::Input(RawInputEvent::Event(e)) && dial_event_kind(e) == Some(
        DialEventKind::ButtonRelease,
    )
}

/// Whether, after a run of inputs, the button has been pressed and neither
/// released nor long-pressed since.
pub open spec fn held(inputs: Seq<ReceivedInput>) -> bool {
    exists|i: int|
        0 <= i < inputs.len() && is_press(#[trigger] inputs[i]) && forall|j: int|
            i < j < inputs.len() ==> !ends_hold(#[trigger] inputs[j])
}

proof fn waiting_after_is_held(inputs: Seq<ReceivedInput>)
    ensures
        waiting_after(inputs) == held(inputs),
    decreases inputs.len(),
{
    if inputs.len() > 0 {
        let prefix = inputs.drop_last();
        let last = inputs.last();
        waiting_after_is_held(prefix);
        let n = inputs.len() - 1;
        assert(inputs[n] == last);
        if is_press(last) {
            assert(held(inputs));
        } else if ends_hold(last) {
            if held(inputs) {
                let i = choose|i: int|
                    0 <= i < inputs.len() && is_press(#[trigger] inputs[i]) && forall|j: int|
                        i < j < inputs.len() ==> !ends_hold(#[trigger] inputs[j]);
                assert(i != n);
                assert(!ends_hold(inputs[n]));
            }
        } else {
            if held(prefix) {
                let i = choose|i: int|
                    0 <= i < prefix.len() && is_press(#[trigger] prefix[i]) && forall|j: int|
                        i < j < prefix.len() ==> !ends_hold(#[trigger] prefix[j]);
                assert(is_press(inputs[i]));
                assert forall|j: int| i < j < inputs.len() implies !ends_hold(#[trigger] inputs[j]) by {
                    if j < n {
                        assert(inputs[j] == prefix[j]);
                    }
                }
            }
            if held(inputs) {
                let i = choose|i: int|
                    0 <= i < inputs.len() && is_press(#[trigger] inputs[i]) && forall|j: int|
                        i < j < inputs.len() ==> !ends_hold(#[trigger] inputs[j]);
                assert(i != n);
                assert(is_press(prefix[i]));
                assert forall|j: int| i < j < prefix.len() implies !ends_hold(#[trigger] prefix[j]) by {
                    assert(inputs[j] == prefix[j]);
                }
            }
        }
    }
}

/// A long press is reported only while the button is held: in any run of
/// inputs that a new device accepts, each end of the long-press wait comes
/// after a button press with no release or long press since, so each press
/// gives at most one long press.
pub proof fn long_press_only_while_held(inputs: Seq<ReceivedInput>)
    requires
        acceptable_run(inputs),
    ensures
        forall|n: int|
            0 <= n < inputs.len() && #[trigger] inputs[n] == ReceivedInput::TimedOut ==> held(inputs.take(n)),
        forall|m: int, n: int|
            0 <= m < n < inputs.len() && #[trigger] inputs[m] == ReceivedInput::TimedOut && #[trigger] inputs[n]
                == ReceivedInput::TimedOut ==> exists|i: int| m < i < n && is_press(#[trigger] inputs[i]),
{
    assert forall|n: int| 0 <= n < inputs.len() && #[trigger] inputs[n] == ReceivedInput::TimedOut implies held(
        inputs.take(n),
    ) by {
        assert(acceptable_input(waiting_after(inputs.take(n)), inputs[n]));
        waiting_after_is_held(inputs.take(n));
    }
    assert forall|m: int, n: int|
        0 <= m < n < inputs.len() && #[trigger] inputs[m] == ReceivedInput::TimedOut && #[trigger] inputs[n]
            == ReceivedInput::TimedOut implies exists|i: int| m < i < n && is_press(#[trigger] inputs[i]) by {
        let pre = inputs.take(n);
        assert(held(pre));
        let i = choose|i: int|
            0 <= i < pre.len() && is_press(#[trigger] pre[i]) && forall|j: int|
                i < j < pre.len() ==> !ends_hold(#[trigger] pre[j]);
        assert(pre[m] == inputs[m]);
        assert(ends_hold(pre[m]));
        assert(pre[i] == inputs[i]);
        assert(m < i);
        assert(is_press(inputs[i]));
    }
}

/// Turns the dial's inputs into dial events, and recognises a long press:
/// after a button press, the reader of inputs waits only for the long-press
/// timeout, and if it ends before the button is released, a long press is
/// reported.
#[derive(Debug)]
pub struct DialDevice {
    possible_long_press: bool,
}

impl DialDevice {
    /// A device that has seen no button press.
    pub fn new() -> (r: DialDevice)
        ensures
            !r.long_press_possible(),
    {
        DialDevice { possible_long_press: false }
    }

    /// Whether the button is held, so that the next wait for input ends
    /// after the long-press timeout.
    pub fn waits_for_long_press(&self) -> (r: bool)
        ensures
            r == self.long_press_possible(),
    {
        self.possible_long_press
    }

    /// Whether the last button event seen was a press.
    pub closed spec fn long_press_possible(&self) -> bool {
        self.possible_long_press
    }

    /// The dial event for what waiting for input gave.
    pub fn next_event(&mut self, input: ReceivedInput) -> (r: Result<DialEvent, Error>)
        requires
            acceptable_input(old(self).long_press_possible(), input),
        ensures
            final(self).long_press_possible() == next_waiting(old(self).long_press_possible(), input),
            (r matches Ok(ev) && ev.kind == DialEventKind::ButtonLongPress) <==> input == ReceivedInput::TimedOut,
            match input {
                ReceivedInput::TimedOut => {
                    &&& r == Ok::<DialEvent, Error>(DialEvent { time: zero_time(), kind: DialEventKind::ButtonLongPress })
                    &&& !final(self).long_press_possible()
                },
                ReceivedInput::Input(RawInputEvent::Connect) => {
                    &&& r == Ok::<DialEvent, Error>(DialEvent { time: zero_time(), kind: DialEventKind::Connect })
                    &&& final(self).long_press_possible() == old(self).long_press_possible()
                },
                ReceivedInput::Input(RawInputEvent::Disconnect) => {
                    &&& r == Ok::<DialEvent, Error>(DialEvent { time: zero_time(), kind: DialEventKind::Disconnect })
                    &&& final(self).long_press_possible() == old(self).long_press_possible()
                },
                ReceivedInput::Input(RawInputEvent::Event(e)) => match dial_event_kind(e) {
                    None => {
                        &&& r == Err::<DialEvent, Error>(Error::UnexpectedEvt(e))
                        &&& final(self).long_press_possible() == old(self).long_press_possible()
                    },
                    Some(kind) => {
                        &&& r == Ok::<DialEvent, Error>(DialEvent { time: event_time_of(e.time), kind })
                        &&& final(self).long_press_possible() == match kind {
                            DialEventKind::ButtonPress => true,
                            DialEventKind::ButtonRelease => false,
                            _ => old(self).long_press_possible(),
                        }
                    },
                },
            },
    {
        match input {
            ReceivedInput::Input(RawInputEvent::Event(e)) => {
                match DialEvent::from_raw_evt(e) {
                    None => Err(Error::UnexpectedEvt(e)),
                    Some(event) => {
                        match event.kind {
                            DialEventKind::ButtonPress => self.possible_long_press = true,
                            DialEventKind::ButtonRelease => self.possible_long_press = false,
                            _ => {},
                        }
                        Ok(event)
                    },
                }
            },
            ReceivedInput::Input(RawInputEvent::Connect) => {
                Ok(DialEvent { time: EventTime { secs: 0, nanos: 0 }, kind: DialEventKind::Connect })
            },
            ReceivedInput::Input(RawInputEvent::Disconnect) => {
                Ok(DialEvent { time: EventTime { secs: 0, nanos: 0 }, kind: DialEventKind::Disconnect })
            },
            ReceivedInput::TimedOut => {
                self.possible_long_press = false;
                Ok(DialEvent { time: EventTime { secs: 0, nanos: 0 }, kind: DialEventKind::ButtonLongPress })
            },
        }
    }
}

} // verus!
