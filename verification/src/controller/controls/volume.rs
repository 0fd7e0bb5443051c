use vstd::prelude::*;
use vstd::string::StringExecFns;

use crate::controller::{chord1, chord2, clicks, meta_is, ControlModeMeta};
use crate::fake_input::Key;

verus! {

/// Turning changes the volume; a click mutes.
#[derive(Debug)]
pub struct Volume {}

impl Volume {
    pub fn new() -> Volume {
        Volume {}
    }

    pub fn meta(&self) -> (r: ControlModeMeta)
        ensures
            meta_is(r, "Volume"@, "audio-volume-high"@, true, 72),
    {
        ControlModeMeta {
            name: String::from_str("Volume"),
            icon: String::from_str("audio-volume-high"),
            haptics: true,
            steps: 72,
        }
    }

    /// Pressing the button does nothing.
    pub fn on_btn_press(&mut self) -> (r: Option<Vec<Key>>)
        ensures
            r is None,
    {
        None
    }

    /// Releasing the button clicks mute.
    pub fn on_btn_release(&mut self) -> (r: Option<Vec<Key>>)
        ensures
            clicks(r, seq![Key::KEY_MUTE]),
    {
        Some(chord1(Key::KEY_MUTE))
    }

    /// Turning clockwise clicks volume up, otherwise volume down, each with
    /// shift held.
    pub fn on_dial(&mut self, delta: i32) -> (r: Option<Vec<Key>>)
        ensures
            delta > 0 ==> clicks(r, seq![Key::KEY_LEFTSHIFT, Key::KEY_VOLUMEUP]),
            delta <= 0 ==> clicks(r, seq![Key::KEY_LEFTSHIFT, Key::KEY_VOLUMEDOWN]),
    {
        if delta > 0 {
            Some(chord2(Key::KEY_LEFTSHIFT, Key::KEY_VOLUMEUP))
        } else {
            Some(chord2(Key::KEY_LEFTSHIFT, Key::KEY_VOLUMEDOWN))
        }
    }
}

} // verus!
