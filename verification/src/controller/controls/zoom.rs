use vstd::prelude::*;
use vstd::string::StringExecFns;

use crate::controller::{chord2, clicks, meta_is, ControlModeMeta};
use crate::fake_input::Key;

verus! {

/// Turning zooms in and out.
#[derive(Debug)]
pub struct Zoom {}

impl Zoom {
    pub fn new() -> Zoom {
        Zoom {}
    }

    pub fn meta(&self) -> (r: ControlModeMeta)
        ensures
            meta_is(r, "Zoom"@, "zoom-in"@, true, 36),
    {
        ControlModeMeta {
            name: String::from_str("Zoom"),
            icon: String::from_str("zoom-in"),
            haptics: true,
            steps: 36,
        }
    }

    /// Pressing the button does nothing.
    pub fn on_btn_press(&mut self) -> (r: Option<Vec<Key>>)
        ensures
            r is None,
    {
        None
    }

    /// Releasing the button does nothing.
    pub fn on_btn_release(&mut self) -> (r: Option<Vec<Key>>)
        ensures
            r is None,
    {
        None
    }

    /// Turning clockwise clicks ctrl and `=`, otherwise ctrl and `-`.
    pub fn on_dial(&mut self, delta: i32) -> (r: Option<Vec<Key>>)
        ensures
            delta > 0 ==> clicks(r, seq![Key::KEY_LEFTCTRL, Key::KEY_EQUAL]),
            delta <= 0 ==> clicks(r, seq![Key::KEY_LEFTCTRL, Key::KEY_MINUS]),
    {
        if delta > 0 {
            Some(chord2(Key::KEY_LEFTCTRL, Key::KEY_EQUAL))
        } else {
            Some(chord2(Key::KEY_LEFTCTRL, Key::KEY_MINUS))
        }
    }
}

} // verus!
