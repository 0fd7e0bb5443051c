use vstd::prelude::*;
use vstd::string::StringExecFns;

use crate::controller::{chord1, clicks, meta_is, ControlModeMeta};
use crate::fake_input::Key;

verus! {

/// Turning skips between tracks; a click plays or pauses.
#[derive(Debug)]
pub struct Media {}

impl Media {
    pub fn new() -> Media {
        Media {}
    }

    pub fn meta(&self) -> (r: ControlModeMeta)
        ensures
            meta_is(r, "Media"@, "applications-multimedia"@, true, 36),
    {
        ControlModeMeta {
            name: String::from_str("Media"),
            icon: String::from_str("applications-multimedia"),
            haptics: true,
            steps: 36,
        }
    }

    /// Pressing the button does nothing.
    pub fn on_btn_press(&mut self) -> (r: Option<Vec<Key>>)
        ensures
            r is None,
    {
        None
    }

    /// Releasing the button clicks play/pause.
    pub fn on_btn_release(&mut self) -> (r: Option<Vec<Key>>)
        ensures
            clicks(r, seq![Key::KEY_PLAYPAUSE]),
    {
        Some(chord1(Key::KEY_PLAYPAUSE))
    }

    /// Turning clockwise clicks next track, otherwise previous track.
    pub fn on_dial(&mut self, delta: i32) -> (r: Option<Vec<Key>>)
        ensures
            delta > 0 ==> clicks(r, seq![Key::KEY_NEXTSONG]),
            delta <= 0 ==> clicks(r, seq![Key::KEY_PREVIOUSSONG]),
    {
        if delta > 0 {
            Some(chord1(Key::KEY_NEXTSONG))
        } else {
            Some(chord1(Key::KEY_PREVIOUSSONG))
        }
    }
}

} // verus!
