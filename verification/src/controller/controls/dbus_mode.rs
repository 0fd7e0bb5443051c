use vstd::prelude::*;
use vstd::string::StringExecFns;

use crate::controller::{meta_is, ControlModeMeta};

verus! {

/// A D-Bus signal that the mode emits.
#[derive(Clone, Copy, Debug, PartialEq, Eq, Structural)]
pub enum DbusEvent {
    Rotated(i32),
    Pressed,
    Released,
}

/// Forwards the dial's events as D-Bus signals of `com.dialmenu.Daemon`.
#[derive(Debug)]
pub struct DbusMode {}

impl DbusMode {
    pub fn new() -> DbusMode {
        DbusMode {}
    }

    pub fn meta(&self) -> (r: ControlModeMeta)
        ensures
            meta_is(r, "DbusMode"@, "network-transmit"@, false, 36),
    {
        ControlModeMeta {
            name: String::from_str("DbusMode"),
            icon: String::from_str("network-transmit"),
            haptics: false,
            steps: 36,
        }
    }

    pub fn on_btn_press(&mut self) -> (r: DbusEvent)
        ensures
            r == DbusEvent::Pressed,
    {
        DbusEvent::Pressed
    }

    pub fn on_btn_release(&mut self) -> (r: DbusEvent)
        ensures
            r == DbusEvent::Released,
    {
        DbusEvent::Released
    }

    pub fn on_dial(&mut self, delta: i32) -> (r: DbusEvent)
        ensures
            r == DbusEvent::Rotated(delta),
    {
        DbusEvent::Rotated(delta)
    }
}

} // verus!
