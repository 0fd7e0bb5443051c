use vstd::prelude::*;

use crate::fake_input::Key;

pub mod controls;

verus! {

/// How a control mode presents itself in the mode menu, and how the dial
/// should feel while it is active.
#[derive(Debug)]
pub struct ControlModeMeta {
    pub name: String,
    /// A FreeDesktop icon name or a `file://` path.
    pub icon: String,
    /// Whether the dial clicks while it turns.
    pub haptics: bool,
    /// Haptic clicks per full turn.
    pub steps: u16,
}

/// Whether `m` holds exactly the given name, icon, haptics and steps.
pub open spec fn meta_is(m: ControlModeMeta, name: Seq<char>, icon: Seq<char>, haptics: bool, steps: u16) -> bool {
    &&& m.name@ == name
    &&& m.icon@ == icon
    &&& m.haptics == haptics
    &&& m.steps == steps
}

/// Whether a reaction clicks exactly the chord `keys`.
pub open spec fn clicks(r: Option<Vec<Key>>, keys: Seq<Key>) -> bool {
    r matches Some(v) && v@ == keys
}

/// The chord of one key.
pub fn chord1(k: Key) -> (r: Vec<Key>)
    ensures
        r@ == seq![k],
{
    let mut r: Vec<Key> = Vec::new();
    r.push(k);
    r
}

/// The chord of two keys, in order.
pub fn chord2(a: Key, b: Key) -> (r: Vec<Key>)
    ensures
        r@ == seq![a, b],
{
    let mut r: Vec<Key> = Vec::new();
    r.push(a);
    r.push(b);
    r
}

/// The chord of three keys, in order.
pub fn chord3(a: Key, b: Key, c: Key) -> (r: Vec<Key>)
    ensures
        r@ == seq![a, b, c],
{
    let mut r: Vec<Key> = Vec::new();
    r.push(a);
    r.push(b);
    r.push(c);
    r
}

} // verus!
