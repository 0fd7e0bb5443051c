//! Control modes defined in `modes.yaml`.
//!
//! Each entry of the file names a mode, its icon and haptics, and the key
//! chords to click on the button's press and release and on clockwise and
//! counter-clockwise rotation. Every key name must be one that
//! `parse_key_code` supports.

use vstd::prelude::*;
use vstd::string::StringExecFns;

use crate::controller::{clicks, meta_is, ControlModeMeta};
use crate::error::{debug_quoted, debug_text, Error};
use crate::fake_input::{key_named, parse_key_code, Key};

verus! {

/// One entry of `modes.yaml`, with the defaults filled in.
#[derive(Debug)]
pub struct ModeSpec {
    pub name: String,
    pub icon: String,
    pub haptics: bool,
    pub steps: u16,
    pub on_btn_press: Vec<String>,
    pub on_btn_release: Vec<String>,
    /// Keys sent on clockwise rotation (positive delta).
    pub on_dial_cw: Vec<String>,
    /// Keys sent on counter-clockwise rotation (negative delta).
    pub on_dial_ccw: Vec<String>,
}

/// The icon of a mode that names none.
pub fn default_icon() -> (r: String)
    ensures
        r@ == "input-keyboard"@,
{
    String::from_str("input-keyboard")
}

/// The haptic steps of a mode that names none.
pub fn default_steps() -> (r: u16)
    ensures
        r == 36,
{
    36
}

/// The characters of each string of a list.
pub open spec fn names_of(v: Vec<String>) -> Seq<Seq<char>> {
    v@.map_values(|s: String| s@)
}

/// Whether every name of a list is a supported key.
pub open spec fn all_known(names: Seq<Seq<char>>) -> bool {
    forall|i: int| 0 <= i < names.len() ==> (#[trigger] key_named(names[i])) is Some
}

/// The keys that the names of a list name.
pub open spec fn keys_of(names: Seq<Seq<char>>) -> Seq<Key> {
    names.map_values(|s: Seq<char>| key_named(s)->0)
}

/// Whether `i` is the first name of the list that no key has.
pub open spec fn is_first_unknown(names: Seq<Seq<char>>, i: int) -> bool {
    &&& 0 <= i < names.len()
    &&& key_named(names[i]) is None
    &&& forall|j: int| 0 <= j < i ==> (#[trigger] key_named(names[j])) is Some
}

/// The message for a name of the field `field` that no key has.
pub open spec fn unknown_key_message(field: Seq<char>, name: Seq<char>) -> Seq<char> {
    "modes.yaml: unknown key "@ + debug_text(name) + " in field `"@ + field + "`"@
}

/// Whether `e` reports the first unknown name of a list in `field`.
pub open spec fn reports_unknown_key(e: Error, field: Seq<char>, names: Seq<Seq<char>>) -> bool {
    exists|i: int|
        is_first_unknown(names, i) && (e matches Error::ConfigFile(m) && m@ == unknown_key_message(
            field,
            names[i],
        ))
}

/// Whether `r` is the outcome of resolving the names of the field `field`:
/// the keys when every name is known, else the error for the first
/// unknown name.
pub open spec fn resolved(r: Result<Vec<Key>, Error>, field: Seq<char>, names: Seq<Seq<char>>) -> bool {
    match r {
        Ok(keys) => all_known(names) && keys@ == keys_of(names),
        Err(e) => !all_known(names) && reports_unknown_key(e, field, names),
    }
}

/// Resolves the key names of the field `field`.
pub fn resolve_keys(field: &str, names: &[String]) -> (r: Result<Vec<Key>, Error>)
    ensures
        resolved(r, field@, names@.map_values(|s: String| s@)),
{
    let ghost all = names@.map_values(|s: String| s@);
    let mut keys: Vec<Key> = Vec::new();
    let mut i: usize = 0;
    while i < names.len()
        invariant
            i <= names@.len(),
            all == names@.map_values(|s: String| s@),
            keys@ == keys_of(all.subrange(0, i as int)),
            forall|j: int| 0 <= j < i ==> (#[trigger] key_named(all[j])) is Some,
        decreases names@.len() - i,
    {
        match parse_key_code(names[i].as_str()) {
            Some(k) => {
                keys.push(k);
                proof {
                    assert(all.subrange(0, i + 1) =~= all.subrange(0, i as int).push(all[i as int]));
                }
            },
            None => {
                let quoted = debug_quoted(names[i].as_str());
                let msg = String::from_str("modes.yaml: unknown key ").concat(quoted.as_str()).concat(
                    " in field `",
                ).concat(field).concat("`");
                let e = Error::ConfigFile(msg);
                proof {
                    assert(is_first_unknown(all, i as int));
                }
                return Err(e);
            },
        }
        i = i + 1;
    }
    proof {
        assert(all.subrange(0, i as int) =~= all);
    }
    Ok(keys)
}

/// A control mode read from `modes.yaml`: it clicks the chords that its
/// entry names.
#[derive(Debug)]
pub struct ConfigMode {
    name: String,
    icon: String,
    haptics: bool,
    steps: u16,
    btn_press: Vec<Key>,
    btn_release: Vec<Key>,
    dial_cw: Vec<Key>,
    dial_ccw: Vec<Key>,
}

/// Whether every key name of a mode's entry is a supported key.
pub open spec fn spec_is_valid(spec: ModeSpec) -> bool {
    &&& all_known(names_of(spec.on_btn_press))
    &&& all_known(names_of(spec.on_btn_release))
    &&& all_known(names_of(spec.on_dial_cw))
    &&& all_known(names_of(spec.on_dial_ccw))
}

/// Whether `e` is the error for an invalid entry: the error of its first
/// field, in the order press, release, clockwise, counter-clockwise, that
/// holds an unknown key.
pub open spec fn spec_error(spec: ModeSpec, e: Error) -> bool {
    let press = names_of(spec.on_btn_press);
    let release = names_of(spec.on_btn_release);
    let cw = names_of(spec.on_dial_cw);
    let ccw = names_of(spec.on_dial_ccw);
    if !all_known(press) {
        reports_unknown_key(e, "on_btn_press"@, press)
    } else if !all_known(release) {
        reports_unknown_key(e, "on_btn_release"@, release)
    } else if !all_known(cw) {
        reports_unknown_key(e, "on_dial_cw"@, cw)
    } else {
        reports_unknown_key(e, "on_dial_ccw"@, ccw)
    }
}

impl ConfigMode {
    pub closed spec fn name(&self) -> Seq<char> {
        self.name@
    }

    pub closed spec fn icon(&self) -> Seq<char> {
        self.icon@
    }

    pub closed spec fn haptics(&self) -> bool {
        self.haptics
    }

    pub closed spec fn steps(&self) -> u16 {
        self.steps
    }

    pub closed spec fn btn_press(&self) -> Seq<Key> {
        self.btn_press@
    }

    pub closed spec fn btn_release(&self) -> Seq<Key> {
        self.btn_release@
    }

    pub closed spec fn dial_cw(&self) -> Seq<Key> {
        self.dial_cw@
    }

    pub closed spec fn dial_ccw(&self) -> Seq<Key> {
        self.dial_ccw@
    }

    /// Whether this mode is the one that a valid entry describes.
    pub open spec fn made_from(&self, spec: ModeSpec) -> bool {
        &&& self.name() == spec.name@
        &&& self.icon() == spec.icon@
        &&& self.haptics() == spec.haptics
        &&& self.steps() == spec.steps
        &&& self.btn_press() == keys_of(names_of(spec.on_btn_press))
        &&& self.btn_release() == keys_of(names_of(spec.on_btn_release))
        &&& self.dial_cw() == keys_of(names_of(spec.on_dial_cw))
        &&& self.dial_ccw() == keys_of(names_of(spec.on_dial_ccw))
    }

    /// The mode that an entry describes, or the error for its first
    /// unknown key.
    pub fn from_spec(spec: ModeSpec) -> (r: Result<ConfigMode, Error>)
        ensures
            r is Ok <==> spec_is_valid(spec),
            r matches Ok(m) ==> m.made_from(spec),
            r matches Err(e) ==> spec_error(spec, e),
    {
        let btn_press = match resolve_keys("on_btn_press", spec.on_btn_press.as_slice()) {
            Ok(k) => k,
            Err(e) => {
                return Err(e);
            },
        };
        let btn_release = match resolve_keys("on_btn_release", spec.on_btn_release.as_slice()) {
            Ok(k) => k,
            Err(e) => {
                return Err(e);
            },
        };
        let dial_cw = match resolve_keys("on_dial_cw", spec.on_dial_cw.as_slice()) {
            Ok(k) => k,
            Err(e) => {
                return Err(e);
            },
        };
        let dial_ccw = match resolve_keys("on_dial_ccw", spec.on_dial_ccw.as_slice()) {
            Ok(k) => k,
            Err(e) => {
                return Err(e);
            },
        };
        Ok(
            ConfigMode {
                btn_press,
                btn_release,
                dial_cw,
                dial_ccw,
                name: spec.name,
                icon: spec.icon,
                haptics: spec.haptics,
                steps: spec.steps,
            },
        )
    }

    pub fn meta(&self) -> (r: ControlModeMeta)
        ensures
            meta_is(r, self.name(), self.icon(), self.haptics(), self.steps()),
    {
        ControlModeMeta {
            name: self.name.clone(),
            icon: self.icon.clone(),
            haptics: self.haptics,
            steps: self.steps,
        }
    }

    /// Pressing the button clicks the press chord, if there is one.
    pub fn on_btn_press(&mut self) -> (r: Option<Vec<Key>>)
        ensures
            *final(self) == *old(self),
            old(self).btn_press().len() == 0 ==> r is None,
            old(self).btn_press().len() > 0 ==> clicks(r, old(self).btn_press()),
    {
        chord_to_click(&self.btn_press)
    }

    /// Releasing the button clicks the release chord, if there is one.
    pub fn on_btn_release(&mut self) -> (r: Option<Vec<Key>>)
        ensures
            *final(self) == *old(self),
            old(self).btn_release().len() == 0 ==> r is None,
            old(self).btn_release().len() > 0 ==> clicks(r, old(self).btn_release()),
    {
        chord_to_click(&self.btn_release)
    }

    /// Turning clockwise clicks the clockwise chord, otherwise the
    /// counter-clockwise one, if there is one.
    pub fn on_dial(&mut self, delta: i32) -> (r: Option<Vec<Key>>)
        ensures
            *final(self) == *old(self),
            ({
                let keys = if delta > 0 {
                    old(self).dial_cw()
                } else {
                    old(self).dial_ccw()
                };
                &&& keys.len() == 0 ==> r is None
                &&& keys.len() > 0 ==> clicks(r, keys)
            }),
    {
        let keys = if delta > 0 {
            &self.dial_cw
        } else {
            &self.dial_ccw
        };
        chord_to_click(keys)
    }
}

/// The chord to click: none when it is empty.
fn chord_to_click(keys: &Vec<Key>) -> (r: Option<Vec<Key>>)
    ensures
        keys@.len() == 0 ==> r is None,
        keys@.len() > 0 ==> clicks(r, keys@),
{
    if keys.len() == 0 {
        return None;
    }
    let mut r: Vec<Key> = Vec::new();
    let mut i: usize = 0;
    while i < keys.len()
        invariant
            i <= keys@.len(),
            r@ == keys@.subrange(0, i as int),
        decreases keys@.len() - i,
    {
        r.push(keys[i]);
        proof {
            assert(keys@.subrange(0, i + 1) =~= keys@.subrange(0, i as int).push(keys@[i as int]));
        }
        i = i + 1;
    }
    proof {
        assert(keys@.subrange(0, i as int) =~= keys@);
    }
    Some(r)
}

/// Whether `i` is the first entry of a list that is not valid.
pub open spec fn is_first_invalid(specs: Seq<ModeSpec>, i: int) -> bool {
    &&& 0 <= i < specs.len()
    &&& !spec_is_valid(specs[i])
    &&& forall|j: int| 0 <= j < i ==> spec_is_valid(#[trigger] specs[j])
}

/// The modes of all entries of `modes.yaml`, in order, or the error of the
/// first entry that names an unknown key.
pub fn modes_from_specs(specs: Vec<ModeSpec>) -> (r: Result<Vec<ConfigMode>, Error>)
    ensures
        r is Ok <==> forall|i: int| 0 <= i < specs@.len() ==> spec_is_valid(#[trigger] specs@[i]),
        r matches Ok(modes) ==> {
            &&& modes@.len() == specs@.len()
            &&& forall|i: int| 0 <= i < specs@.len() ==> (#[trigger] modes@[i]).made_from(specs@[i])
        },
        r matches Err(e) ==> exists|i: int| is_first_invalid(specs@, i) && spec_error(specs@[i], e),
{
    let ghost all = specs@;
    let mut specs = specs;
    assert(all.subrange(0, all.len() as int) =~= all);
    let mut modes: Vec<ConfigMode> = Vec::new();
    #[verifier::loop_isolation(false)]
    while specs.len() > 0
        invariant
            modes@.len() + specs@.len() == all.len(),
            specs@ == all.subrange(modes@.len() as int, all.len() as int),
            forall|j: int| 0 <= j < modes@.len() ==> spec_is_valid(#[trigger] all[j]),
            forall|j: int| 0 <= j < modes@.len() ==> (#[trigger] modes@[j]).made_from(all[j]),
        decreases specs@.len(),
    {
        let ghost k = modes@.len() as int;
        let spec = specs.remove(0);
        assert(spec == all[k]);
        match ConfigMode::from_spec(spec) {
            Ok(m) => {
                modes.push(m);
                assert(specs@ =~= all.subrange(k + 1, all.len() as int));
            },
            Err(e) => {
                assert(is_first_invalid(all, k));
                assert(!spec_is_valid(all[k]));
                return Err(e);
            },
        }
    }
    assert(modes@.len() == all.len());
    Ok(modes)
}

} // verus!
