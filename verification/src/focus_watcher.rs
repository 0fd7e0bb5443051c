//! Switching the control mode with the focused window.
//!
//! Profiles come from `~/.config/surface-dial/profiles.toml`; the watcher
//! polls the windows of GNOME Shell and, whenever another application gets
//! the focus, switches to the mode of the first profile that matches it.

use vstd::prelude::*;
use vstd::string::{StrSliceExecFns, StringExecFns};

use crate::fake_input::str_eq;

verus! {

/// One profile: the mode to use for applications whose app-id contains
/// `match_app_id` (compared case-insensitively). A profile without
/// `match_app_id` is a default.
#[derive(Debug)]
pub struct Profile {
    pub name: String,
    pub match_app_id: Option<String>,
    /// Name of the control mode to activate (e.g. "DbusMode", "Scroll").
    pub mode: String,
}

/// What the watcher reads of a window: its `has-focus` and `app-id`
/// properties, each `None` when it is missing or of another type.
#[derive(Debug)]
pub struct WindowProps {
    pub has_focus: Option<bool>,
    pub app_id: Option<String>,
}

/// The lower-case form of a string, as `str::to_lowercase` computes it.
pub uninterp spec fn lowercase(s: Seq<char>) -> Seq<char>;

/// `str::to_lowercase`: the string with every character mapped to its
/// Unicode lower-case form; a function of the string alone.
#[verifier::external_body]
fn to_lowercase(s: &str) -> (r: String)
    ensures
        r@ == lowercase(s@),
{
    s.to_lowercase()
}

/// Whether `needle` occurs in `hay` as a contiguous part.
pub open spec fn has_substring(hay: Seq<char>, needle: Seq<char>) -> bool {
    exists|i: int| 0 <= i <= hay.len() - needle.len() && #[trigger] hay.subrange(i, i + needle.len()) == needle
}

/// The characters of a string.
fn chars_of(s: &str) -> (r: Vec<char>)
    ensures
        r@ == s@,
{
    let n = s.unicode_len();
    let mut r: Vec<char> = Vec::new();
    let mut i: usize = 0;
    while i < n
        invariant
            n == s@.len(),
            i <= n,
            r@ == s@.subrange(0, i as int),
        decreases n - i,
    {
        r.push(s.get_char(i));
        proof {
            assert(s@.subrange(0, i + 1) =~= s@.subrange(0, i as int).push(s@[i as int]));
        }
        i = i + 1;
    }
    proof {
        assert(s@.subrange(0, n as int) =~= s@);
    }
    r
}

/// Whether `n` occurs in `h` at position `i`.
fn occurs_at(h: &Vec<char>, n: &Vec<char>, i: usize) -> (r: bool)
    requires
        i + n@.len() <= h@.len(),
    ensures
        r == (h@.subrange(i as int, i + n@.len()) == n@),
{
    let hl = h.len();
    let mut j: usize = 0;
    while j < n.len()
        invariant
            i + n@.len() <= h@.len(),
            hl == h@.len(),
            j <= n@.len(),
            forall|m: int| 0 <= m < j ==> h@[i + m] == n@[m],
            n@.len() == n.len(),
        decreases n@.len() - j,
    {
        if h[i + j] != n[j] {
            proof {
                assert(h@.subrange(i as int, i + n@.len())[j as int] == h@[i + j]);
            }
            return false;
        }
        j = j + 1;
    }
    proof {
        assert(h@.subrange(i as int, i + n@.len()) =~= n@);
    }
    true
}

/// Whether `needle` occurs in `hay`.
pub fn str_contains(hay: &str, needle: &str) -> (r: bool)
    ensures
        r == has_substring(hay@, needle@),
{
    let h = chars_of(hay);
    let n = chars_of(needle);
    if n.len() > h.len() {
        return false;
    }
    let last = h.len() - n.len();
    let mut i: usize = 0;
    while i < last
        invariant
            h@ == hay@,
            n@ == needle@,
            n@.len() <= h@.len(),
            last == h@.len() - n@.len(),
            i <= last,
            forall|k: int| 0 <= k < i ==> #[trigger] h@.subrange(k, k + n@.len()) != n@,
        decreases last - i,
    {
        if occurs_at(&h, &n, i) {
            return true;
        }
        i = i + 1;
    }
    if occurs_at(&h, &n, last) {
        return true;
    }
    proof {
        assert forall|k: int| 0 <= k <= hay@.len() - needle@.len() implies #[trigger] hay@.subrange(
            k,
            k + needle@.len(),
        ) != needle@ by {
            assert(h@.subrange(k, k + n@.len()) != n@);
        }
    }
    false
}

/// Whether a profile's rule matches an app-id given in lower case.
pub open spec fn rule_matches(p: Profile, app_id_lower: Seq<char>) -> bool {
    p.match_app_id matches Some(m) && has_substring(app_id_lower, lowercase(m@))
}

/// Whether profile `i` is the first whose rule matches.
pub open spec fn is_first_match(ps: Seq<Profile>, app_id_lower: Seq<char>, i: int) -> bool {
    &&& 0 <= i < ps.len()
    &&& rule_matches(ps[i], app_id_lower)
    &&& forall|j: int| 0 <= j < i ==> !rule_matches(#[trigger] ps[j], app_id_lower)
}

/// Whether profile `i` is the first default profile.
pub open spec fn is_first_default(ps: Seq<Profile>, i: int) -> bool {
    &&& 0 <= i < ps.len()
    &&& ps[i].match_app_id is None
    &&& forall|j: int| 0 <= j < i ==> (#[trigger] ps[j]).match_app_id is Some
}

/// The mode for an app-id: that of the first profile whose rule matches,
/// else that of the first default profile, else "Scroll".
pub open spec fn chosen_mode(ps: Seq<Profile>, app_id: Seq<char>) -> Seq<char> {
    let low = lowercase(app_id);
    if exists|i: int| is_first_match(ps, low, i) {
        ps[choose|i: int| is_first_match(ps, low, i)].mode@
    } else if exists|i: int| is_first_default(ps, i) {
        ps[choose|i: int| is_first_default(ps, i)].mode@
    } else {
        "Scroll"@
    }
}

/// The characters of an optional string.
pub open spec fn opt_chars(o: Option<String>) -> Option<Seq<char>> {
    match o {
        Some(s) => Some(s@),
        None => None,
    }
}

/// Whether window `i` is the first with the focus.
pub open spec fn is_first_focused(ws: Seq<WindowProps>, i: int) -> bool {
    &&& 0 <= i < ws.len()
    &&& ws[i].has_focus == Some(true)
    &&& forall|j: int| 0 <= j < i ==> (#[trigger] ws[j]).has_focus != Some(true)
}

/// The app-id of the first focused window: `None` when no window has the
/// focus, or when the first that has it has no app-id.
pub open spec fn focused_app_id(ws: Seq<WindowProps>) -> Option<Seq<char>> {
    if exists|i: int| is_first_focused(ws, i) {
        opt_chars(ws[choose|i: int| is_first_focused(ws, i)].app_id)
    } else {
        None
    }
}

/// A copy of a string.
fn copy_string(s: &String) -> (r: String)
    ensures
        r@ == s@,
{
    s.clone()
}

#[derive(Debug)]
pub struct FocusWatcher;

impl FocusWatcher {
    /// The app-id of the focused window, in the order in which the windows
    /// are listed.
    pub fn find_focused_app_id(windows: &[WindowProps]) -> (r: Option<String>)
        ensures
            opt_chars(r) == focused_app_id(windows@),
    {
        let mut i: usize = 0;
        while i < windows.len()
            invariant
                i <= windows@.len(),
                forall|j: int| 0 <= j < i ==> (#[trigger] windows@[j]).has_focus != Some(true),
            decreases windows@.len() - i,
        {
            let focused = match windows[i].has_focus {
                Some(b) => b,
                None => false,
            };
            if focused {
                proof {
                    assert(is_first_focused(windows@, i as int));
                    let c = choose|c: int| is_first_focused(windows@, c);
                    assert(c == i) by {
                        if c < i {
                            assert(windows@[c].has_focus != Some(true));
                        }
                        if c > i {
                            assert(windows@[i as int].has_focus != Some(true));
                        }
                    }
                }
                return match &windows[i].app_id {
                    Some(id) => Some(copy_string(id)),
                    None => None,
                };
            }
            i = i + 1;
        }
        None
    }

    /// The mode for the application `app_id`: the first profile whose
    /// `match_app_id` occurs in `app_id`, ignoring case, wins; else the
    /// first profile without `match_app_id`; else "Scroll".
    pub fn match_profile(profiles: &[Profile], app_id: &str) -> (r: String)
        ensures
            r@ == chosen_mode(profiles@, app_id@),
    {
        let app_id_lower = to_lowercase(app_id);
        let ghost low = app_id_lower@;
        let mut i: usize = 0;
        while i < profiles.len()
            invariant
                i <= profiles@.len(),
                low == app_id_lower@,
                low == lowercase(app_id@),
                forall|j: int| 0 <= j < i ==> !rule_matches(#[trigger] profiles@[j], low),
            decreases profiles@.len() - i,
        {
            match &profiles[i].match_app_id {
                Some(match_id) => {
                    let match_lower = to_lowercase(match_id.as_str());
                    if str_contains(app_id_lower.as_str(), match_lower.as_str()) {
                        proof {
                            assert(is_first_match(profiles@, low, i as int));
                            let c = choose|c: int| is_first_match(profiles@, low, c);
                            assert(c == i) by {
                                if c < i {
                                    assert(!rule_matches(profiles@[c], low));
                                }
                                if c > i {
                                    assert(!rule_matches(profiles@[i as int], low));
                                }
                            }
                        }
                        return copy_string(&profiles[i].mode);
                    }
                },
                None => {},
            }
            i = i + 1;
        }
        let mut i: usize = 0;
        while i < profiles.len()
            invariant
                i <= profiles@.len(),
                low == lowercase(app_id@),
                forall|j: int| 0 <= j < profiles@.len() ==> !rule_matches(#[trigger] profiles@[j], low),
                forall|j: int| 0 <= j < i ==> (#[trigger] profiles@[j]).match_app_id is Some,
            decreases profiles@.len() - i,
        {
            if profiles[i].match_app_id.is_none() {
                proof {
                    assert(is_first_default(profiles@, i as int));
                    let c = choose|c: int| is_first_default(profiles@, c);
                    assert(c == i) by {
                        if c < i {
                            assert(profiles@[c].match_app_id is Some);
                        }
                        if c > i {
                            assert(profiles@[i as int].match_app_id is Some);
                        }
                    }
                }
                return copy_string(&profiles[i].mode);
            }
            i = i + 1;
        }
        String::from_str("Scroll")
    }
}

/// What one poll of the windows does, given the app-id of the last
/// switch: the new last app-id, and the mode to switch to, if any. Nothing
/// happens when no app-id is focused or when it is the last one.
pub open spec fn poll_outcome(last: Seq<char>, ws: Seq<WindowProps>, ps: Seq<Profile>) -> (
    Seq<char>,
    Option<Seq<char>>,
) {
    match focused_app_id(ws) {
        None => (last, None),
        Some(id) => if id == last {
            (last, None)
        } else {
            (id, Some(chosen_mode(ps, id)))
        },
    }
}

/// The decisions of the focus watcher between polls: it remembers the
/// app-id of its last switch so as to switch only when the focus moves to
/// another application.
#[derive(Debug)]
pub struct FocusTracker {
    last_app_id: String,
}

impl FocusTracker {
    /// The app-id of the last switch.
    pub closed spec fn last(&self) -> Seq<char> {
        self.last_app_id@
    }

    /// A tracker that has not switched yet.
    pub fn new() -> (r: FocusTracker)
        ensures
            r.last() == Seq::<char>::empty(),
    {
        FocusTracker { last_app_id: String::new() }
    }

    /// Handles one poll of the windows: returns the name of the mode to
    /// switch to, if any.
    pub fn observe(&mut self, windows: &[WindowProps], profiles: &[Profile]) -> (r: Option<String>)
        ensures
            (final(self).last(), opt_chars(r)) == poll_outcome(old(self).last(), windows@, profiles@),
    {
        let focused = match FocusWatcher::find_focused_app_id(windows) {
            Some(id) => id,
            None => {
                return None;
            },
        };
        if str_eq(focused.as_str(), self.last_app_id.as_str()) {
            return None;
        }
        let mode = FocusWatcher::match_profile(profiles, focused.as_str());
        self.last_app_id = focused;
        Some(mode)
    }
}

/// Profiles match app-ids without regard to case: app-ids with the same
/// lower-case form get the same mode.
pub proof fn matching_ignores_case(ps: Seq<Profile>, a: Seq<char>, b: Seq<char>)
    requires
        lowercase(a) == lowercase(b),
    ensures
        chosen_mode(ps, a) == chosen_mode(ps, b),
{
}

/// A poll that finds the same focused application as the poll before it
/// switches nothing: the watcher switches once per change of focus.
pub proof fn repeated_poll_switches_nothing(last: Seq<char>, ws: Seq<WindowProps>, ps: Seq<Profile>)
    ensures
        poll_outcome(poll_outcome(last, ws, ps).0, ws, ps).1 is None,
{
}

/// A string occurs in another exactly when the other is made of some text,
/// the string, and some more text.
pub proof fn substring_is_a_middle_part(hay: Seq<char>, needle: Seq<char>)
    ensures
        has_substring(hay, needle) <==> exists|a: Seq<char>, c: Seq<char>| hay == a + needle + c,
{
    if has_substring(hay, needle) {
        let i = choose|i: int|
            0 <= i <= hay.len() - needle.len() && #[trigger] hay.subrange(i, i + needle.len()) == needle;
        let a = hay.subrange(0, i);
        let c = hay.subrange(i + needle.len(), hay.len() as int);
        assert(hay =~= a + needle + c);
    }
    if exists|a: Seq<char>, c: Seq<char>| hay == a + needle + c {
        let (a, c) = choose|a: Seq<char>, c: Seq<char>| hay == a + needle + c;
        let i = a.len() as int;
        assert(hay.subrange(i, i + needle.len()) =~= needle);
    }
}

/// The mode for an app-id is that of the first profile whose `match_app_id`
/// occurs in the app-id, both in lower case, whatever later profiles say;
/// when none matches, that of the first profile without `match_app_id`;
/// when there is none either, "Scroll".
pub proof fn first_matching_profile_wins(ps: Seq<Profile>, app_id: Seq<char>, i: int)
    requires
        0 <= i < ps.len(),
    ensures
        ({
            let low = lowercase(app_id);
            (ps[i].match_app_id matches Some(m) && has_substring(low, lowercase(m@))) && (forall|j: int|
                0 <= j < i ==> !((#[trigger] ps[j]).match_app_id matches Some(m) && has_substring(
                    low,
                    lowercase(m@),
                )))
                ==> chosen_mode(ps, app_id) == ps[i].mode@
        }),
        ({
            let low = lowercase(app_id);
            (forall|j: int|
                0 <= j < ps.len() ==> !((#[trigger] ps[j]).match_app_id matches Some(m) && has_substring(
                    low,
                    lowercase(m@),
                ))) && ps[i].match_app_id is None && (forall|j: int|
                0 <= j < i ==> (#[trigger] ps[j]).match_app_id is Some) ==> chosen_mode(ps, app_id)
                == ps[i].mode@
        }),
{
    let low = lowercase(app_id);
    if rule_matches(ps[i], low) && forall|j: int| 0 <= j < i ==> !rule_matches(#[trigger] ps[j], low) {
        assert(is_first_match(ps, low, i));
        let c = choose|c: int| is_first_match(ps, low, c);
        assert(c == i) by {
            if c < i {
                assert(!rule_matches(ps[c], low));
            }
            if c > i {
                assert(!rule_matches(ps[i], low));
            }
        }
    }
    if (forall|j: int| 0 <= j < ps.len() ==> !rule_matches(#[trigger] ps[j], low)) && ps[i].match_app_id is None
        && (forall|j: int| 0 <= j < i ==> (#[trigger] ps[j]).match_app_id is Some) {
        assert(is_first_default(ps, i));
        let c = choose|c: int| is_first_default(ps, c);
        assert(c == i) by {
            if c < i {
                assert(ps[c].match_app_id is Some);
            }
            if c > i {
                assert(ps[i].match_app_id is Some);
            }
        }
    }
}

/// With no profile that matches and none without `match_app_id`, the mode
/// is "Scroll".
pub proof fn scroll_when_nothing_applies(ps: Seq<Profile>, app_id: Seq<char>)
    requires
        forall|j: int| 0 <= j < ps.len() ==> (#[trigger] ps[j]).match_app_id is Some && !has_substring(
            lowercase(app_id),
            lowercase(ps[j].match_app_id->0@),
        ),
    ensures
        chosen_mode(ps, app_id) == "Scroll"@,
{
    let low = lowercase(app_id);
    assert(!exists|i: int| is_first_match(ps, low, i));
    assert(!exists|i: int| is_first_default(ps, i));
}

/// The focused application is that of the first window listed with the
/// focus.
pub proof fn first_focused_window_counts(ws: Seq<WindowProps>, i: int)
    requires
        0 <= i < ws.len(),
        ws[i].has_focus == Some(true),
        forall|j: int| 0 <= j < i ==> (#[trigger] ws[j]).has_focus != Some(true),
    ensures
        focused_app_id(ws) == match ws[i].app_id {
            Some(s) => Some(s@),
            None => None::<Seq<char>>,
        },
{
    assert(is_first_focused(ws, i));
    let c = choose|c: int| is_first_focused(ws, c);
    assert(c == i) by {
        if c < i {
            assert(ws[c].has_focus != Some(true));
        }
        if c > i {
            assert(ws[i].has_focus != Some(true));
        }
    }
}

/// Every change of the focused application switches to the new
/// application's mode, whatever the mode of the application before it, and
/// remembers the new app-id; a poll with no focused app-id, or with the
/// same one as before, switches nothing and remembers what it did.
pub proof fn every_change_of_focus_switches(last: Seq<char>, ws: Seq<WindowProps>, ps: Seq<Profile>)
    ensures
        forall|id: Seq<char>|
            focused_app_id(ws) == Some(id) && id != last ==> poll_outcome(last, ws, ps) == (
                id,
                Some(#[trigger] chosen_mode(ps, id)),
            ),
        focused_app_id(ws) is None || focused_app_id(ws) == Some(last) ==> poll_outcome(last, ws, ps) == (
            last,
            None::<Seq<char>>,
        ),
{
}

} // verus!
