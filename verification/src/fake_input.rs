use vstd::prelude::*;
use vstd::string::StrSliceExecFns;

verus! {

/// A key that the virtual keyboard can press, named as in
/// `linux/input-event-codes.h`.
#[allow(non_camel_case_types)]
#[derive(Clone, Copy, Debug, PartialEq, Eq, Structural)]
pub enum Key {
    KEY_A,
    KEY_B,
    KEY_C,
    KEY_D,
    KEY_E,
    KEY_F,
    KEY_G,
    KEY_H,
    KEY_I,
    KEY_J,
    KEY_K,
    KEY_L,
    KEY_M,
    KEY_N,
    KEY_O,
    KEY_P,
    KEY_Q,
    KEY_R,
    KEY_S,
    KEY_T,
    KEY_U,
    KEY_V,
    KEY_W,
    KEY_X,
    KEY_Y,
    KEY_Z,
    KEY_0,
    KEY_1,
    KEY_2,
    KEY_3,
    KEY_4,
    KEY_5,
    KEY_6,
    KEY_7,
    KEY_8,
    KEY_9,
    KEY_F1,
    KEY_F2,
    KEY_F3,
    KEY_F4,
    KEY_F5,
    KEY_F6,
    KEY_F7,
    KEY_F8,
    KEY_F9,
    KEY_F10,
    KEY_F11,
    KEY_F12,
    KEY_LEFTSHIFT,
    KEY_RIGHTSHIFT,
    KEY_LEFTCTRL,
    KEY_RIGHTCTRL,
    KEY_LEFTALT,
    KEY_RIGHTALT,
    KEY_LEFTMETA,
    KEY_RIGHTMETA,
    KEY_UP,
    KEY_DOWN,
    KEY_LEFT,
    KEY_RIGHT,
    KEY_HOME,
    KEY_END,
    KEY_PAGEUP,
    KEY_PAGEDOWN,
    KEY_SPACE,
    KEY_ENTER,
    KEY_BACKSPACE,
    KEY_DELETE,
    KEY_INSERT,
    KEY_TAB,
    KEY_ESC,
    KEY_CAPSLOCK,
    KEY_EQUAL,
    KEY_MINUS,
    KEY_LEFTBRACE,
    KEY_RIGHTBRACE,
    KEY_SEMICOLON,
    KEY_APOSTROPHE,
    KEY_GRAVE,
    KEY_BACKSLASH,
    KEY_COMMA,
    KEY_DOT,
    KEY_SLASH,
    KEY_MUTE,
    KEY_VOLUMEUP,
    KEY_VOLUMEDOWN,
    KEY_PLAYPAUSE,
    KEY_NEXTSONG,
    KEY_PREVIOUSSONG,
    KEY_STOPCD,
    KEY_BRIGHTNESSUP,
    KEY_BRIGHTNESSDOWN,
    KEY_PRINT,
    KEY_SCROLLLOCK,
    KEY_PAUSE,
    KEY_SLEEP,
    KEY_WAKEUP,
}

/// The name under which a key is written in configuration files.
pub open spec fn key_name(k: Key) -> Seq<char> {
    match k {
        Key::KEY_A => "KEY_A"@,
        Key::KEY_B => "KEY_B"@,
        Key::KEY_C => "KEY_C"@,
        Key::KEY_D => "KEY_D"@,
        Key::KEY_E => "KEY_E"@,
        Key::KEY_F => "KEY_F"@,
        Key::KEY_G => "KEY_G"@,
        Key::KEY_H => "KEY_H"@,
        Key::KEY_I => "KEY_I"@,
        Key::KEY_J => "KEY_J"@,
        Key::KEY_K => "KEY_K"@,
        Key::KEY_L => "KEY_L"@,
        Key::KEY_M => "KEY_M"@,
        Key::KEY_N => "KEY_N"@,
        Key::KEY_O => "KEY_O"@,
        Key::KEY_P => "KEY_P"@,
        Key::KEY_Q => "KEY_Q"@,
        Key::KEY_R => "KEY_R"@,
        Key::KEY_S => "KEY_S"@,
        Key::KEY_T => "KEY_T"@,
        Key::KEY_U => "KEY_U"@,
        Key::KEY_V => "KEY_V"@,
        Key::KEY_W => "KEY_W"@,
        Key::KEY_X => "KEY_X"@,
        Key::KEY_Y => "KEY_Y"@,
        Key::KEY_Z => "KEY_Z"@,
        Key::KEY_0 => "KEY_0"@,
        Key::KEY_1 => "KEY_1"@,
        Key::KEY_2 => "KEY_2"@,
        Key::KEY_3 => "KEY_3"@,
        Key::KEY_4 => "KEY_4"@,
        Key::KEY_5 => "KEY_5"@,
        Key::KEY_6 => "KEY_6"@,
        Key::KEY_7 => "KEY_7"@,
        Key::KEY_8 => "KEY_8"@,
        Key::KEY_9 => "KEY_9"@,
        Key::KEY_F1 => "KEY_F1"@,
        Key::KEY_F2 => "KEY_F2"@,
        Key::KEY_F3 => "KEY_F3"@,
        Key::KEY_F4 => "KEY_F4"@,
        Key::KEY_F5 => "KEY_F5"@,
        Key::KEY_F6 => "KEY_F6"@,
        Key::KEY_F7 => "KEY_F7"@,
        Key::KEY_F8 => "KEY_F8"@,
        Key::KEY_F9 => "KEY_F9"@,
        Key::KEY_F10 => "KEY_F10"@,
        Key::KEY_F11 => "KEY_F11"@,
        Key::KEY_F12 => "KEY_F12"@,
        Key::KEY_LEFTSHIFT => "KEY_LEFTSHIFT"@,
        Key::KEY_RIGHTSHIFT => "KEY_RIGHTSHIFT"@,
        Key::KEY_LEFTCTRL => "KEY_LEFTCTRL"@,
        Key::KEY_RIGHTCTRL => "KEY_RIGHTCTRL"@,
        Key::KEY_LEFTALT => "KEY_LEFTALT"@,
        Key::KEY_RIGHTALT => "KEY_RIGHTALT"@,
        Key::KEY_LEFTMETA => "KEY_LEFTMETA"@,
        Key::KEY_RIGHTMETA => "KEY_RIGHTMETA"@,
        Key::KEY_UP => "KEY_UP"@,
        Key::KEY_DOWN => "KEY_DOWN"@,
        Key::KEY_LEFT => "KEY_LEFT"@,
        Key::KEY_RIGHT => "KEY_RIGHT"@,
        Key::KEY_HOME => "KEY_HOME"@,
        Key::KEY_END => "KEY_END"@,
        Key::KEY_PAGEUP => "KEY_PAGEUP"@,
        Key::KEY_PAGEDOWN => "KEY_PAGEDOWN"@,
        Key::KEY_SPACE => "KEY_SPACE"@,
        Key::KEY_ENTER => "KEY_ENTER"@,
        Key::KEY_BACKSPACE => "KEY_BACKSPACE"@,
        Key::KEY_DELETE => "KEY_DELETE"@,
        Key::KEY_INSERT => "KEY_INSERT"@,
        Key::KEY_TAB => "KEY_TAB"@,
        Key::KEY_ESC => "KEY_ESC"@,
        Key::KEY_CAPSLOCK => "KEY_CAPSLOCK"@,
        Key::KEY_EQUAL => "KEY_EQUAL"@,
        Key::KEY_MINUS => "KEY_MINUS"@,
        Key::KEY_LEFTBRACE => "KEY_LEFTBRACE"@,
        Key::KEY_RIGHTBRACE => "KEY_RIGHTBRACE"@,
        Key::KEY_SEMICOLON => "KEY_SEMICOLON"@,
        Key::KEY_APOSTROPHE => "KEY_APOSTROPHE"@,
        Key::KEY_GRAVE => "KEY_GRAVE"@,
        Key::KEY_BACKSLASH => "KEY_BACKSLASH"@,
        Key::KEY_COMMA => "KEY_COMMA"@,
        Key::KEY_DOT => "KEY_DOT"@,
        Key::KEY_SLASH => "KEY_SLASH"@,
        Key::KEY_MUTE => "KEY_MUTE"@,
        Key::KEY_VOLUMEUP => "KEY_VOLUMEUP"@,
        Key::KEY_VOLUMEDOWN => "KEY_VOLUMEDOWN"@,
        Key::KEY_PLAYPAUSE => "KEY_PLAYPAUSE"@,
        Key::KEY_NEXTSONG => "KEY_NEXTSONG"@,
        Key::KEY_PREVIOUSSONG => "KEY_PREVIOUSSONG"@,
        Key::KEY_STOPCD => "KEY_STOPCD"@,
        Key::KEY_BRIGHTNESSUP => "KEY_BRIGHTNESSUP"@,
        Key::KEY_BRIGHTNESSDOWN => "KEY_BRIGHTNESSDOWN"@,
        Key::KEY_PRINT => "KEY_PRINT"@,
        Key::KEY_SCROLLLOCK => "KEY_SCROLLLOCK"@,
        Key::KEY_PAUSE => "KEY_PAUSE"@,
        Key::KEY_SLEEP => "KEY_SLEEP"@,
        Key::KEY_WAKEUP => "KEY_WAKEUP"@,
    }
}

/// The supported key whose name is `s`, if any.
pub open spec fn key_named(s: Seq<char>) -> Option<Key> {
    if exists|k: Key| key_name(k) == s {
        Some(choose|k: Key| key_name(k) == s)
    } else {
        None
    }
}

/// Whether two strings hold the same characters.
pub fn str_eq(a: &str, b: &str) -> (r: bool)
    ensures
        r == (a@ == b@),
{
    let n = a.unicode_len();
    if n != b.unicode_len() {
        return false;
    }
    let mut i: usize = 0;
    while i < n
        invariant
            n == a@.len(),
            n == b@.len(),
            i <= n,
            a@.subrange(0, i as int) == b@.subrange(0, i as int),
        decreases n - i,
    {
        if a.get_char(i) != b.get_char(i) {
            return false;
        }
        proof {
            assert(a@.subrange(0, i + 1) =~= a@.subrange(0, i as int).push(a@[i as int]));
            assert(b@.subrange(0, i + 1) =~= b@.subrange(0, i as int).push(b@[i as int]));
        }
        i = i + 1;
    }
    proof {
        assert(a@ =~= a@.subrange(0, n as int));
        assert(b@ =~= b@.subrange(0, n as int));
    }
    true
}

/// The key that `name` names, or `None` when the virtual keyboard does not
/// support a key of that name.
pub fn parse_key_code(name: &str) -> (r: Option<Key>)
    ensures
        r matches Some(k) ==> key_name(k) == name@,
        r is None ==> forall|k: Key| key_name(k) != name@,
        r == key_named(name@),
{
    let r = parse_listed_key(name);
    proof {
        if let Some(k) = r {
            let c = choose|c: Key| key_name(c) == name@;
            key_name_injective(k, c);
        }
    }
    r
}

/// The key of the table below whose name is `name`.
fn parse_listed_key(name: &str) -> (r: Option<Key>)
    ensures
        r matches Some(k) ==> key_name(k) == name@,
        r is None ==> forall|k: Key| key_name(k) != name@,
{
    if str_eq(name, "KEY_A") {
        return Some(Key::KEY_A);
    }
    if str_eq(name, "KEY_B") {
        return Some(Key::KEY_B);
    }
    if str_eq(name, "KEY_C") {
        return Some(Key::KEY_C);
    }
    if str_eq(name, "KEY_D") {
        return Some(Key::KEY_D);
    }
    if str_eq(name, "KEY_E") {
        return Some(Key::KEY_E);
    }
    if str_eq(name, "KEY_F") {
        return Some(Key::KEY_F);
    }
    if str_eq(name, "KEY_G") {
        return Some(Key::KEY_G);
    }
    if str_eq(name, "KEY_H") {
        return Some(Key::KEY_H);
    }
    if str_eq(name, "KEY_I") {
        return Some(Key::KEY_I);
    }
    if str_eq(name, "KEY_J") {
        return Some(Key::KEY_J);
    }
    if str_eq(name, "KEY_K") {
        return Some(Key::KEY_K);
    }
    if str_eq(name, "KEY_L") {
        return Some(Key::KEY_L);
    }
    if str_eq(name, "KEY_M") {
        return Some(Key::KEY_M);
    }
    if str_eq(name, "KEY_N") {
        return Some(Key::KEY_N);
    }
    if str_eq(name, "KEY_O") {
        return Some(Key::KEY_O);
    }
    if str_eq(name, "KEY_P") {
        return Some(Key::KEY_P);
    }
    if str_eq(name, "KEY_Q") {
        return Some(Key::KEY_Q);
    }
    if str_eq(name, "KEY_R") {
        return Some(Key::KEY_R);
    }
    if str_eq(name, "KEY_S") {
        return Some(Key::KEY_S);
    }
    if str_eq(name, "KEY_T") {
        return Some(Key::KEY_T);
    }
    if str_eq(name, "KEY_U") {
        return Some(Key::KEY_U);
    }
    if str_eq(name, "KEY_V") {
        return Some(Key::KEY_V);
    }
    if str_eq(name, "KEY_W") {
        return Some(Key::KEY_W);
    }
    if str_eq(name, "KEY_X") {
        return Some(Key::KEY_X);
    }
    if str_eq(name, "KEY_Y") {
        return Some(Key::KEY_Y);
    }
    if str_eq(name, "KEY_Z") {
        return Some(Key::KEY_Z);
    }
    if str_eq(name, "KEY_0") {
        return Some(Key::KEY_0);
    }
    if str_eq(name, "KEY_1") {
        return Some(Key::KEY_1);
    }
    if str_eq(name, "KEY_2") {
        return Some(Key::KEY_2);
    }
    if str_eq(name, "KEY_3") {
        return Some(Key::KEY_3);
    }
    if str_eq(name, "KEY_4") {
        return Some(Key::KEY_4);
    }
    if str_eq(name, "KEY_5") {
        return Some(Key::KEY_5);
    }
    if str_eq(name, "KEY_6") {
        return Some(Key::KEY_6);
    }
    if str_eq(name, "KEY_7") {
        return Some(Key::KEY_7);
    }
    if str_eq(name, "KEY_8") {
        return Some(Key::KEY_8);
    }
    if str_eq(name, "KEY_9") {
        return Some(Key::KEY_9);
    }
    if str_eq(name, "KEY_F1") {
        return Some(Key::KEY_F1);
    }
    if str_eq(name, "KEY_F2") {
        return Some(Key::KEY_F2);
    }
    if str_eq(name, "KEY_F3") {
        return Some(Key::KEY_F3);
    }
    if str_eq(name, "KEY_F4") {
        return Some(Key::KEY_F4);
    }
    if str_eq(name, "KEY_F5") {
        return Some(Key::KEY_F5);
    }
    if str_eq(name, "KEY_F6") {
        return Some(Key::KEY_F6);
    }
    if str_eq(name, "KEY_F7") {
        return Some(Key::KEY_F7);
    }
    if str_eq(name, "KEY_F8") {
        return Some(Key::KEY_F8);
    }
    if str_eq(name, "KEY_F9") {
        return Some(Key::KEY_F9);
    }
    if str_eq(name, "KEY_F10") {
        return Some(Key::KEY_F10);
    }
    if str_eq(name, "KEY_F11") {
        return Some(Key::KEY_F11);
    }
    if str_eq(name, "KEY_F12") {
        return Some(Key::KEY_F12);
    }
    if str_eq(name, "KEY_LEFTSHIFT") {
        return Some(Key::KEY_LEFTSHIFT);
    }
    if str_eq(name, "KEY_RIGHTSHIFT") {
        return Some(Key::KEY_RIGHTSHIFT);
    }
    if str_eq(name, "KEY_LEFTCTRL") {
        return Some(Key::KEY_LEFTCTRL);
    }
    if str_eq(name, "KEY_RIGHTCTRL") {
        return Some(Key::KEY_RIGHTCTRL);
    }
    if str_eq(name, "KEY_LEFTALT") {
        return Some(Key::KEY_LEFTALT);
    }
    if str_eq(name, "KEY_RIGHTALT") {
        return Some(Key::KEY_RIGHTALT);
    }
    if str_eq(name, "KEY_LEFTMETA") {
        return Some(Key::KEY_LEFTMETA);
    }
    if str_eq(name, "KEY_RIGHTMETA") {
        return Some(Key::KEY_RIGHTMETA);
    }
    if str_eq(name, "KEY_UP") {
        return Some(Key::KEY_UP);
    }
    if str_eq(name, "KEY_DOWN") {
        return Some(Key::KEY_DOWN);
    }
    if str_eq(name, "KEY_LEFT") {
        return Some(Key::KEY_LEFT);
    }
    if str_eq(name, "KEY_RIGHT") {
        return Some(Key::KEY_RIGHT);
    }
    if str_eq(name, "KEY_HOME") {
        return Some(Key::KEY_HOME);
    }
    if str_eq(name, "KEY_END") {
        return Some(Key::KEY_END);
    }
    if str_eq(name, "KEY_PAGEUP") {
        return Some(Key::KEY_PAGEUP);
    }
    if str_eq(name, "KEY_PAGEDOWN") {
        return Some(Key::KEY_PAGEDOWN);
    }
    if str_eq(name, "KEY_SPACE") {
        return Some(Key::KEY_SPACE);
    }
    if str_eq(name, "KEY_ENTER") {
        return Some(Key::KEY_ENTER);
    }
    if str_eq(name, "KEY_BACKSPACE") {
        return Some(Key::KEY_BACKSPACE);
    }
    if str_eq(name, "KEY_DELETE") {
        return Some(Key::KEY_DELETE);
    }
    if str_eq(name, "KEY_INSERT") {
        return Some(Key::KEY_INSERT);
    }
    if str_eq(name, "KEY_TAB") {
        return Some(Key::KEY_TAB);
    }
    if str_eq(name, "KEY_ESC") {
        return Some(Key::KEY_ESC);
    }
    if str_eq(name, "KEY_CAPSLOCK") {
        return Some(Key::KEY_CAPSLOCK);
    }
    if str_eq(name, "KEY_EQUAL") {
        return Some(Key::KEY_EQUAL);
    }
    if str_eq(name, "KEY_MINUS") {
        return Some(Key::KEY_MINUS);
    }
    if str_eq(name, "KEY_LEFTBRACE") {
        return Some(Key::KEY_LEFTBRACE);
    }
    if str_eq(name, "KEY_RIGHTBRACE") {
        return Some(Key::KEY_RIGHTBRACE);
    }
    if str_eq(name, "KEY_SEMICOLON") {
        return Some(Key::KEY_SEMICOLON);
    }
    if str_eq(name, "KEY_APOSTROPHE") {
        return Some(Key::KEY_APOSTROPHE);
    }
    if str_eq(name, "KEY_GRAVE") {
        return Some(Key::KEY_GRAVE);
    }
    if str_eq(name, "KEY_BACKSLASH") {
        return Some(Key::KEY_BACKSLASH);
    }
    if str_eq(name, "KEY_COMMA") {
        return Some(Key::KEY_COMMA);
    }
    if str_eq(name, "KEY_DOT") {
        return Some(Key::KEY_DOT);
    }
    if str_eq(name, "KEY_SLASH") {
        return Some(Key::KEY_SLASH);
    }
    if str_eq(name, "KEY_MUTE") {
        return Some(Key::KEY_MUTE);
    }
    if str_eq(name, "KEY_VOLUMEUP") {
        return Some(Key::KEY_VOLUMEUP);
    }
    if str_eq(name, "KEY_VOLUMEDOWN") {
        return Some(Key::KEY_VOLUMEDOWN);
    }
    if str_eq(name, "KEY_PLAYPAUSE") {
        return Some(Key::KEY_PLAYPAUSE);
    }
    if str_eq(name, "KEY_NEXTSONG") {
        return Some(Key::KEY_NEXTSONG);
    }
    if str_eq(name, "KEY_PREVIOUSSONG") {
        return Some(Key::KEY_PREVIOUSSONG);
    }
    if str_eq(name, "KEY_STOPCD") {
        return Some(Key::KEY_STOPCD);
    }
    if str_eq(name, "KEY_BRIGHTNESSUP") {
        return Some(Key::KEY_BRIGHTNESSUP);
    }
    if str_eq(name, "KEY_BRIGHTNESSDOWN") {
        return Some(Key::KEY_BRIGHTNESSDOWN);
    }
    if str_eq(name, "KEY_PRINT") {
        return Some(Key::KEY_PRINT);
    }
    if str_eq(name, "KEY_SCROLLLOCK") {
        return Some(Key::KEY_SCROLLLOCK);
    }
    if str_eq(name, "KEY_PAUSE") {
        return Some(Key::KEY_PAUSE);
    }
    if str_eq(name, "KEY_SLEEP") {
        return Some(Key::KEY_SLEEP);
    }
    if str_eq(name, "KEY_WAKEUP") {
        return Some(Key::KEY_WAKEUP);
    }
    None
}

/// Reads a key back from the characters of its name.
spec fn key_of_chars(s: Seq<char>) -> Option<Key> {
    if s.len() == 5 && s[0] == 'K' && s[1] == 'E' && s[2] == 'Y' && s[3] == '_' && s[4] == 'A' {
        Some(Key::KEY_A)
    } else if s.len() == 5 && s[0] == 'K' && s[1] == 'E' && s[2] == 'Y' && s[3] == '_' && s[4] == 'B' {
        Some(Key::KEY_B)
    } else if s.len() == 5 && s[0] == 'K' && s[1] == 'E' && s[2] == 'Y' && s[3] == '_' && s[4] == 'C' {
        Some(Key::KEY_C)
    } else if s.len() == 5 && s[0] == 'K' && s[1] == 'E' && s[2] == 'Y' && s[3] == '_' && s[4] == 'D' {
        Some(Key::KEY_D)
    } else if s.len() == 5 && s[0] == 'K' && s[1] == 'E' && s[2] == 'Y' && s[3] == '_' && s[4] == 'E' {
        Some(Key::KEY_E)
    } else if s.len() == 5 && s[0] == 'K' && s[1] == 'E' && s[2] == 'Y' && s[3] == '_' && s[4] == 'F' {
        Some(Key::KEY_F)
    } else if s.len() == 5 && s[0] == 'K' && s[1] == 'E' && s[2] == 'Y' && s[3] == '_' && s[4] == 'G' {
        Some(Key::KEY_G)
    } else if s.len() == 5 && s[0] == 'K' && s[1] == 'E' && s[2] == 'Y' && s[3] == '_' && s[4] == 'H' {
        Some(Key::KEY_H)
    } else if s.len() == 5 && s[0] == 'K' && s[1] == 'E' && s[2] == 'Y' && s[3] == '_' && s[4] == 'I' {
        Some(Key::KEY_I)
    } else if s.len() == 5 && s[0] == 'K' && s[1] == 'E' && s[2] == 'Y' && s[3] == '_' && s[4] == 'J' {
        Some(Key::KEY_J)
    } else if s.len() == 5 && s[0] == 'K' && s[1] == 'E' && s[2] == 'Y' && s[3] == '_' && s[4] == 'K' {
        Some(Key::KEY_K)
    } else if s.len() == 5 && s[0] == 'K' && s[1] == 'E' && s[2] == 'Y' && s[3] == '_' && s[4] == 'L' {
        Some(Key::KEY_L)
    } else if s.len() == 5 && s[0] == 'K' && s[1] == 'E' && s[2] == 'Y' && s[3] == '_' && s[4] == 'M' {
        Some(Key::KEY_M)
    } else if s.len() == 5 && s[0] == 'K' && s[1] == 'E' && s[2] == 'Y' && s[3] == '_' && s[4] == 'N' {
        Some(Key::KEY_N)
    } else if s.len() == 5 && s[0] == 'K' && s[1] == 'E' && s[2] == 'Y' && s[3] == '_' && s[4] == 'O' {
        Some(Key::KEY_O)
    } else if s.len() == 5 && s[0] == 'K' && s[1] == 'E' && s[2] == 'Y' && s[3] == '_' && s[4] == 'P' {
        Some(Key::KEY_P)
    } else if s.len() == 5 && s[0] == 'K' && s[1] == 'E' && s[2] == 'Y' && s[3] == '_' && s[4] == 'Q' {
        Some(Key::KEY_Q)
    } else if s.len() == 5 && s[0] == 'K' && s[1] == 'E' && s[2] == 'Y' && s[3] == '_' && s[4] == 'R' {
        Some(Key::KEY_R)
    } else if s.len() == 5 && s[0] == 'K' && s[1] == 'E' && s[2] == 'Y' && s[3] == '_' && s[4] == 'S' {
        Some(Key::KEY_S)
    } else if s.len() == 5 && s[0] == 'K' && s[1] == 'E' && s[2] == 'Y' && s[3] == '_' && s[4] == 'T' {
        Some(Key::KEY_T)
    } else if s.len() == 5 && s[0] == 'K' && s[1] == 'E' && s[2] == 'Y' && s[3] == '_' && s[4] == 'U' {
        Some(Key::KEY_U)
    } else if s.len() == 5 && s[0] == 'K' && s[1] == 'E' && s[2] == 'Y' && s[3] == '_' && s[4] == 'V' {
        Some(Key::KEY_V)
    } else if s.len() == 5 && s[0] == 'K' && s[1] == 'E' && s[2] == 'Y' && s[3] == '_' && s[4] == 'W' {
        Some(Key::KEY_W)
    } else if s.len() == 5 && s[0] == 'K' && s[1] == 'E' && s[2] == 'Y' && s[3] == '_' && s[4] == 'X' {
        Some(Key::KEY_X)
    } else if s.len() == 5 && s[0] == 'K' && s[1] == 'E' && s[2] == 'Y' && s[3] == '_' && s[4] == 'Y' {
        Some(Key::KEY_Y)
    } else if s.len() == 5 && s[0] == 'K' && s[1] == 'E' && s[2] == 'Y' && s[3] == '_' && s[4] == 'Z' {
        Some(Key::KEY_Z)
    } else if s.len() == 5 && s[0] == 'K' && s[1] == 'E' && s[2] == 'Y' && s[3] == '_' && s[4] == '0' {
        Some(Key::KEY_0)
    } else if s.len() == 5 && s[0] == 'K' && s[1] == 'E' && s[2] == 'Y' && s[3] == '_' && s[4] == '1' {
        Some(Key::KEY_1)
    } else if s.len() == 5 && s[0] == 'K' && s[1] == 'E' && s[2] == 'Y' && s[3] == '_' && s[4] == '2' {
        Some(Key::KEY_2)
    } else if s.len() == 5 && s[0] == 'K' && s[1] == 'E' && s[2] == 'Y' && s[3] == '_' && s[4] == '3' {
        Some(Key::KEY_3)
    } else if s.len() == 5 && s[0] == 'K' && s[1] == 'E' && s[2] == 'Y' && s[3] == '_' && s[4] == '4' {
        Some(Key::KEY_4)
    } else if s.len() == 5 && s[0] == 'K' && s[1] == 'E' && s[2] == 'Y' && s[3] == '_' && s[4] == '5' {
        Some(Key::KEY_5)
    } else if s.len() == 5 && s[0] == 'K' && s[1] == 'E' && s[2] == 'Y' && s[3] == '_' && s[4] == '6' {
        Some(Key::KEY_6)
    } else if s.len() == 5 && s[0] == 'K' && s[1] == 'E' && s[2] == 'Y' && s[3] == '_' && s[4] == '7' {
        Some(Key::KEY_7)
    } else if s.len() == 5 && s[0] == 'K' && s[1] == 'E' && s[2] == 'Y' && s[3] == '_' && s[4] == '8' {
        Some(Key::KEY_8)
    } else if s.len() == 5 && s[0] == 'K' && s[1] == 'E' && s[2] == 'Y' && s[3] == '_' && s[4] == '9' {
        Some(Key::KEY_9)
    } else if s.len() == 6 && s[0] == 'K' && s[1] == 'E' && s[2] == 'Y' && s[3] == '_' && s[4] == 'F' && s[5] == '1' {
        Some(Key::KEY_F1)
    } else if s.len() == 6 && s[0] == 'K' && s[1] == 'E' && s[2] == 'Y' && s[3] == '_' && s[4] == 'F' && s[5] == '2' {
        Some(Key::KEY_F2)
    } else if s.len() == 6 && s[0] == 'K' && s[1] == 'E' && s[2] == 'Y' && s[3] == '_' && s[4] == 'F' && s[5] == '3' {
        Some(Key::KEY_F3)
    } else if s.len() == 6 && s[0] == 'K' && s[1] == 'E' && s[2] == 'Y' && s[3] == '_' && s[4] == 'F' && s[5] == '4' {
        Some(Key::KEY_F4)
    } else if s.len() == 6 && s[0] == 'K' && s[1] == 'E' && s[2] == 'Y' && s[3] == '_' && s[4] == 'F' && s[5] == '5' {
        Some(Key::KEY_F5)
    } else if s.len() == 6 && s[0] == 'K' && s[1] == 'E' && s[2] == 'Y' && s[3] == '_' && s[4] == 'F' && s[5] == '6' {
        Some(Key::KEY_F6)
    } else if s.len() == 6 && s[0] == 'K' && s[1] == 'E' && s[2] == 'Y' && s[3] == '_' && s[4] == 'F' && s[5] == '7' {
        Some(Key::KEY_F7)
    } else if s.len() == 6 && s[0] == 'K' && s[1] == 'E' && s[2] == 'Y' && s[3] == '_' && s[4] == 'F' && s[5] == '8' {
        Some(Key::KEY_F8)
    } else if s.len() == 6 && s[0] == 'K' && s[1] == 'E' && s[2] == 'Y' && s[3] == '_' && s[4] == 'F' && s[5] == '9' {
        Some(Key::KEY_F9)
    } else if s.len() == 7 && s[0] == 'K' && s[1] == 'E' && s[2] == 'Y' && s[3] == '_' && s[4] == 'F' && s[5] == '1' && s[6] == '0' {
        Some(Key::KEY_F10)
    } else if s.len() == 7 && s[0] == 'K' && s[1] == 'E' && s[2] == 'Y' && s[3] == '_' && s[4] == 'F' && s[5] == '1' && s[6] == '1' {
        Some(Key::KEY_F11)
    } else if s.len() == 7 && s[0] == 'K' && s[1] == 'E' && s[2] == 'Y' && s[3] == '_' && s[4] == 'F' && s[5] == '1' && s[6] == '2' {
        Some(Key::KEY_F12)
    } else if s.len() == 13 && s[0] == 'K' && s[1] == 'E' && s[2] == 'Y' && s[3] == '_' && s[4] == 'L' && s[5] == 'E' && s[6] == 'F' && s[7] == 'T' && s[8] == 'S' && s[9] == 'H' && s[10] == 'I' && s[11] == 'F' && s[12] == 'T' {
        Some(Key::KEY_LEFTSHIFT)
    } else if s.len() == 14 && s[0] == 'K' && s[1] == 'E' && s[2] == 'Y' && s[3] == '_' && s[4] == 'R' && s[5] == 'I' && s[6] == 'G' && s[7] == 'H' && s[8] == 'T' && s[9] == 'S' && s[10] == 'H' && s[11] == 'I' && s[12] == 'F' && s[13] == 'T' {
        Some(Key::KEY_RIGHTSHIFT)
    } else if s.len() == 12 && s[0] == 'K' && s[1] == 'E' && s[2] == 'Y' && s[3] == '_' && s[4] == 'L' && s[5] == 'E' && s[6] == 'F' && s[7] == 'T' && s[8] == 'C' && s[9] == 'T' && s[10] == 'R' && s[11] == 'L' {
        Some(Key::KEY_LEFTCTRL)
    } else if s.len() == 13 && s[0] == 'K' && s[1] == 'E' && s[2] == 'Y' && s[3] == '_' && s[4] == 'R' && s[5] == 'I' && s[6] == 'G' && s[7] == 'H' && s[8] == 'T' && s[9] == 'C' && s[10] == 'T' && s[11] == 'R' && s[12] == 'L' {
        Some(Key::KEY_RIGHTCTRL)
    } else if s.len() == 11 && s[0] == 'K' && s[1] == 'E' && s[2] == 'Y' && s[3] == '_' && s[4] == 'L' && s[5] == 'E' && s[6] == 'F' && s[7] == 'T' && s[8] == 'A' && s[9] == 'L' && s[10] == 'T' {
        Some(Key::KEY_LEFTALT)
    } else if s.len() == 12 && s[0] == 'K' && s[1] == 'E' && s[2] == 'Y' && s[3] == '_' && s[4] == 'R' && s[5] == 'I' && s[6] == 'G' && s[7] == 'H' && s[8] == 'T' && s[9] == 'A' && s[10] == 'L' && s[11] == 'T' {
        Some(Key::KEY_RIGHTALT)
    } else if s.len() == 12 && s[0] == 'K' && s[1] == 'E' && s[2] == 'Y' && s[3] == '_' && s[4] == 'L' && s[5] == 'E' && s[6] == 'F' && s[7] == 'T' && s[8] == 'M' && s[9] == 'E' && s[10] == 'T' && s[11] == 'A' {
        Some(Key::KEY_LEFTMETA)
    } else if s.len() == 13 && s[0] == 'K' && s[1] == 'E' && s[2] == 'Y' && s[3] == '_' && s[4] == 'R' && s[5] == 'I' && s[6] == 'G' && s[7] == 'H' && s[8] == 'T' && s[9] == 'M' && s[10] == 'E' && s[11] == 'T' && s[12] == 'A' {
        Some(Key::KEY_RIGHTMETA)
    } else if s.len() == 6 && s[0] == 'K' && s[1] == 'E' && s[2] == 'Y' && s[3] == '_' && s[4] == 'U' && s[5] == 'P' {
        Some(Key::KEY_UP)
    } else if s.len() == 8 && s[0] == 'K' && s[1] == 'E' && s[2] == 'Y' && s[3] == '_' && s[4] == 'D' && s[5] == 'O' && s[6] == 'W' && s[7] == 'N' {
        Some(Key::KEY_DOWN)
    } else if s.len() == 8 && s[0] == 'K' && s[1] == 'E' && s[2] == 'Y' && s[3] == '_' && s[4] == 'L' && s[5] == 'E' && s[6] == 'F' && s[7] == 'T' {
        Some(Key::KEY_LEFT)
    } else if s.len() == 9 && s[0] == 'K' && s[1] == 'E' && s[2] == 'Y' && s[3] == '_' && s[4] == 'R' && s[5] == 'I' && s[6] == 'G' && s[7] == 'H' && s[8] == 'T' {
        Some(Key::KEY_RIGHT)
    } else if s.len() == 8 && s[0] == 'K' && s[1] == 'E' && s[2] == 'Y' && s[3] == '_' && s[4] == 'H' && s[5] == 'O' && s[6] == 'M' && s[7] == 'E' {
        Some(Key::KEY_HOME)
    } else if s.len() == 7 && s[0] == 'K' && s[1] == 'E' && s[2] == 'Y' && s[3] == '_' && s[4] == 'E' && s[5] == 'N' && s[6] == 'D' {
        Some(Key::KEY_END)
    } else if s.len() == 10 && s[0] == 'K' && s[1] == 'E' && s[2] == 'Y' && s[3] == '_' && s[4] == 'P' && s[5] == 'A' && s[6] == 'G' && s[7] == 'E' && s[8] == 'U' && s[9] == 'P' {
        Some(Key::KEY_PAGEUP)
    } else if s.len() == 12 && s[0] == 'K' && s[1] == 'E' && s[2] == 'Y' && s[3] == '_' && s[4] == 'P' && s[5] == 'A' && s[6] == 'G' && s[7] == 'E' && s[8] == 'D' && s[9] == 'O' && s[10] == 'W' && s[11] == 'N' {
        Some(Key::KEY_PAGEDOWN)
    } else if s.len() == 9 && s[0] == 'K' && s[1] == 'E' && s[2] == 'Y' && s[3] == '_' && s[4] == 'S' && s[5] == 'P' && s[6] == 'A' && s[7] == 'C' && s[8] == 'E' {
        Some(Key::KEY_SPACE)
    } else if s.len() == 9 && s[0] == 'K' && s[1] == 'E' && s[2] == 'Y' && s[3] == '_' && s[4] == 'E' && s[5] == 'N' && s[6] == 'T' && s[7] == 'E' && s[8] == 'R' {
        Some(Key::KEY_ENTER)
    } else if s.len() == 13 && s[0] == 'K' && s[1] == 'E' && s[2] == 'Y' && s[3] == '_' && s[4] == 'B' && s[5] == 'A' && s[6] == 'C' && s[7] == 'K' && s[8] == 'S' && s[9] == 'P' && s[10] == 'A' && s[11] == 'C' && s[12] == 'E' {
        Some(Key::KEY_BACKSPACE)
    } else if s.len() == 10 && s[0] == 'K' && s[1] == 'E' && s[2] == 'Y' && s[3] == '_' && s[4] == 'D' && s[5] == 'E' && s[6] == 'L' && s[7] == 'E' && s[8] == 'T' && s[9] == 'E' {
        Some(Key::KEY_DELETE)
    } else if s.len() == 10 && s[0] == 'K' && s[1] == 'E' && s[2] == 'Y' && s[3] == '_' && s[4] == 'I' && s[5] == 'N' && s[6] == 'S' && s[7] == 'E' && s[8] == 'R' && s[9] == 'T' {
        Some(Key::KEY_INSERT)
    } else if s.len() == 7 && s[0] == 'K' && s[1] == 'E' && s[2] == 'Y' && s[3] == '_' && s[4] == 'T' && s[5] == 'A' && s[6] == 'B' {
        Some(Key::KEY_TAB)
    } else if s.len() == 7 && s[0] == 'K' && s[1] == 'E' && s[2] == 'Y' && s[3] == '_' && s[4] == 'E' && s[5] == 'S' && s[6] == 'C' {
        Some(Key::KEY_ESC)
    } else if s.len() == 12 && s[0] == 'K' && s[1] == 'E' && s[2] == 'Y' && s[3] == '_' && s[4] == 'C' && s[5] == 'A' && s[6] == 'P' && s[7] == 'S' && s[8] == 'L' && s[9] == 'O' && s[10] == 'C' && s[11] == 'K' {
        Some(Key::KEY_CAPSLOCK)
    } else if s.len() == 9 && s[0] == 'K' && s[1] == 'E' && s[2] == 'Y' && s[3] == '_' && s[4] == 'E' && s[5] == 'Q' && s[6] == 'U' && s[7] == 'A' && s[8] == 'L' {
        Some(Key::KEY_EQUAL)
    } else if s.len() == 9 && s[0] == 'K' && s[1] == 'E' && s[2] == 'Y' && s[3] == '_' && s[4] == 'M' && s[5] == 'I' && s[6] == 'N' && s[7] == 'U' && s[8] == 'S' {
        Some(Key::KEY_MINUS)
    } else if s.len() == 13 && s[0] == 'K' && s[1] == 'E' && s[2] == 'Y' && s[3] == '_' && s[4] == 'L' && s[5] == 'E' && s[6] == 'F' && s[7] == 'T' && s[8] == 'B' && s[9] == 'R' && s[10] == 'A' && s[11] == 'C' && s[12] == 'E' {
        Some(Key::KEY_LEFTBRACE)
    } else if s.len() == 14 && s[0] == 'K' && s[1] == 'E' && s[2] == 'Y' && s[3] == '_' && s[4] == 'R' && s[5] == 'I' && s[6] == 'G' && s[7] == 'H' && s[8] == 'T' && s[9] == 'B' && s[10] == 'R' && s[11] == 'A' && s[12] == 'C' && s[13] == 'E' {
        Some(Key::KEY_RIGHTBRACE)
    } else if s.len() == 13 && s[0] == 'K' && s[1] == 'E' && s[2] == 'Y' && s[3] == '_' && s[4] == 'S' && s[5] == 'E' && s[6] == 'M' && s[7] == 'I' && s[8] == 'C' && s[9] == 'O' && s[10] == 'L' && s[11] == 'O' && s[12] == 'N' {
        Some(Key::KEY_SEMICOLON)
    } else if s.len() == 14 && s[0] == 'K' && s[1] == 'E' && s[2] == 'Y' && s[3] == '_' && s[4] == 'A' && s[5] == 'P' && s[6] == 'O' && s[7] == 'S' && s[8] == 'T' && s[9] == 'R' && s[10] == 'O' && s[11] == 'P' && s[12] == 'H' && s[13] == 'E' {
        Some(Key::KEY_APOSTROPHE)
    } else if s.len() == 9 && s[0] == 'K' && s[1] == 'E' && s[2] == 'Y' && s[3] == '_' && s[4] == 'G' && s[5] == 'R' && s[6] == 'A' && s[7] == 'V' && s[8] == 'E' {
        Some(Key::KEY_GRAVE)
    } else if s.len() == 13 && s[0] == 'K' && s[1] == 'E' && s[2] == 'Y' && s[3] == '_' && s[4] == 'B' && s[5] == 'A' && s[6] == 'C' && s[7] == 'K' && s[8] == 'S' && s[9] == 'L' && s[10] == 'A' && s[11] == 'S' && s[12] == 'H' {
        Some(Key::KEY_BACKSLASH)
    } else if s.len() == 9 && s[0] == 'K' && s[1] == 'E' && s[2] == 'Y' && s[3] == '_' && s[4] == 'C' && s[5] == 'O' && s[6] == 'M' && s[7] == 'M' && s[8] == 'A' {
        Some(Key::KEY_COMMA)
    } else if s.len() == 7 && s[0] == 'K' && s[1] == 'E' && s[2] == 'Y' && s[3] == '_' && s[4] == 'D' && s[5] == 'O' && s[6] == 'T' {
        Some(Key::KEY_DOT)
    } else if s.len() == 9 && s[0] == 'K' && s[1] == 'E' && s[2] == 'Y' && s[3] == '_' && s[4] == 'S' && s[5] == 'L' && s[6] == 'A' && s[7] == 'S' && s[8] == 'H' {
        Some(Key::KEY_SLASH)
    } else if s.len() == 8 && s[0] == 'K' && s[1] == 'E' && s[2] == 'Y' && s[3] == '_' && s[4] == 'M' && s[5] == 'U' && s[6] == 'T' && s[7] == 'E' {
        Some(Key::KEY_MUTE)
    } else if s.len() == 12 && s[0] == 'K' && s[1] == 'E' && s[2] == 'Y' && s[3] == '_' && s[4] == 'V' && s[5] == 'O' && s[6] == 'L' && s[7] == 'U' && s[8] == 'M' && s[9] == 'E' && s[10] == 'U' && s[11] == 'P' {
        Some(Key::KEY_VOLUMEUP)
    } else if s.len() == 14 && s[0] == 'K' && s[1] == 'E' && s[2] == 'Y' && s[3] == '_' && s[4] == 'V' && s[5] == 'O' && s[6] == 'L' && s[7] == 'U' && s[8] == 'M' && s[9] == 'E' && s[10] == 'D' && s[11] == 'O' && s[12] == 'W' && s[13] == 'N' {
        Some(Key::KEY_VOLUMEDOWN)
    } else if s.len() == 13 && s[0] == 'K' && s[1] == 'E' && s[2] == 'Y' && s[3] == '_' && s[4] == 'P' && s[5] == 'L' && s[6] == 'A' && s[7] == 'Y' && s[8] == 'P' && s[9] == 'A' && s[10] == 'U' && s[11] == 'S' && s[12] == 'E' {
        Some(Key::KEY_PLAYPAUSE)
    } else if s.len() == 12 && s[0] == 'K' && s[1] == 'E' && s[2] == 'Y' && s[3] == '_' && s[4] == 'N' && s[5] == 'E' && s[6] == 'X' && s[7] == 'T' && s[8] == 'S' && s[9] == 'O' && s[10] == 'N' && s[11] == 'G' {
        Some(Key::KEY_NEXTSONG)
    } else if s.len() == 16 && s[0] == 'K' && s[1] == 'E' && s[2] == 'Y' && s[3] == '_' && s[4] == 'P' && s[5] == 'R' && s[6] == 'E' && s[7] == 'V' && s[8] == 'I' && s[9] == 'O' && s[10] == 'U' && s[11] == 'S' && s[12] == 'S' && s[13] == 'O' && s[14] == 'N' && s[15] == 'G' {
        Some(Key::KEY_PREVIOUSSONG)
    } else if s.len() == 10 && s[0] == 'K' && s[1] == 'E' && s[2] == 'Y' && s[3] == '_' && s[4] == 'S' && s[5] == 'T' && s[6] == 'O' && s[7] == 'P' && s[8] == 'C' && s[9] == 'D' {
        Some(Key::KEY_STOPCD)
    } else if s.len() == 16 && s[0] == 'K' && s[1] == 'E' && s[2] == 'Y' && s[3] == '_' && s[4] == 'B' && s[5] == 'R' && s[6] == 'I' && s[7] == 'G' && s[8] == 'H' && s[9] == 'T' && s[10] == 'N' && s[11] == 'E' && s[12] == 'S' && s[13] == 'S' && s[14] == 'U' && s[15] == 'P' {
        Some(Key::KEY_BRIGHTNESSUP)
    } else if s.len() == 18 && s[0] == 'K' && s[1] == 'E' && s[2] == 'Y' && s[3] == '_' && s[4] == 'B' && s[5] == 'R' && s[6] == 'I' && s[7] == 'G' && s[8] == 'H' && s[9] == 'T' && s[10] == 'N' && s[11] == 'E' && s[12] == 'S' && s[13] == 'S' && s[14] == 'D' && s[15] == 'O' && s[16] == 'W' && s[17] == 'N' {
        Some(Key::KEY_BRIGHTNESSDOWN)
    } else if s.len() == 9 && s[0] == 'K' && s[1] == 'E' && s[2] == 'Y' && s[3] == '_' && s[4] == 'P' && s[5] == 'R' && s[6] == 'I' && s[7] == 'N' && s[8] == 'T' {
        Some(Key::KEY_PRINT)
    } else if s.len() == 14 && s[0] == 'K' && s[1] == 'E' && s[2] == 'Y' && s[3] == '_' && s[4] == 'S' && s[5] == 'C' && s[6] == 'R' && s[7] == 'O' && s[8] == 'L' && s[9] == 'L' && s[10] == 'L' && s[11] == 'O' && s[12] == 'C' && s[13] == 'K' {
        Some(Key::KEY_SCROLLLOCK)
    } else if s.len() == 9 && s[0] == 'K' && s[1] == 'E' && s[2] == 'Y' && s[3] == '_' && s[4] == 'P' && s[5] == 'A' && s[6] == 'U' && s[7] == 'S' && s[8] == 'E' {
        Some(Key::KEY_PAUSE)
    } else if s.len() == 9 && s[0] == 'K' && s[1] == 'E' && s[2] == 'Y' && s[3] == '_' && s[4] == 'S' && s[5] == 'L' && s[6] == 'E' && s[7] == 'E' && s[8] == 'P' {
        Some(Key::KEY_SLEEP)
    } else if s.len() == 10 && s[0] == 'K' && s[1] == 'E' && s[2] == 'Y' && s[3] == '_' && s[4] == 'W' && s[5] == 'A' && s[6] == 'K' && s[7] == 'E' && s[8] == 'U' && s[9] == 'P' {
        Some(Key::KEY_WAKEUP)
    } else {
        None
    }
}

proof fn key_of_chars_inverts_name(k: Key)
    ensures
        key_of_chars(key_name(k)) == Some(k),
{
    match k {
        Key::KEY_A => {
            reveal_strlit("KEY_A");
        },
        Key::KEY_B => {
            reveal_strlit("KEY_B");
        },
        Key::KEY_C => {
            reveal_strlit("KEY_C");
        },
        Key::KEY_D => {
            reveal_strlit("KEY_D");
        },
        Key::KEY_E => {
            reveal_strlit("KEY_E");
        },
        Key::KEY_F => {
            reveal_strlit("KEY_F");
        },
        Key::KEY_G => {
            reveal_strlit("KEY_G");
        },
        Key::KEY_H => {
            reveal_strlit("KEY_H");
        },
        Key::KEY_I => {
            reveal_strlit("KEY_I");
        },
        Key::KEY_J => {
            reveal_strlit("KEY_J");
        },
        Key::KEY_K => {
            reveal_strlit("KEY_K");
        },
        Key::KEY_L => {
            reveal_strlit("KEY_L");
        },
        Key::KEY_M => {
            reveal_strlit("KEY_M");
        },
        Key::KEY_N => {
            reveal_strlit("KEY_N");
        },
        Key::KEY_O => {
            reveal_strlit("KEY_O");
        },
        Key::KEY_P => {
            reveal_strlit("KEY_P");
        },
        Key::KEY_Q => {
            reveal_strlit("KEY_Q");
        },
        Key::KEY_R => {
            reveal_strlit("KEY_R");
        },
        Key::KEY_S => {
            reveal_strlit("KEY_S");
        },
        Key::KEY_T => {
            reveal_strlit("KEY_T");
        },
        Key::KEY_U => {
            reveal_strlit("KEY_U");
        },
        Key::KEY_V => {
            reveal_strlit("KEY_V");
        },
        Key::KEY_W => {
            reveal_strlit("KEY_W");
        },
        Key::KEY_X => {
            reveal_strlit("KEY_X");
        },
        Key::KEY_Y => {
            reveal_strlit("KEY_Y");
        },
        Key::KEY_Z => {
            reveal_strlit("KEY_Z");
        },
        Key::KEY_0 => {
            reveal_strlit("KEY_0");
        },
        Key::KEY_1 => {
            reveal_strlit("KEY_1");
        },
        Key::KEY_2 => {
            reveal_strlit("KEY_2");
        },
        Key::KEY_3 => {
            reveal_strlit("KEY_3");
        },
        Key::KEY_4 => {
            reveal_strlit("KEY_4");
        },
        Key::KEY_5 => {
            reveal_strlit("KEY_5");
        },
        Key::KEY_6 => {
            reveal_strlit("KEY_6");
        },
        Key::KEY_7 => {
            reveal_strlit("KEY_7");
        },
        Key::KEY_8 => {
            reveal_strlit("KEY_8");
        },
        Key::KEY_9 => {
            reveal_strlit("KEY_9");
        },
        Key::KEY_F1 => {
            reveal_strlit("KEY_F1");
        },
        Key::KEY_F2 => {
            reveal_strlit("KEY_F2");
        },
        Key::KEY_F3 => {
            reveal_strlit("KEY_F3");
        },
        Key::KEY_F4 => {
            reveal_strlit("KEY_F4");
        },
        Key::KEY_F5 => {
            reveal_strlit("KEY_F5");
        },
        Key::KEY_F6 => {
            reveal_strlit("KEY_F6");
        },
        Key::KEY_F7 => {
            reveal_strlit("KEY_F7");
        },
        Key::KEY_F8 => {
            reveal_strlit("KEY_F8");
        },
        Key::KEY_F9 => {
            reveal_strlit("KEY_F9");
        },
        Key::KEY_F10 => {
            reveal_strlit("KEY_F10");
        },
        Key::KEY_F11 => {
            reveal_strlit("KEY_F11");
        },
        Key::KEY_F12 => {
            reveal_strlit("KEY_F12");
        },
        Key::KEY_LEFTSHIFT => {
            reveal_strlit("KEY_LEFTSHIFT");
        },
        Key::KEY_RIGHTSHIFT => {
            reveal_strlit("KEY_RIGHTSHIFT");
        },
        Key::KEY_LEFTCTRL => {
            reveal_strlit("KEY_LEFTCTRL");
        },
        Key::KEY_RIGHTCTRL => {
            reveal_strlit("KEY_RIGHTCTRL");
        },
        Key::KEY_LEFTALT => {
            reveal_strlit("KEY_LEFTALT");
        },
        Key::KEY_RIGHTALT => {
            reveal_strlit("KEY_RIGHTALT");
        },
        Key::KEY_LEFTMETA => {
            reveal_strlit("KEY_LEFTMETA");
        },
        Key::KEY_RIGHTMETA => {
            reveal_strlit("KEY_RIGHTMETA");
        },
        Key::KEY_UP => {
            reveal_strlit("KEY_UP");
        },
        Key::KEY_DOWN => {
            reveal_strlit("KEY_DOWN");
        },
        Key::KEY_LEFT => {
            reveal_strlit("KEY_LEFT");
        },
        Key::KEY_RIGHT => {
            reveal_strlit("KEY_RIGHT");
        },
        Key::KEY_HOME => {
            reveal_strlit("KEY_HOME");
        },
        Key::KEY_END => {
            reveal_strlit("KEY_END");
        },
        Key::KEY_PAGEUP => {
            reveal_strlit("KEY_PAGEUP");
        },
        Key::KEY_PAGEDOWN => {
            reveal_strlit("KEY_PAGEDOWN");
        },
        Key::KEY_SPACE => {
            reveal_strlit("KEY_SPACE");
        },
        Key::KEY_ENTER => {
            reveal_strlit("KEY_ENTER");
        },
        Key::KEY_BACKSPACE => {
            reveal_strlit("KEY_BACKSPACE");
        },
        Key::KEY_DELETE => {
            reveal_strlit("KEY_DELETE");
        },
        Key::KEY_INSERT => {
            reveal_strlit("KEY_INSERT");
        },
        Key::KEY_TAB => {
            reveal_strlit("KEY_TAB");
        },
        Key::KEY_ESC => {
            reveal_strlit("KEY_ESC");
        },
        Key::KEY_CAPSLOCK => {
            reveal_strlit("KEY_CAPSLOCK");
        },
        Key::KEY_EQUAL => {
            reveal_strlit("KEY_EQUAL");
        },
        Key::KEY_MINUS => {
            reveal_strlit("KEY_MINUS");
        },
        Key::KEY_LEFTBRACE => {
            reveal_strlit("KEY_LEFTBRACE");
        },
        Key::KEY_RIGHTBRACE => {
            reveal_strlit("KEY_RIGHTBRACE");
        },
        Key::KEY_SEMICOLON => {
            reveal_strlit("KEY_SEMICOLON");
        },
        Key::KEY_APOSTROPHE => {
            reveal_strlit("KEY_APOSTROPHE");
        },
        Key::KEY_GRAVE => {
            reveal_strlit("KEY_GRAVE");
        },
        Key::KEY_BACKSLASH => {
            reveal_strlit("KEY_BACKSLASH");
        },
        Key::KEY_COMMA => {
            reveal_strlit("KEY_COMMA");
        },
        Key::KEY_DOT => {
            reveal_strlit("KEY_DOT");
        },
        Key::KEY_SLASH => {
            reveal_strlit("KEY_SLASH");
        },
        Key::KEY_MUTE => {
            reveal_strlit("KEY_MUTE");
        },
        Key::KEY_VOLUMEUP => {
            reveal_strlit("KEY_VOLUMEUP");
        },
        Key::KEY_VOLUMEDOWN => {
            reveal_strlit("KEY_VOLUMEDOWN");
        },
        Key::KEY_PLAYPAUSE => {
            reveal_strlit("KEY_PLAYPAUSE");
        },
        Key::KEY_NEXTSONG => {
            reveal_strlit("KEY_NEXTSONG");
        },
        Key::KEY_PREVIOUSSONG => {
            reveal_strlit("KEY_PREVIOUSSONG");
        },
        Key::KEY_STOPCD => {
            reveal_strlit("KEY_STOPCD");
        },
        Key::KEY_BRIGHTNESSUP => {
            reveal_strlit("KEY_BRIGHTNESSUP");
        },
        Key::KEY_BRIGHTNESSDOWN => {
            reveal_strlit("KEY_BRIGHTNESSDOWN");
        },
        Key::KEY_PRINT => {
            reveal_strlit("KEY_PRINT");
        },
        Key::KEY_SCROLLLOCK => {
            reveal_strlit("KEY_SCROLLLOCK");
        },
        Key::KEY_PAUSE => {
            reveal_strlit("KEY_PAUSE");
        },
        Key::KEY_SLEEP => {
            reveal_strlit("KEY_SLEEP");
        },
        Key::KEY_WAKEUP => {
            reveal_strlit("KEY_WAKEUP");
        },
    }
}

/// Distinct keys have distinct names, so a name identifies its key.
pub proof fn key_name_injective(a: Key, b: Key)
    requires
        key_name(a) == key_name(b),
    ensures
        a == b,
{
    key_of_chars_inverts_name(a);
    key_of_chars_inverts_name(b);
}

/// Every supported key is recognised by its name, and by no other key's.
pub proof fn key_name_parses_back(k: Key)
    ensures
        key_named(key_name(k)) == Some(k),
{
    let c = choose|c: Key| key_name(c) == key_name(k);
    key_name_injective(k, c);
}

/// Number of keys that the virtual keyboard supports.
pub const KEY_COUNT: usize = 97;

/// The key at a position of the keyboard's key list (the last one for
/// positions past its end).
pub open spec fn key_at(i: int) -> Key {
    if i == 0 {
        Key::KEY_A
    } else if i == 1 {
        Key::KEY_B
    } else if i == 2 {
        Key::KEY_C
    } else if i == 3 {
        Key::KEY_D
    } else if i == 4 {
        Key::KEY_E
    } else if i == 5 {
        Key::KEY_F
    } else if i == 6 {
        Key::KEY_G
    } else if i == 7 {
        Key::KEY_H
    } else if i == 8 {
        Key::KEY_I
    } else if i == 9 {
        Key::KEY_J
    } else if i == 10 {
        Key::KEY_K
    } else if i == 11 {
        Key::KEY_L
    } else if i == 12 {
        Key::KEY_M
    } else if i == 13 {
        Key::KEY_N
    } else if i == 14 {
        Key::KEY_O
    } else if i == 15 {
        Key::KEY_P
    } else if i == 16 {
        Key::KEY_Q
    } else if i == 17 {
        Key::KEY_R
    } else if i == 18 {
        Key::KEY_S
    } else if i == 19 {
        Key::KEY_T
    } else if i == 20 {
        Key::KEY_U
    } else if i == 21 {
        Key::KEY_V
    } else if i == 22 {
        Key::KEY_W
    } else if i == 23 {
        Key::KEY_X
    } else if i == 24 {
        Key::KEY_Y
    } else if i == 25 {
        Key::KEY_Z
    } else if i == 26 {
        Key::KEY_0
    } else if i == 27 {
        Key::KEY_1
    } else if i == 28 {
        Key::KEY_2
    } else if i == 29 {
        Key::KEY_3
    } else if i == 30 {
        Key::KEY_4
    } else if i == 31 {
        Key::KEY_5
    } else if i == 32 {
        Key::KEY_6
    } else if i == 33 {
        Key::KEY_7
    } else if i == 34 {
        Key::KEY_8
    } else if i == 35 {
        Key::KEY_9
    } else if i == 36 {
        Key::KEY_F1
    } else if i == 37 {
        Key::KEY_F2
    } else if i == 38 {
        Key::KEY_F3
    } else if i == 39 {
        Key::KEY_F4
    } else if i == 40 {
        Key::KEY_F5
    } else if i == 41 {
        Key::KEY_F6
    } else if i == 42 {
        Key::KEY_F7
    } else if i == 43 {
        Key::KEY_F8
    } else if i == 44 {
        Key::KEY_F9
    } else if i == 45 {
        Key::KEY_F10
    } else if i == 46 {
        Key::KEY_F11
    } else if i == 47 {
        Key::KEY_F12
    } else if i == 48 {
        Key::KEY_LEFTSHIFT
    } else if i == 49 {
        Key::KEY_RIGHTSHIFT
    } else if i == 50 {
        Key::KEY_LEFTCTRL
    } else if i == 51 {
        Key::KEY_RIGHTCTRL
    } else if i == 52 {
        Key::KEY_LEFTALT
    } else if i == 53 {
        Key::KEY_RIGHTALT
    } else if i == 54 {
        Key::KEY_LEFTMETA
    } else if i == 55 {
        Key::KEY_RIGHTMETA
    } else if i == 56 {
        Key::KEY_UP
    } else if i == 57 {
        Key::KEY_DOWN
    } else if i == 58 {
        Key::KEY_LEFT
    } else if i == 59 {
        Key::KEY_RIGHT
    } else if i == 60 {
        Key::KEY_HOME
    } else if i == 61 {
        Key::KEY_END
    } else if i == 62 {
        Key::KEY_PAGEUP
    } else if i == 63 {
        Key::KEY_PAGEDOWN
    } else if i == 64 {
        Key::KEY_SPACE
    } else if i == 65 {
        Key::KEY_ENTER
    } else if i == 66 {
        Key::KEY_BACKSPACE
    } else if i == 67 {
        Key::KEY_DELETE
    } else if i == 68 {
        Key::KEY_INSERT
    } else if i == 69 {
        Key::KEY_TAB
    } else if i == 70 {
        Key::KEY_ESC
    } else if i == 71 {
        Key::KEY_CAPSLOCK
    } else if i == 72 {
        Key::KEY_EQUAL
    } else if i == 73 {
        Key::KEY_MINUS
    } else if i == 74 {
        Key::KEY_LEFTBRACE
    } else if i == 75 {
        Key::KEY_RIGHTBRACE
    } else if i == 76 {
        Key::KEY_SEMICOLON
    } else if i == 77 {
        Key::KEY_APOSTROPHE
    } else if i == 78 {
        Key::KEY_GRAVE
    } else if i == 79 {
        Key::KEY_BACKSLASH
    } else if i == 80 {
        Key::KEY_COMMA
    } else if i == 81 {
        Key::KEY_DOT
    } else if i == 82 {
        Key::KEY_SLASH
    } else if i == 83 {
        Key::KEY_MUTE
    } else if i == 84 {
        Key::KEY_VOLUMEUP
    } else if i == 85 {
        Key::KEY_VOLUMEDOWN
    } else if i == 86 {
        Key::KEY_PLAYPAUSE
    } else if i == 87 {
        Key::KEY_NEXTSONG
    } else if i == 88 {
        Key::KEY_PREVIOUSSONG
    } else if i == 89 {
        Key::KEY_STOPCD
    } else if i == 90 {
        Key::KEY_BRIGHTNESSUP
    } else if i == 91 {
        Key::KEY_BRIGHTNESSDOWN
    } else if i == 92 {
        Key::KEY_PRINT
    } else if i == 93 {
        Key::KEY_SCROLLLOCK
    } else if i == 94 {
        Key::KEY_PAUSE
    } else if i == 95 {
        Key::KEY_SLEEP
    } else {
        Key::KEY_WAKEUP
    }
}

/// The keys that the virtual keyboard registers, in order: every key that
/// `parse_key_code` can return.
pub open spec fn keyboard_keys() -> Seq<Key> {
    Seq::new(KEY_COUNT as nat, |i: int| key_at(i))
}

fn key_at_index(i: usize) -> (r: Key)
    ensures
        r == key_at(i as int),
{
    match i {
        0 => Key::KEY_A,
        1 => Key::KEY_B,
        2 => Key::KEY_C,
        3 => Key::KEY_D,
        4 => Key::KEY_E,
        5 => Key::KEY_F,
        6 => Key::KEY_G,
        7 => Key::KEY_H,
        8 => Key::KEY_I,
        9 => Key::KEY_J,
        10 => Key::KEY_K,
        11 => Key::KEY_L,
        12 => Key::KEY_M,
        13 => Key::KEY_N,
        14 => Key::KEY_O,
        15 => Key::KEY_P,
        16 => Key::KEY_Q,
        17 => Key::KEY_R,
        18 => Key::KEY_S,
        19 => Key::KEY_T,
        20 => Key::KEY_U,
        21 => Key::KEY_V,
        22 => Key::KEY_W,
        23 => Key::KEY_X,
        24 => Key::KEY_Y,
        25 => Key::KEY_Z,
        26 => Key::KEY_0,
        27 => Key::KEY_1,
        28 => Key::KEY_2,
        29 => Key::KEY_3,
        30 => Key::KEY_4,
        31 => Key::KEY_5,
        32 => Key::KEY_6,
        33 => Key::KEY_7,
        34 => Key::KEY_8,
        35 => Key::KEY_9,
        36 => Key::KEY_F1,
        37 => Key::KEY_F2,
        38 => Key::KEY_F3,
        39 => Key::KEY_F4,
        40 => Key::KEY_F5,
        41 => Key::KEY_F6,
        42 => Key::KEY_F7,
        43 => Key::KEY_F8,
        44 => Key::KEY_F9,
        45 => Key::KEY_F10,
        46 => Key::KEY_F11,
        47 => Key::KEY_F12,
        48 => Key::KEY_LEFTSHIFT,
        49 => Key::KEY_RIGHTSHIFT,
        50 => Key::KEY_LEFTCTRL,
        51 => Key::KEY_RIGHTCTRL,
        52 => Key::KEY_LEFTALT,
        53 => Key::KEY_RIGHTALT,
        54 => Key::KEY_LEFTMETA,
        55 => Key::KEY_RIGHTMETA,
        56 => Key::KEY_UP,
        57 => Key::KEY_DOWN,
        58 => Key::KEY_LEFT,
        59 => Key::KEY_RIGHT,
        60 => Key::KEY_HOME,
        61 => Key::KEY_END,
        62 => Key::KEY_PAGEUP,
        63 => Key::KEY_PAGEDOWN,
        64 => Key::KEY_SPACE,
        65 => Key::KEY_ENTER,
        66 => Key::KEY_BACKSPACE,
        67 => Key::KEY_DELETE,
        68 => Key::KEY_INSERT,
        69 => Key::KEY_TAB,
        70 => Key::KEY_ESC,
        71 => Key::KEY_CAPSLOCK,
        72 => Key::KEY_EQUAL,
        73 => Key::KEY_MINUS,
        74 => Key::KEY_LEFTBRACE,
        75 => Key::KEY_RIGHTBRACE,
        76 => Key::KEY_SEMICOLON,
        77 => Key::KEY_APOSTROPHE,
        78 => Key::KEY_GRAVE,
        79 => Key::KEY_BACKSLASH,
        80 => Key::KEY_COMMA,
        81 => Key::KEY_DOT,
        82 => Key::KEY_SLASH,
        83 => Key::KEY_MUTE,
        84 => Key::KEY_VOLUMEUP,
        85 => Key::KEY_VOLUMEDOWN,
        86 => Key::KEY_PLAYPAUSE,
        87 => Key::KEY_NEXTSONG,
        88 => Key::KEY_PREVIOUSSONG,
        89 => Key::KEY_STOPCD,
        90 => Key::KEY_BRIGHTNESSUP,
        91 => Key::KEY_BRIGHTNESSDOWN,
        92 => Key::KEY_PRINT,
        93 => Key::KEY_SCROLLLOCK,
        94 => Key::KEY_PAUSE,
        95 => Key::KEY_SLEEP,
        _ => Key::KEY_WAKEUP,
    }
}

/// The keys to register on the virtual keyboard.
pub fn all_keys() -> (r: Vec<Key>)
    ensures
        r@ == keyboard_keys(),
        forall|k: Key| r@.contains(k),
{
    let mut r: Vec<Key> = Vec::new();
    let mut i: usize = 0;
    while i < KEY_COUNT
        invariant
            i <= KEY_COUNT,
            r@ == keyboard_keys().subrange(0, i as int),
        decreases KEY_COUNT - i,
    {
        r.push(key_at_index(i));
        proof {
            assert(keyboard_keys().subrange(0, i + 1) =~= keyboard_keys().subrange(0, i as int).push(
                key_at(i as int),
            ));
        }
        i = i + 1;
    }
    proof {
        assert(keyboard_keys().subrange(0, i as int) =~= keyboard_keys());
        assert forall|k: Key| r@.contains(k) by {
            every_key_on_keyboard(k);
        }
    }
    r
}

/// Every key is on the virtual keyboard.
pub proof fn every_key_on_keyboard(k: Key)
    ensures
        keyboard_keys().contains(k),
{
    match k {
        Key::KEY_A => {
            assert(keyboard_keys()[0] == k);
        },
        Key::KEY_B => {
            assert(keyboard_keys()[1] == k);
        },
        Key::KEY_C => {
            assert(keyboard_keys()[2] == k);
        },
        Key::KEY_D => {
            assert(keyboard_keys()[3] == k);
        },
        Key::KEY_E => {
            assert(keyboard_keys()[4] == k);
        },
        Key::KEY_F => {
            assert(keyboard_keys()[5] == k);
        },
        Key::KEY_G => {
            assert(keyboard_keys()[6] == k);
        },
        Key::KEY_H => {
            assert(keyboard_keys()[7] == k);
        },
        Key::KEY_I => {
            assert(keyboard_keys()[8] == k);
        },
        Key::KEY_J => {
            assert(keyboard_keys()[9] == k);
        },
        Key::KEY_K => {
            assert(keyboard_keys()[10] == k);
        },
        Key::KEY_L => {
            assert(keyboard_keys()[11] == k);
        },
        Key::KEY_M => {
            assert(keyboard_keys()[12] == k);
        },
        Key::KEY_N => {
            assert(keyboard_keys()[13] == k);
        },
        Key::KEY_O => {
            assert(keyboard_keys()[14] == k);
        },
        Key::KEY_P => {
            assert(keyboard_keys()[15] == k);
        },
        Key::KEY_Q => {
            assert(keyboard_keys()[16] == k);
        },
        Key::KEY_R => {
            assert(keyboard_keys()[17] == k);
        },
        Key::KEY_S => {
            assert(keyboard_keys()[18] == k);
        },
        Key::KEY_T => {
            assert(keyboard_keys()[19] == k);
        },
        Key::KEY_U => {
            assert(keyboard_keys()[20] == k);
        },
        Key::KEY_V => {
            assert(keyboard_keys()[21] == k);
        },
        Key::KEY_W => {
            assert(keyboard_keys()[22] == k);
        },
        Key::KEY_X => {
            assert(keyboard_keys()[23] == k);
        },
        Key::KEY_Y => {
            assert(keyboard_keys()[24] == k);
        },
        Key::KEY_Z => {
            assert(keyboard_keys()[25] == k);
        },
        Key::KEY_0 => {
            assert(keyboard_keys()[26] == k);
        },
        Key::KEY_1 => {
            assert(keyboard_keys()[27] == k);
        },
        Key::KEY_2 => {
            assert(keyboard_keys()[28] == k);
        },
        Key::KEY_3 => {
            assert(keyboard_keys()[29] == k);
        },
        Key::KEY_4 => {
            assert(keyboard_keys()[30] == k);
        },
        Key::KEY_5 => {
            assert(keyboard_keys()[31] == k);
        },
        Key::KEY_6 => {
            assert(keyboard_keys()[32] == k);
        },
        Key::KEY_7 => {
            assert(keyboard_keys()[33] == k);
        },
        Key::KEY_8 => {
            assert(keyboard_keys()[34] == k);
        },
        Key::KEY_9 => {
            assert(keyboard_keys()[35] == k);
        },
        Key::KEY_F1 => {
            assert(keyboard_keys()[36] == k);
        },
        Key::KEY_F2 => {
            assert(keyboard_keys()[37] == k);
        },
        Key::KEY_F3 => {
            assert(keyboard_keys()[38] == k);
        },
        Key::KEY_F4 => {
            assert(keyboard_keys()[39] == k);
        },
        Key::KEY_F5 => {
            assert(keyboard_keys()[40] == k);
        },
        Key::KEY_F6 => {
            assert(keyboard_keys()[41] == k);
        },
        Key::KEY_F7 => {
            assert(keyboard_keys()[42] == k);
        },
        Key::KEY_F8 => {
            assert(keyboard_keys()[43] == k);
        },
        Key::KEY_F9 => {
            assert(keyboard_keys()[44] == k);
        },
        Key::KEY_F10 => {
            assert(keyboard_keys()[45] == k);
        },
        Key::KEY_F11 => {
            assert(keyboard_keys()[46] == k);
        },
        Key::KEY_F12 => {
            assert(keyboard_keys()[47] == k);
        },
        Key::KEY_LEFTSHIFT => {
            assert(keyboard_keys()[48] == k);
        },
        Key::KEY_RIGHTSHIFT => {
            assert(keyboard_keys()[49] == k);
        },
        Key::KEY_LEFTCTRL => {
            assert(keyboard_keys()[50] == k);
        },
        Key::KEY_RIGHTCTRL => {
            assert(keyboard_keys()[51] == k);
        },
        Key::KEY_LEFTALT => {
            assert(keyboard_keys()[52] == k);
        },
        Key::KEY_RIGHTALT => {
            assert(keyboard_keys()[53] == k);
        },
        Key::KEY_LEFTMETA => {
            assert(keyboard_keys()[54] == k);
        },
        Key::KEY_RIGHTMETA => {
            assert(keyboard_keys()[55] == k);
        },
        Key::KEY_UP => {
            assert(keyboard_keys()[56] == k);
        },
        Key::KEY_DOWN => {
            assert(keyboard_keys()[57] == k);
        },
        Key::KEY_LEFT => {
            assert(keyboard_keys()[58] == k);
        },
        Key::KEY_RIGHT => {
            assert(keyboard_keys()[59] == k);
        },
        Key::KEY_HOME => {
            assert(keyboard_keys()[60] == k);
        },
        Key::KEY_END => {
            assert(keyboard_keys()[61] == k);
        },
        Key::KEY_PAGEUP => {
            assert(keyboard_keys()[62] == k);
        },
        Key::KEY_PAGEDOWN => {
            assert(keyboard_keys()[63] == k);
        },
        Key::KEY_SPACE => {
            assert(keyboard_keys()[64] == k);
        },
        Key::KEY_ENTER => {
            assert(keyboard_keys()[65] == k);
        },
        Key::KEY_BACKSPACE => {
            assert(keyboard_keys()[66] == k);
        },
        Key::KEY_DELETE => {
            assert(keyboard_keys()[67] == k);
        },
        Key::KEY_INSERT => {
            assert(keyboard_keys()[68] == k);
        },
        Key::KEY_TAB => {
            assert(keyboard_keys()[69] == k);
        },
        Key::KEY_ESC => {
            assert(keyboard_keys()[70] == k);
        },
        Key::KEY_CAPSLOCK => {
            assert(keyboard_keys()[71] == k);
        },
        Key::KEY_EQUAL => {
            assert(keyboard_keys()[72] == k);
        },
        Key::KEY_MINUS => {
            assert(keyboard_keys()[73] == k);
        },
        Key::KEY_LEFTBRACE => {
            assert(keyboard_keys()[74] == k);
        },
        Key::KEY_RIGHTBRACE => {
            assert(keyboard_keys()[75] == k);
        },
        Key::KEY_SEMICOLON => {
            assert(keyboard_keys()[76] == k);
        },
        Key::KEY_APOSTROPHE => {
            assert(keyboard_keys()[77] == k);
        },
        Key::KEY_GRAVE => {
            assert(keyboard_keys()[78] == k);
        },
        Key::KEY_BACKSLASH => {
            assert(keyboard_keys()[79] == k);
        },
        Key::KEY_COMMA => {
            assert(keyboard_keys()[80] == k);
        },
        Key::KEY_DOT => {
            assert(keyboard_keys()[81] == k);
        },
        Key::KEY_SLASH => {
            assert(keyboard_keys()[82] == k);
        },
        Key::KEY_MUTE => {
            assert(keyboard_keys()[83] == k);
        },
        Key::KEY_VOLUMEUP => {
            assert(keyboard_keys()[84] == k);
        },
        Key::KEY_VOLUMEDOWN => {
            assert(keyboard_keys()[85] == k);
        },
        Key::KEY_PLAYPAUSE => {
            assert(keyboard_keys()[86] == k);
        },
        Key::KEY_NEXTSONG => {
            assert(keyboard_keys()[87] == k);
        },
        Key::KEY_PREVIOUSSONG => {
            assert(keyboard_keys()[88] == k);
        },
        Key::KEY_STOPCD => {
            assert(keyboard_keys()[89] == k);
        },
        Key::KEY_BRIGHTNESSUP => {
            assert(keyboard_keys()[90] == k);
        },
        Key::KEY_BRIGHTNESSDOWN => {
            assert(keyboard_keys()[91] == k);
        },
        Key::KEY_PRINT => {
            assert(keyboard_keys()[92] == k);
        },
        Key::KEY_SCROLLLOCK => {
            assert(keyboard_keys()[93] == k);
        },
        Key::KEY_PAUSE => {
            assert(keyboard_keys()[94] == k);
        },
        Key::KEY_SLEEP => {
            assert(keyboard_keys()[95] == k);
        },
        Key::KEY_WAKEUP => {
            assert(keyboard_keys()[96] == k);
        },
    }
}

/// Every key that a name resolves to is registered on the virtual keyboard,
/// so every key that `modes.yaml` names can be sent.
pub proof fn parsed_keys_are_registered(name: Seq<char>)
    ensures
        key_named(name) matches Some(k) ==> keyboard_keys().contains(k),
{
    if let Some(k) = key_named(name) {
        every_key_on_keyboard(k);
    }
}

/// Direction of one step of the scroll wheel.
#[derive(Clone, Copy, Debug, PartialEq, Eq, Structural)]
pub enum ScrollStep {
    Up,
    Down,
}

/// Relative axes of the virtual keyboard/mouse.
#[derive(Clone, Copy, Debug, PartialEq, Eq, Structural)]
pub enum RelAxis {
    Wheel,
    WheelHiRes,
}

/// Absolute axes of the virtual touchpad.
#[derive(Clone, Copy, Debug, PartialEq, Eq, Structural)]
pub enum AbsAxis {
    MtSlot,
    MtTrackingId,
    MtPositionX,
    MtPositionY,
    X,
    Y,
}

/// Buttons of the virtual touchpad.
#[derive(Clone, Copy, Debug, PartialEq, Eq, Structural)]
pub enum TouchButton {
    Touch,
    ToolFinger,
    ToolDoubleTap,
}

/// One event to write to a virtual device: what changes, and its new value.
#[derive(Clone, Copy, Debug, PartialEq, Eq, Structural)]
pub enum OutputEvent {
    Key(Key, i32),
    Button(TouchButton, i32),
    Rel(RelAxis, i32),
    Abs(AbsAxis, i32),
}

/// Resting position of the fake fingers (`i32::MAX / 8`); the touchpad's axes run from 0 to
/// twice this value.
pub const MT_BASELINE: i32 = 268435455;

/// Resolution of the touchpad's axes: higher means slower scrolling.
pub const MT_SENSITIVITY: i32 = 48;

/// The events that set every key of `keys` to `value`, in order.
fn key_events(keys: &[Key], value: i32) -> (r: Vec<OutputEvent>)
    ensures
        r@ == keys@.map_values(|k: Key| OutputEvent::Key(k, value)),
{
    let mut r: Vec<OutputEvent> = Vec::new();
    let mut i: usize = 0;
    while i < keys.len()
        invariant
            i <= keys@.len(),
            r@ == keys@.subrange(0, i as int).map_values(|k: Key| OutputEvent::Key(k, value)),
        decreases keys@.len() - i,
    {
        r.push(OutputEvent::Key(keys[i], value));
        proof {
            assert(keys@.subrange(0, i + 1) =~= keys@.subrange(0, i as int).push(keys@[i as int]));
        }
        i = i + 1;
    }
    proof {
        assert(keys@.subrange(0, i as int) =~= keys@);
    }
    r
}

/// The events that press every key of a chord.
pub fn key_press_events(keys: &[Key]) -> (r: Vec<OutputEvent>)
    ensures
        r@ == keys@.map_values(|k: Key| OutputEvent::Key(k, 1)),
{
    key_events(keys, 1)
}

/// The events that release every key of a chord.
pub fn key_release_events(keys: &[Key]) -> (r: Vec<OutputEvent>)
    ensures
        r@ == keys@.map_values(|k: Key| OutputEvent::Key(k, 0)),
{
    key_events(keys, 0)
}

/// The two batches that click a chord: first every key is pressed, then
/// every key is released.
pub fn key_click_events(keys: &[Key]) -> (r: (Vec<OutputEvent>, Vec<OutputEvent>))
    ensures
        r.0@ == keys@.map_values(|k: Key| OutputEvent::Key(k, 1)),
        r.1@ == keys@.map_values(|k: Key| OutputEvent::Key(k, 0)),
{
    (key_press_events(keys), key_release_events(keys))
}

/// The events of one click of the scroll wheel: one wheel step and the
/// matching high-resolution step of 120.
pub fn scroll_step_events(dir: ScrollStep) -> (r: Vec<OutputEvent>)
    ensures
        r@ == match dir {
            ScrollStep::Up => seq![OutputEvent::Rel(RelAxis::Wheel, 1), OutputEvent::Rel(RelAxis::WheelHiRes, 120)],
            ScrollStep::Down => seq![OutputEvent::Rel(RelAxis::Wheel, -1i32), OutputEvent::Rel(RelAxis::WheelHiRes, -120i32)],
        },
{
    let (wheel, hi_res): (i32, i32) = match dir {
        ScrollStep::Down => (-1, -120),
        ScrollStep::Up => (1, 120),
    };
    let mut r: Vec<OutputEvent> = Vec::new();
    r.push(OutputEvent::Rel(RelAxis::Wheel, wheel));
    r.push(OutputEvent::Rel(RelAxis::WheelHiRes, hi_res));
    r
}

/// First batch of a two-finger touch: finger 0 lands at the baseline.
pub open spec fn mt_start_first() -> Seq<OutputEvent> {
    seq![
        OutputEvent::Abs(AbsAxis::MtSlot, 0),
        OutputEvent::Abs(AbsAxis::MtTrackingId, 1),
        OutputEvent::Abs(AbsAxis::MtPositionX, MT_BASELINE),
        OutputEvent::Abs(AbsAxis::MtPositionY, MT_BASELINE),
        OutputEvent::Button(TouchButton::Touch, 1),
        OutputEvent::Button(TouchButton::ToolFinger, 1),
        OutputEvent::Abs(AbsAxis::X, MT_BASELINE),
        OutputEvent::Abs(AbsAxis::Y, MT_BASELINE),
    ]
}

/// Second batch of a two-finger touch: finger 1 lands beside finger 0 and
/// the touch becomes a double tap.
pub open spec fn mt_start_second() -> Seq<OutputEvent> {
    seq![
        OutputEvent::Abs(AbsAxis::MtSlot, 1),
        OutputEvent::Abs(AbsAxis::MtTrackingId, 2),
        OutputEvent::Abs(AbsAxis::MtPositionX, (MT_BASELINE / 2) as i32),
        OutputEvent::Abs(AbsAxis::MtPositionY, MT_BASELINE),
        OutputEvent::Button(TouchButton::ToolFinger, 0),
        OutputEvent::Button(TouchButton::ToolDoubleTap, 1),
    ]
}

/// The two batches that put two fingers on the virtual touchpad.
pub fn scroll_mt_start_events() -> (r: (Vec<OutputEvent>, Vec<OutputEvent>))
    ensures
        r.0@ == mt_start_first(),
        r.1@ == mt_start_second(),
{
    let mut first: Vec<OutputEvent> = Vec::new();
    first.push(OutputEvent::Abs(AbsAxis::MtSlot, 0));
    first.push(OutputEvent::Abs(AbsAxis::MtTrackingId, 1));
    first.push(OutputEvent::Abs(AbsAxis::MtPositionX, MT_BASELINE));
    first.push(OutputEvent::Abs(AbsAxis::MtPositionY, MT_BASELINE));
    first.push(OutputEvent::Button(TouchButton::Touch, 1));
    first.push(OutputEvent::Button(TouchButton::ToolFinger, 1));
    first.push(OutputEvent::Abs(AbsAxis::X, MT_BASELINE));
    first.push(OutputEvent::Abs(AbsAxis::Y, MT_BASELINE));
    let mut second: Vec<OutputEvent> = Vec::new();
    second.push(OutputEvent::Abs(AbsAxis::MtSlot, 1));
    second.push(OutputEvent::Abs(AbsAxis::MtTrackingId, 2));
    second.push(OutputEvent::Abs(AbsAxis::MtPositionX, MT_BASELINE / 2));
    second.push(OutputEvent::Abs(AbsAxis::MtPositionY, MT_BASELINE));
    second.push(OutputEvent::Button(TouchButton::ToolFinger, 0));
    second.push(OutputEvent::Button(TouchButton::ToolDoubleTap, 1));
    proof {
        assert(first@ =~= mt_start_first());
        assert(second@ =~= mt_start_second());
    }
    (first, second)
}

/// The events that move both fingers to `delta` away from the baseline.
pub fn scroll_mt_step_events(delta: i32) -> (r: Vec<OutputEvent>)
    requires
        i32::MIN <= MT_BASELINE + delta <= i32::MAX,
    ensures
        r@ == seq![
            OutputEvent::Abs(AbsAxis::MtSlot, 0),
            OutputEvent::Abs(AbsAxis::MtPositionY, (MT_BASELINE + delta) as i32),
            OutputEvent::Abs(AbsAxis::MtSlot, 1),
            OutputEvent::Abs(AbsAxis::MtPositionY, (MT_BASELINE + delta) as i32),
            OutputEvent::Abs(AbsAxis::Y, (MT_BASELINE + delta) as i32),
        ],
{
    let y = MT_BASELINE + delta;
    let mut r: Vec<OutputEvent> = Vec::new();
    r.push(OutputEvent::Abs(AbsAxis::MtSlot, 0));
    r.push(OutputEvent::Abs(AbsAxis::MtPositionY, y));
    r.push(OutputEvent::Abs(AbsAxis::MtSlot, 1));
    r.push(OutputEvent::Abs(AbsAxis::MtPositionY, y));
    r.push(OutputEvent::Abs(AbsAxis::Y, y));
    r
}

/// The events that lift both fingers off the virtual touchpad.
pub fn scroll_mt_end_events() -> (r: Vec<OutputEvent>)
    ensures
        r@ == seq![
            OutputEvent::Abs(AbsAxis::MtSlot, 0),
            OutputEvent::Abs(AbsAxis::MtTrackingId, -1i32),
            OutputEvent::Abs(AbsAxis::MtSlot, 1),
            OutputEvent::Abs(AbsAxis::MtTrackingId, -1i32),
            OutputEvent::Button(TouchButton::Touch, 0),
            OutputEvent::Button(TouchButton::ToolDoubleTap, 0),
        ],
{
    let mut r: Vec<OutputEvent> = Vec::new();
    r.push(OutputEvent::Abs(AbsAxis::MtSlot, 0));
    r.push(OutputEvent::Abs(AbsAxis::MtTrackingId, -1));
    r.push(OutputEvent::Abs(AbsAxis::MtSlot, 1));
    r.push(OutputEvent::Abs(AbsAxis::MtTrackingId, -1));
    r.push(OutputEvent::Button(TouchButton::Touch, 0));
    r.push(OutputEvent::Button(TouchButton::ToolDoubleTap, 0));
    r
}

} // verus!
