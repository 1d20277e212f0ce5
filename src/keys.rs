use vstd::prelude::*;

use crate::text::{decimal, text_is, upper_of, uppercase, with_number};

verus! {

/// What std's `DefaultHasher` makes of a string, cut to 32 bits.
pub uninterp spec fn name_hash(s: Seq<char>) -> u32;

/// Relies on std::collections::hash_map::DefaultHasher: one made by `new`
/// uses fixed keys rather than a per-process seed, so equal names hash
/// alike. The name is hashed as a `str` and the low 32 bits of `finish` kept.
#[verifier::external_body]
fn stable_hash(name: &str) -> (r: u32)
    ensures
        r == name_hash(name@),
{
    let mut h = std::collections::hash_map::DefaultHasher::new();
    std::hash::Hash::hash(name, &mut h);
    std::hash::Hasher::finish(&h) as u32
}

// Labels for the hook-based capture, which names each key by its variant
// name in the hook library's key enumeration.

/// The label of a key named `name` by the hook library, when it has one of
/// its own.
pub open spec fn hook_known(name: Seq<char>) -> Option<Seq<char>> {
    if name == "Alt"@ {
        Some("ALT"@)
    } else if name == "AltGr"@ {
        Some("ALT GR"@)
    } else if name == "Backspace"@ {
        Some("BKSP"@)
    } else if name == "CapsLock"@ {
        Some("CAPS"@)
    } else if name == "ControlLeft"@ {
        Some("CTRL"@)
    } else if name == "ControlRight"@ {
        Some("CTRL"@)
    } else if name == "Delete"@ {
        Some("DEL"@)
    } else if name == "DownArrow"@ {
        Some("DOWN"@)
    } else if name == "End"@ {
        Some("END"@)
    } else if name == "Escape"@ {
        Some("ESC"@)
    } else if name == "F1"@ {
        Some("F1"@)
    } else if name == "F2"@ {
        Some("F2"@)
    } else if name == "F3"@ {
        Some("F3"@)
    } else if name == "F4"@ {
        Some("F4"@)
    } else if name == "F5"@ {
        Some("F5"@)
    } else if name == "F6"@ {
        Some("F6"@)
    } else if name == "F7"@ {
        Some("F7"@)
    } else if name == "F8"@ {
        Some("F8"@)
    } else if name == "F9"@ {
        Some("F9"@)
    } else if name == "F10"@ {
        Some("F10"@)
    } else if name == "F11"@ {
        Some("F11"@)
    } else if name == "F12"@ {
        Some("F12"@)
    } else if name == "Home"@ {
        Some("HOME"@)
    } else if name == "LeftArrow"@ {
        Some("LEFT"@)
    } else if name == "MetaLeft"@ {
        Some("CMD"@)
    } else if name == "MetaRight"@ {
        Some("CMD"@)
    } else if name == "PageDown"@ {
        Some("PG DN"@)
    } else if name == "PageUp"@ {
        Some("PG UP"@)
    } else if name == "Return"@ {
        Some("ENTER"@)
    } else if name == "RightArrow"@ {
        Some("RIGHT"@)
    } else if name == "ShiftLeft"@ {
        Some("SHIFT"@)
    } else if name == "ShiftRight"@ {
        Some("SHIFT"@)
    } else if name == "Space"@ {
        Some("SPACE"@)
    } else if name == "Tab"@ {
        Some("TAB"@)
    } else if name == "UpArrow"@ {
        Some("UP"@)
    } else if name == "PrintScreen"@ {
        Some("PRINT"@)
    } else if name == "ScrollLock"@ {
        Some("SCROLL"@)
    } else if name == "Pause"@ {
        Some("PAUSE"@)
    } else if name == "NumLock"@ {
        Some("NUM"@)
    } else if name == "BackQuote"@ {
        Some("`"@)
    } else if name == "Num1"@ {
        Some("1"@)
    } else if name == "Num2"@ {
        Some("2"@)
    } else if name == "Num3"@ {
        Some("3"@)
    } else if name == "Num4"@ {
        Some("4"@)
    } else if name == "Num5"@ {
        Some("5"@)
    } else if name == "Num6"@ {
        Some("6"@)
    } else if name == "Num7"@ {
        Some("7"@)
    } else if name == "Num8"@ {
        Some("8"@)
    } else if name == "Num9"@ {
        Some("9"@)
    } else if name == "Num0"@ {
        Some("0"@)
    } else if name == "Minus"@ {
        Some("-"@)
    } else if name == "Equal"@ {
        Some("="@)
    } else if name == "KeyQ"@ {
        Some("Q"@)
    } else if name == "KeyW"@ {
        Some("W"@)
    } else if name == "KeyE"@ {
        Some("E"@)
    } else if name == "KeyR"@ {
        Some("R"@)
    } else if name == "KeyT"@ {
        Some("T"@)
    } else if name == "KeyY"@ {
        Some("Y"@)
    } else if name == "KeyU"@ {
        Some("U"@)
    } else if name == "KeyI"@ {
        Some("I"@)
    } else if name == "KeyO"@ {
        Some("O"@)
    } else if name == "KeyP"@ {
        Some("P"@)
    } else if name == "LeftBracket"@ {
        Some("["@)
    } else if name == "RightBracket"@ {
        Some("]"@)
    } else if name == "KeyA"@ {
        Some("A"@)
    } else if name == "KeyS"@ {
        Some("S"@)
    } else if name == "KeyD"@ {
        Some("D"@)
    } else if name == "KeyF"@ {
        Some("F"@)
    } else if name == "KeyG"@ {
        Some("G"@)
    } else if name == "KeyH"@ {
        Some("H"@)
    } else if name == "KeyJ"@ {
        Some("J"@)
    } else if name == "KeyK"@ {
        Some("K"@)
    } else if name == "KeyL"@ {
        Some("L"@)
    } else if name == "SemiColon"@ {
        Some(";"@)
    } else if name == "Quote"@ {
        Some("'"@)
    } else if name == "BackSlash"@ {
        Some("\\"@)
    } else if name == "IntlBackslash"@ {
        Some("\\"@)
    } else if name == "KeyZ"@ {
        Some("Z"@)
    } else if name == "KeyX"@ {
        Some("X"@)
    } else if name == "KeyC"@ {
        Some("C"@)
    } else if name == "KeyV"@ {
        Some("V"@)
    } else if name == "KeyB"@ {
        Some("B"@)
    } else if name == "KeyN"@ {
        Some("N"@)
    } else if name == "KeyM"@ {
        Some("M"@)
    } else if name == "Comma"@ {
        Some(","@)
    } else if name == "Dot"@ {
        Some("."@)
    } else if name == "Slash"@ {
        Some("/"@)
    } else if name == "Insert"@ {
        Some("INS"@)
    } else if name == "KpReturn"@ {
        Some("ENTER"@)
    } else if name == "KpMinus"@ {
        Some("-"@)
    } else if name == "KpPlus"@ {
        Some("+"@)
    } else if name == "KpMultiply"@ {
        Some("*"@)
    } else if name == "KpDivide"@ {
        Some("/"@)
    } else if name == "Kp0"@ {
        Some("0"@)
    } else if name == "Kp1"@ {
        Some("1"@)
    } else if name == "Kp2"@ {
        Some("2"@)
    } else if name == "Kp3"@ {
        Some("3"@)
    } else if name == "Kp4"@ {
        Some("4"@)
    } else if name == "Kp5"@ {
        Some("5"@)
    } else if name == "Kp6"@ {
        Some("6"@)
    } else if name == "Kp7"@ {
        Some("7"@)
    } else if name == "Kp8"@ {
        Some("8"@)
    } else if name == "Kp9"@ {
        Some("9"@)
    } else if name == "KpDelete"@ {
        Some("DEL"@)
    } else {
        None
    }
}

/// The label shown for a key named `name` by the hook library: its own label
/// when it has one, else the name in upper case.
pub open spec fn hook_label(name: Seq<char>) -> Seq<char> {
    match hook_known(name) {
        Some(l) => l,
        None => upper_of(name),
    }
}

fn hook_known_label(name: &str) -> (r: Option<&'static str>)
    ensures
        match r {
            Some(l) => hook_known(name@) == Some(l@),
            None => hook_known(name@) is None,
        },
{
    if text_is(name, "Alt") {
        Some("ALT")
    } else if text_is(name, "AltGr") {
        Some("ALT GR")
    } else if text_is(name, "Backspace") {
        Some("BKSP")
    } else if text_is(name, "CapsLock") {
        Some("CAPS")
    } else if text_is(name, "ControlLeft") {
        Some("CTRL")
    } else if text_is(name, "ControlRight") {
        Some("CTRL")
    } else if text_is(name, "Delete") {
        Some("DEL")
    } else if text_is(name, "DownArrow") {
        Some("DOWN")
    } else if text_is(name, "End") {
        Some("END")
    } else if text_is(name, "Escape") {
        Some("ESC")
    } else if text_is(name, "F1") {
        Some("F1")
    } else if text_is(name, "F2") {
        Some("F2")
    } else if text_is(name, "F3") {
        Some("F3")
    } else if text_is(name, "F4") {
        Some("F4")
    } else if text_is(name, "F5") {
        Some("F5")
    } else if text_is(name, "F6") {
        Some("F6")
    } else if text_is(name, "F7") {
        Some("F7")
    } else if text_is(name, "F8") {
        Some("F8")
    } else if text_is(name, "F9") {
        Some("F9")
    } else if text_is(name, "F10") {
        Some("F10")
    } else if text_is(name, "F11") {
        Some("F11")
    } else if text_is(name, "F12") {
        Some("F12")
    } else if text_is(name, "Home") {
        Some("HOME")
    } else if text_is(name, "LeftArrow") {
        Some("LEFT")
    } else if text_is(name, "MetaLeft") {
        Some("CMD")
    } else if text_is(name, "MetaRight") {
        Some("CMD")
    } else if text_is(name, "PageDown") {
        Some("PG DN")
    } else if text_is(name, "PageUp") {
        Some("PG UP")
    } else if text_is(name, "Return") {
        Some("ENTER")
    } else if text_is(name, "RightArrow") {
        Some("RIGHT")
    } else if text_is(name, "ShiftLeft") {
        Some("SHIFT")
    } else if text_is(name, "ShiftRight") {
        Some("SHIFT")
    } else if text_is(name, "Space") {
        Some("SPACE")
    } else if text_is(name, "Tab") {
        Some("TAB")
    } else if text_is(name, "UpArrow") {
        Some("UP")
    } else if text_is(name, "PrintScreen") {
        Some("PRINT")
    } else if text_is(name, "ScrollLock") {
        Some("SCROLL")
    } else if text_is(name, "Pause") {
        Some("PAUSE")
    } else if text_is(name, "NumLock") {
        Some("NUM")
    } else if text_is(name, "BackQuote") {
        Some("`")
    } else if text_is(name, "Num1") {
        Some("1")
    } else if text_is(name, "Num2") {
        Some("2")
    } else if text_is(name, "Num3") {
        Some("3")
    } else if text_is(name, "Num4") {
        Some("4")
    } else if text_is(name, "Num5") {
        Some("5")
    } else if text_is(name, "Num6") {
        Some("6")
    } else if text_is(name, "Num7") {
        Some("7")
    } else if text_is(name, "Num8") {
        Some("8")
    } else if text_is(name, "Num9") {
        Some("9")
    } else if text_is(name, "Num0") {
        Some("0")
    } else if text_is(name, "Minus") {
        Some("-")
    } else if text_is(name, "Equal") {
        Some("=")
    } else if text_is(name, "KeyQ") {
        Some("Q")
    } else if text_is(name, "KeyW") {
        Some("W")
    } else if text_is(name, "KeyE") {
        Some("E")
    } else if text_is(name, "KeyR") {
        Some("R")
    } else if text_is(name, "KeyT") {
        Some("T")
    } else if text_is(name, "KeyY") {
        Some("Y")
    } else if text_is(name, "KeyU") {
        Some("U")
    } else if text_is(name, "KeyI") {
        Some("I")
    } else if text_is(name, "KeyO") {
        Some("O")
    } else if text_is(name, "KeyP") {
        Some("P")
    } else if text_is(name, "LeftBracket") {
        Some("[")
    } else if text_is(name, "RightBracket") {
        Some("]")
    } else if text_is(name, "KeyA") {
        Some("A")
    } else if text_is(name, "KeyS") {
        Some("S")
    } else if text_is(name, "KeyD") {
        Some("D")
    } else if text_is(name, "KeyF") {
        Some("F")
    } else if text_is(name, "KeyG") {
        Some("G")
    } else if text_is(name, "KeyH") {
        Some("H")
    } else if text_is(name, "KeyJ") {
        Some("J")
    } else if text_is(name, "KeyK") {
        Some("K")
    } else if text_is(name, "KeyL") {
        Some("L")
    } else if text_is(name, "SemiColon") {
        Some(";")
    } else if text_is(name, "Quote") {
        Some("'")
    } else if text_is(name, "BackSlash") {
        Some("\\")
    } else if text_is(name, "IntlBackslash") {
        Some("\\")
    } else if text_is(name, "KeyZ") {
        Some("Z")
    } else if text_is(name, "KeyX") {
        Some("X")
    } else if text_is(name, "KeyC") {
        Some("C")
    } else if text_is(name, "KeyV") {
        Some("V")
    } else if text_is(name, "KeyB") {
        Some("B")
    } else if text_is(name, "KeyN") {
        Some("N")
    } else if text_is(name, "KeyM") {
        Some("M")
    } else if text_is(name, "Comma") {
        Some(",")
    } else if text_is(name, "Dot") {
        Some(".")
    } else if text_is(name, "Slash") {
        Some("/")
    } else if text_is(name, "Insert") {
        Some("INS")
    } else if text_is(name, "KpReturn") {
        Some("ENTER")
    } else if text_is(name, "KpMinus") {
        Some("-")
    } else if text_is(name, "KpPlus") {
        Some("+")
    } else if text_is(name, "KpMultiply") {
        Some("*")
    } else if text_is(name, "KpDivide") {
        Some("/")
    } else if text_is(name, "Kp0") {
        Some("0")
    } else if text_is(name, "Kp1") {
        Some("1")
    } else if text_is(name, "Kp2") {
        Some("2")
    } else if text_is(name, "Kp3") {
        Some("3")
    } else if text_is(name, "Kp4") {
        Some("4")
    } else if text_is(name, "Kp5") {
        Some("5")
    } else if text_is(name, "Kp6") {
        Some("6")
    } else if text_is(name, "Kp7") {
        Some("7")
    } else if text_is(name, "Kp8") {
        Some("8")
    } else if text_is(name, "Kp9") {
        Some("9")
    } else if text_is(name, "KpDelete") {
        Some("DEL")
    } else {
        None
    }
}

/// The display label of a key that the hook library names `key`, by the
/// name of its enumeration variant (such as "ShiftLeft"). Left and right
/// modifiers, and keypad keys that print the same symbol as a
/// main-row key, share one label; a key without a label of its own is shown
/// as its name in upper case.
pub fn key_to_label(key: &str) -> (r: String)
    ensures
        r@ == hook_label(key@),
{
    match hook_known_label(key) {
        Some(l) => String::from_str(l),
        None => uppercase(key),
    }
}

/// The code under which the hook-based capture tracks the key named `key`:
/// a hash of the name, so the same key always gets the same code.
pub fn key_to_code(key: &str) -> (r: u32)
    ensures
        r == name_hash(key@),
{
    stable_hash(key)
}

/// A mouse button as reported by the hook library.
#[derive(Debug, Clone, Copy, PartialEq, Eq, Structural)]
pub enum MouseButton {
    Left,
    Right,
    Middle,
    Unknown(u8),
}

/// Codes of mouse buttons start here, clear of the keyboard's codes.
pub const MOUSE_BUTTON_BASE: u32 = 0xFFFF_0000;

pub open spec fn button_label(button: MouseButton) -> Seq<char> {
    match button {
        MouseButton::Left => "LMB"@,
        MouseButton::Right => "RMB"@,
        MouseButton::Middle => "MMB"@,
        MouseButton::Unknown(n) => "MB"@ + decimal(n as nat),
    }
}

pub open spec fn button_code(button: MouseButton) -> u32 {
    match button {
        MouseButton::Left => (MOUSE_BUTTON_BASE + 1) as u32,
        MouseButton::Right => (MOUSE_BUTTON_BASE + 2) as u32,
        MouseButton::Middle => (MOUSE_BUTTON_BASE + 3) as u32,
        MouseButton::Unknown(n) => (MOUSE_BUTTON_BASE + 100 + n) as u32,
    }
}

/// The label of a mouse button: "LMB", "RMB", "MMB", or "MB" and its number.
pub fn button_to_label(button: MouseButton) -> (r: String)
    ensures
        r@ == button_label(button),
{
    match button {
        MouseButton::Left => String::from_str("LMB"),
        MouseButton::Right => String::from_str("RMB"),
        MouseButton::Middle => String::from_str("MMB"),
        MouseButton::Unknown(n) => with_number("MB", n as u32),
    }
}

/// The code of a mouse button, above every keyboard code of the hook capture.
pub fn button_to_code(button: MouseButton) -> (r: u32)
    ensures
        r == button_code(button),
        r >= MOUSE_BUTTON_BASE,
{
    match button {
        MouseButton::Left => MOUSE_BUTTON_BASE + 1,
        MouseButton::Right => MOUSE_BUTTON_BASE + 2,
        MouseButton::Middle => MOUSE_BUTTON_BASE + 3,
        MouseButton::Unknown(n) => MOUSE_BUTTON_BASE + 100 + n as u32,
    }
}

// Labels for the tap-based capture, which reports hardware key codes.

/// The label of hardware key code `code`, when the table has one.
pub open spec fn tap_known(code: u16) -> Option<Seq<char>> {
    if code == 0 {
        Some("A"@)
    } else if code == 1 {
        Some("S"@)
    } else if code == 2 {
        Some("D"@)
    } else if code == 3 {
        Some("F"@)
    } else if code == 4 {
        Some("H"@)
    } else if code == 5 {
        Some("G"@)
    } else if code == 6 {
        Some("Z"@)
    } else if code == 7 {
        Some("X"@)
    } else if code == 8 {
        Some("C"@)
    } else if code == 9 {
        Some("V"@)
    } else if code == 11 {
        Some("B"@)
    } else if code == 12 {
        Some("Q"@)
    } else if code == 13 {
        Some("W"@)
    } else if code == 14 {
        Some("E"@)
    } else if code == 15 {
        Some("R"@)
    } else if code == 16 {
        Some("Y"@)
    } else if code == 17 {
        Some("T"@)
    } else if code == 18 {
        Some("1"@)
    } else if code == 19 {
        Some("2"@)
    } else if code == 20 {
        Some("3"@)
    } else if code == 21 {
        Some("4"@)
    } else if code == 22 {
        Some("6"@)
    } else if code == 23 {
        Some("5"@)
    } else if code == 24 {
        Some("="@)
    } else if code == 25 {
        Some("9"@)
    } else if code == 26 {
        Some("7"@)
    } else if code == 27 {
        Some("-"@)
    } else if code == 28 {
        Some("8"@)
    } else if code == 29 {
        Some("0"@)
    } else if code == 30 {
        Some("]"@)
    } else if code == 31 {
        Some("O"@)
    } else if code == 32 {
        Some("U"@)
    } else if code == 33 {
        Some("["@)
    } else if code == 34 {
        Some("I"@)
    } else if code == 35 {
        Some("P"@)
    } else if code == 36 {
        Some("ENTER"@)
    } else if code == 37 {
        Some("L"@)
    } else if code == 38 {
        Some("J"@)
    } else if code == 39 {
        Some("'"@)
    } else if code == 40 {
        Some("K"@)
    } else if code == 41 {
        Some(";"@)
    } else if code == 42 {
        Some("\\"@)
    } else if code == 43 {
        Some(","@)
    } else if code == 44 {
        Some("/"@)
    } else if code == 45 {
        Some("N"@)
    } else if code == 46 {
        Some("M"@)
    } else if code == 47 {
        Some("."@)
    } else if code == 48 {
        Some("TAB"@)
    } else if code == 49 {
        Some("SPACE"@)
    } else if code == 50 {
        Some("`"@)
    } else if code == 51 {
        Some("BKSP"@)
    } else if code == 53 {
        Some("ESC"@)
    } else if code == 55 {
        Some("CMD"@)
    } else if code == 56 {
        Some("SHIFT"@)
    } else if code == 57 {
        Some("CAPS"@)
    } else if code == 58 {
        Some("OPT"@)
    } else if code == 59 {
        Some("CTRL"@)
    } else if code == 60 {
        Some("SHIFT"@)
    } else if code == 61 {
        Some("OPT"@)
    } else if code == 62 {
        Some("CTRL"@)
    } else if code == 63 {
        Some("FN"@)
    } else if code == 64 {
        Some("F17"@)
    } else if code == 65 {
        Some("."@)
    } else if code == 67 {
        Some("*"@)
    } else if code == 69 {
        Some("+"@)
    } else if code == 71 {
        Some("CLEAR"@)
    } else if code == 75 {
        Some("/"@)
    } else if code == 76 {
        Some("ENTER"@)
    } else if code == 78 {
        Some("-"@)
    } else if code == 79 {
        Some("F18"@)
    } else if code == 80 {
        Some("F19"@)
    } else if code == 81 {
        Some("="@)
    } else if code == 82 {
        Some("0"@)
    } else if code == 83 {
        Some("1"@)
    } else if code == 84 {
        Some("2"@)
    } else if code == 85 {
        Some("3"@)
    } else if code == 86 {
        Some("4"@)
    } else if code == 87 {
        Some("5"@)
    } else if code == 88 {
        Some("6"@)
    } else if code == 89 {
        Some("7"@)
    } else if code == 90 {
        Some("F20"@)
    } else if code == 91 {
        Some("8"@)
    } else if code == 92 {
        Some("9"@)
    } else if code == 96 {
        Some("F5"@)
    } else if code == 97 {
        Some("F6"@)
    } else if code == 98 {
        Some("F7"@)
    } else if code == 99 {
        Some("F3"@)
    } else if code == 100 {
        Some("F8"@)
    } else if code == 101 {
        Some("F9"@)
    } else if code == 103 {
        Some("F11"@)
    } else if code == 105 {
        Some("F13"@)
    } else if code == 106 {
        Some("F16"@)
    } else if code == 107 {
        Some("F14"@)
    } else if code == 109 {
        Some("F10"@)
    } else if code == 111 {
        Some("F12"@)
    } else if code == 113 {
        Some("F15"@)
    } else if code == 114 {
        Some("HELP"@)
    } else if code == 115 {
        Some("HOME"@)
    } else if code == 116 {
        Some("PG UP"@)
    } else if code == 117 {
        Some("DEL"@)
    } else if code == 118 {
        Some("F4"@)
    } else if code == 119 {
        Some("END"@)
    } else if code == 120 {
        Some("F2"@)
    } else if code == 121 {
        Some("PG DN"@)
    } else if code == 122 {
        Some("F1"@)
    } else if code == 123 {
        Some("LEFT"@)
    } else if code == 124 {
        Some("RIGHT"@)
    } else if code == 125 {
        Some("DOWN"@)
    } else if code == 126 {
        Some("UP"@)
    } else {
        None
    }
}

/// The label shown for hardware key code `code`: the table's label, else
/// "KEY" and the code in decimal.
pub open spec fn tap_label(code: u16) -> Seq<char> {
    match tap_known(code) {
        Some(l) => l,
        None => "KEY"@ + decimal(code as nat),
    }
}

fn tap_known_label(code: u16) -> (r: Option<&'static str>)
    ensures
        match r {
            Some(l) => tap_known(code) == Some(l@),
            None => tap_known(code) is None,
        },
{
    if code == 0 {
        Some("A")
    } else if code == 1 {
        Some("S")
    } else if code == 2 {
        Some("D")
    } else if code == 3 {
        Some("F")
    } else if code == 4 {
        Some("H")
    } else if code == 5 {
        Some("G")
    } else if code == 6 {
        Some("Z")
    } else if code == 7 {
        Some("X")
    } else if code == 8 {
        Some("C")
    } else if code == 9 {
        Some("V")
    } else if code == 11 {
        Some("B")
    } else if code == 12 {
        Some("Q")
    } else if code == 13 {
        Some("W")
    } else if code == 14 {
        Some("E")
    } else if code == 15 {
        Some("R")
    } else if code == 16 {
        Some("Y")
    } else if code == 17 {
        Some("T")
    } else if code == 18 {
        Some("1")
    } else if code == 19 {
        Some("2")
    } else if code == 20 {
        Some("3")
    } else if code == 21 {
        Some("4")
    } else if code == 22 {
        Some("6")
    } else if code == 23 {
        Some("5")
    } else if code == 24 {
        Some("=")
    } else if code == 25 {
        Some("9")
    } else if code == 26 {
        Some("7")
    } else if code == 27 {
        Some("-")
    } else if code == 28 {
        Some("8")
    } else if code == 29 {
        Some("0")
    } else if code == 30 {
        Some("]")
    } else if code == 31 {
        Some("O")
    } else if code == 32 {
        Some("U")
    } else if code == 33 {
        Some("[")
    } else if code == 34 {
        Some("I")
    } else if code == 35 {
        Some("P")
    } else if code == 36 {
        Some("ENTER")
    } else if code == 37 {
        Some("L")
    } else if code == 38 {
        Some("J")
    } else if code == 39 {
        Some("'")
    } else if code == 40 {
        Some("K")
    } else if code == 41 {
        Some(";")
    } else if code == 42 {
        Some("\\")
    } else if code == 43 {
        Some(",")
    } else if code == 44 {
        Some("/")
    } else if code == 45 {
        Some("N")
    } else if code == 46 {
        Some("M")
    } else if code == 47 {
        Some(".")
    } else if code == 48 {
        Some("TAB")
    } else if code == 49 {
        Some("SPACE")
    } else if code == 50 {
        Some("`")
    } else if code == 51 {
        Some("BKSP")
    } else if code == 53 {
        Some("ESC")
    } else if code == 55 {
        Some("CMD")
    } else if code == 56 {
        Some("SHIFT")
    } else if code == 57 {
        Some("CAPS")
    } else if code == 58 {
        Some("OPT")
    } else if code == 59 {
        Some("CTRL")
    } else if code == 60 {
        Some("SHIFT")
    } else if code == 61 {
        Some("OPT")
    } else if code == 62 {
        Some("CTRL")
    } else if code == 63 {
        Some("FN")
    } else if code == 64 {
        Some("F17")
    } else if code == 65 {
        Some(".")
    } else if code == 67 {
        Some("*")
    } else if code == 69 {
        Some("+")
    } else if code == 71 {
        Some("CLEAR")
    } else if code == 75 {
        Some("/")
    } else if code == 76 {
        Some("ENTER")
    } else if code == 78 {
        Some("-")
    } else if code == 79 {
        Some("F18")
    } else if code == 80 {
        Some("F19")
    } else if code == 81 {
        Some("=")
    } else if code == 82 {
        Some("0")
    } else if code == 83 {
        Some("1")
    } else if code == 84 {
        Some("2")
    } else if code == 85 {
        Some("3")
    } else if code == 86 {
        Some("4")
    } else if code == 87 {
        Some("5")
    } else if code == 88 {
        Some("6")
    } else if code == 89 {
        Some("7")
    } else if code == 90 {
        Some("F20")
    } else if code == 91 {
        Some("8")
    } else if code == 92 {
        Some("9")
    } else if code == 96 {
        Some("F5")
    } else if code == 97 {
        Some("F6")
    } else if code == 98 {
        Some("F7")
    } else if code == 99 {
        Some("F3")
    } else if code == 100 {
        Some("F8")
    } else if code == 101 {
        Some("F9")
    } else if code == 103 {
        Some("F11")
    } else if code == 105 {
        Some("F13")
    } else if code == 106 {
        Some("F16")
    } else if code == 107 {
        Some("F14")
    } else if code == 109 {
        Some("F10")
    } else if code == 111 {
        Some("F12")
    } else if code == 113 {
        Some("F15")
    } else if code == 114 {
        Some("HELP")
    } else if code == 115 {
        Some("HOME")
    } else if code == 116 {
        Some("PG UP")
    } else if code == 117 {
        Some("DEL")
    } else if code == 118 {
        Some("F4")
    } else if code == 119 {
        Some("END")
    } else if code == 120 {
        Some("F2")
    } else if code == 121 {
        Some("PG DN")
    } else if code == 122 {
        Some("F1")
    } else if code == 123 {
        Some("LEFT")
    } else if code == 124 {
        Some("RIGHT")
    } else if code == 125 {
        Some("DOWN")
    } else if code == 126 {
        Some("UP")
    } else {
        None
    }
}

/// The display label of hardware key code `keycode`. Left and right
/// modifiers, and keypad keys that print the same symbol as a main-row key,
/// share one label; an unlisted code is shown as "KEY" and its number.
pub fn keycode_to_label(keycode: u16) -> (r: String)
    ensures
        r@ == tap_label(keycode),
{
    match tap_known_label(keycode) {
        Some(l) => String::from_str(l),
        None => with_number("KEY", keycode as u32),
    }
}

// The polling capture's monitored key set: each entry is a virtual-key code
// and its label. Keys outside this set are not reported by that capture.

/// How many keys the polling capture monitors.
pub const MONITORED_KEY_COUNT: usize = 101;

/// Entry `i` of the monitored key set.
pub open spec fn monitored(i: int) -> (i32, Seq<char>) {
    if i == 0 {
        (0x41, "A"@)
    } else if i == 1 {
        (0x42, "B"@)
    } else if i == 2 {
        (0x43, "C"@)
    } else if i == 3 {
        (0x44, "D"@)
    } else if i == 4 {
        (0x45, "E"@)
    } else if i == 5 {
        (0x46, "F"@)
    } else if i == 6 {
        (0x47, "G"@)
    } else if i == 7 {
        (0x48, "H"@)
    } else if i == 8 {
        (0x49, "I"@)
    } else if i == 9 {
        (0x4A, "J"@)
    } else if i == 10 {
        (0x4B, "K"@)
    } else if i == 11 {
        (0x4C, "L"@)
    } else if i == 12 {
        (0x4D, "M"@)
    } else if i == 13 {
        (0x4E, "N"@)
    } else if i == 14 {
        (0x4F, "O"@)
    } else if i == 15 {
        (0x50, "P"@)
    } else if i == 16 {
        (0x51, "Q"@)
    } else if i == 17 {
        (0x52, "R"@)
    } else if i == 18 {
        (0x53, "S"@)
    } else if i == 19 {
        (0x54, "T"@)
    } else if i == 20 {
        (0x55, "U"@)
    } else if i == 21 {
        (0x56, "V"@)
    } else if i == 22 {
        (0x57, "W"@)
    } else if i == 23 {
        (0x58, "X"@)
    } else if i == 24 {
        (0x59, "Y"@)
    } else if i == 25 {
        (0x5A, "Z"@)
    } else if i == 26 {
        (0x30, "0"@)
    } else if i == 27 {
        (0x31, "1"@)
    } else if i == 28 {
        (0x32, "2"@)
    } else if i == 29 {
        (0x33, "3"@)
    } else if i == 30 {
        (0x34, "4"@)
    } else if i == 31 {
        (0x35, "5"@)
    } else if i == 32 {
        (0x36, "6"@)
    } else if i == 33 {
        (0x37, "7"@)
    } else if i == 34 {
        (0x38, "8"@)
    } else if i == 35 {
        (0x39, "9"@)
    } else if i == 36 {
        (0x20, "SPACE"@)
    } else if i == 37 {
        (0x0D, "ENTER"@)
    } else if i == 38 {
        (0x09, "TAB"@)
    } else if i == 39 {
        (0x1B, "ESC"@)
    } else if i == 40 {
        (0x08, "BKSP"@)
    } else if i == 41 {
        (0x2E, "DEL"@)
    } else if i == 42 {
        (0x2D, "INS"@)
    } else if i == 43 {
        (0x24, "HOME"@)
    } else if i == 44 {
        (0x23, "END"@)
    } else if i == 45 {
        (0x21, "PG UP"@)
    } else if i == 46 {
        (0x22, "PG DN"@)
    } else if i == 47 {
        (0xA0, "SHIFT"@)
    } else if i == 48 {
        (0xA1, "SHIFT"@)
    } else if i == 49 {
        (0xA2, "CTRL"@)
    } else if i == 50 {
        (0xA3, "CTRL"@)
    } else if i == 51 {
        (0xA4, "ALT"@)
    } else if i == 52 {
        (0xA5, "ALT"@)
    } else if i == 53 {
        (0x14, "CAPS"@)
    } else if i == 54 {
        (0x5B, "WIN"@)
    } else if i == 55 {
        (0x5C, "WIN"@)
    } else if i == 56 {
        (0x25, "LEFT"@)
    } else if i == 57 {
        (0x26, "UP"@)
    } else if i == 58 {
        (0x27, "RIGHT"@)
    } else if i == 59 {
        (0x28, "DOWN"@)
    } else if i == 60 {
        (0x70, "F1"@)
    } else if i == 61 {
        (0x71, "F2"@)
    } else if i == 62 {
        (0x72, "F3"@)
    } else if i == 63 {
        (0x73, "F4"@)
    } else if i == 64 {
        (0x74, "F5"@)
    } else if i == 65 {
        (0x75, "F6"@)
    } else if i == 66 {
        (0x76, "F7"@)
    } else if i == 67 {
        (0x77, "F8"@)
    } else if i == 68 {
        (0x78, "F9"@)
    } else if i == 69 {
        (0x79, "F10"@)
    } else if i == 70 {
        (0x7A, "F11"@)
    } else if i == 71 {
        (0x7B, "F12"@)
    } else if i == 72 {
        (0x01, "LMB"@)
    } else if i == 73 {
        (0x02, "RMB"@)
    } else if i == 74 {
        (0x04, "MMB"@)
    } else if i == 75 {
        (0xC0, "`"@)
    } else if i == 76 {
        (0xBD, "-"@)
    } else if i == 77 {
        (0xBB, "="@)
    } else if i == 78 {
        (0xDB, "["@)
    } else if i == 79 {
        (0xDD, "]"@)
    } else if i == 80 {
        (0xDC, "\\"@)
    } else if i == 81 {
        (0xBA, ";"@)
    } else if i == 82 {
        (0xDE, "'"@)
    } else if i == 83 {
        (0xBC, ","@)
    } else if i == 84 {
        (0xBE, "."@)
    } else if i == 85 {
        (0xBF, "/"@)
    } else if i == 86 {
        (0x60, "NUM0"@)
    } else if i == 87 {
        (0x61, "NUM1"@)
    } else if i == 88 {
        (0x62, "NUM2"@)
    } else if i == 89 {
        (0x63, "NUM3"@)
    } else if i == 90 {
        (0x64, "NUM4"@)
    } else if i == 91 {
        (0x65, "NUM5"@)
    } else if i == 92 {
        (0x66, "NUM6"@)
    } else if i == 93 {
        (0x67, "NUM7"@)
    } else if i == 94 {
        (0x68, "NUM8"@)
    } else if i == 95 {
        (0x69, "NUM9"@)
    } else if i == 96 {
        (0x6A, "*"@)
    } else if i == 97 {
        (0x6B, "+"@)
    } else if i == 98 {
        (0x6D, "-"@)
    } else if i == 99 {
        (0x6E, "."@)
    } else if i == 100 {
        (0x6F, "/"@)
    } else {
        (0, Seq::empty())
    }
}

/// Entry `i` of the monitored key set: a virtual-key code and its label.
pub fn monitored_key(i: usize) -> (r: (i32, &'static str))
    requires
        i < MONITORED_KEY_COUNT,
    ensures
        r.0 == monitored(i as int).0,
        r.1@ == monitored(i as int).1,
        0 < r.0 < 0x100,
{
    if i == 0 {
        (0x41, "A")
    } else if i == 1 {
        (0x42, "B")
    } else if i == 2 {
        (0x43, "C")
    } else if i == 3 {
        (0x44, "D")
    } else if i == 4 {
        (0x45, "E")
    } else if i == 5 {
        (0x46, "F")
    } else if i == 6 {
        (0x47, "G")
    } else if i == 7 {
        (0x48, "H")
    } else if i == 8 {
        (0x49, "I")
    } else if i == 9 {
        (0x4A, "J")
    } else if i == 10 {
        (0x4B, "K")
    } else if i == 11 {
        (0x4C, "L")
    } else if i == 12 {
        (0x4D, "M")
    } else if i == 13 {
        (0x4E, "N")
    } else if i == 14 {
        (0x4F, "O")
    } else if i == 15 {
        (0x50, "P")
    } else if i == 16 {
        (0x51, "Q")
    } else if i == 17 {
        (0x52, "R")
    } else if i == 18 {
        (0x53, "S")
    } else if i == 19 {
        (0x54, "T")
    } else if i == 20 {
        (0x55, "U")
    } else if i == 21 {
        (0x56, "V")
    } else if i == 22 {
        (0x57, "W")
    } else if i == 23 {
        (0x58, "X")
    } else if i == 24 {
        (0x59, "Y")
    } else if i == 25 {
        (0x5A, "Z")
    } else if i == 26 {
        (0x30, "0")
    } else if i == 27 {
        (0x31, "1")
    } else if i == 28 {
        (0x32, "2")
    } else if i == 29 {
        (0x33, "3")
    } else if i == 30 {
        (0x34, "4")
    } else if i == 31 {
        (0x35, "5")
    } else if i == 32 {
        (0x36, "6")
    } else if i == 33 {
        (0x37, "7")
    } else if i == 34 {
        (0x38, "8")
    } else if i == 35 {
        (0x39, "9")
    } else if i == 36 {
        (0x20, "SPACE")
    } else if i == 37 {
        (0x0D, "ENTER")
    } else if i == 38 {
        (0x09, "TAB")
    } else if i == 39 {
        (0x1B, "ESC")
    } else if i == 40 {
        (0x08, "BKSP")
    } else if i == 41 {
        (0x2E, "DEL")
    } else if i == 42 {
        (0x2D, "INS")
    } else if i == 43 {
        (0x24, "HOME")
    } else if i == 44 {
        (0x23, "END")
    } else if i == 45 {
        (0x21, "PG UP")
    } else if i == 46 {
        (0x22, "PG DN")
    } else if i == 47 {
        (0xA0, "SHIFT")
    } else if i == 48 {
        (0xA1, "SHIFT")
    } else if i == 49 {
        (0xA2, "CTRL")
    } else if i == 50 {
        (0xA3, "CTRL")
    } else if i == 51 {
        (0xA4, "ALT")
    } else if i == 52 {
        (0xA5, "ALT")
    } else if i == 53 {
        (0x14, "CAPS")
    } else if i == 54 {
        (0x5B, "WIN")
    } else if i == 55 {
        (0x5C, "WIN")
    } else if i == 56 {
        (0x25, "LEFT")
    } else if i == 57 {
        (0x26, "UP")
    } else if i == 58 {
        (0x27, "RIGHT")
    } else if i == 59 {
        (0x28, "DOWN")
    } else if i == 60 {
        (0x70, "F1")
    } else if i == 61 {
        (0x71, "F2")
    } else if i == 62 {
        (0x72, "F3")
    } else if i == 63 {
        (0x73, "F4")
    } else if i == 64 {
        (0x74, "F5")
    } else if i == 65 {
        (0x75, "F6")
    } else if i == 66 {
        (0x76, "F7")
    } else if i == 67 {
        (0x77, "F8")
    } else if i == 68 {
        (0x78, "F9")
    } else if i == 69 {
        (0x79, "F10")
    } else if i == 70 {
        (0x7A, "F11")
    } else if i == 71 {
        (0x7B, "F12")
    } else if i == 72 {
        (0x01, "LMB")
    } else if i == 73 {
        (0x02, "RMB")
    } else if i == 74 {
        (0x04, "MMB")
    } else if i == 75 {
        (0xC0, "`")
    } else if i == 76 {
        (0xBD, "-")
    } else if i == 77 {
        (0xBB, "=")
    } else if i == 78 {
        (0xDB, "[")
    } else if i == 79 {
        (0xDD, "]")
    } else if i == 80 {
        (0xDC, "\\")
    } else if i == 81 {
        (0xBA, ";")
    } else if i == 82 {
        (0xDE, "'")
    } else if i == 83 {
        (0xBC, ",")
    } else if i == 84 {
        (0xBE, ".")
    } else if i == 85 {
        (0xBF, "/")
    } else if i == 86 {
        (0x60, "NUM0")
    } else if i == 87 {
        (0x61, "NUM1")
    } else if i == 88 {
        (0x62, "NUM2")
    } else if i == 89 {
        (0x63, "NUM3")
    } else if i == 90 {
        (0x64, "NUM4")
    } else if i == 91 {
        (0x65, "NUM5")
    } else if i == 92 {
        (0x66, "NUM6")
    } else if i == 93 {
        (0x67, "NUM7")
    } else if i == 94 {
        (0x68, "NUM8")
    } else if i == 95 {
        (0x69, "NUM9")
    } else if i == 96 {
        (0x6A, "*")
    } else if i == 97 {
        (0x6B, "+")
    } else if i == 98 {
        (0x6D, "-")
    } else if i == 99 {
        (0x6E, ".")
    } else {
        (0x6F, "/")
    }
}

/// The code under which the polling capture tracks virtual key `vk`: the
/// key code with the high bit set, clear of every other capture's codes.
pub open spec fn polling_code(vk: i32) -> u32 {
    (vk + 0x8000_0000) as u32
}

} // verus!
