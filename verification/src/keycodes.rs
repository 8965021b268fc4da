//! The fixed key-name and modifier-alias tables of the codec: names to USB
//! HID keyboard usage codes and back, and modifier aliases to bitmask bits.

use vstd::prelude::*;

use crate::text::{lower_char, spec_lower, spec_lower_char, token_matches};

verus! {

pub const MOD_LEFT_CTRL: u8 = 0x01;
pub const MOD_LEFT_SHIFT: u8 = 0x02;
pub const MOD_LEFT_ALT: u8 = 0x04;
pub const MOD_LEFT_GUI: u8 = 0x08;
pub const MOD_RIGHT_CTRL: u8 = 0x10;
pub const MOD_RIGHT_SHIFT: u8 = 0x20;
pub const MOD_RIGHT_ALT: u8 = 0x40;
pub const MOD_RIGHT_GUI: u8 = 0x80;

/// The usage codes that the name table knows: letters, digits, the named
/// editing and navigation keys, punctuation, and the function keys.
pub open spec fn is_supported_key(code: u8) -> bool {
    (0x04 <= code && code <= 0x31) || (0x33 <= code && code <= 0x45) || (0x4F <= code && code
        <= 0x52)
}

/// The usage code a lowercased key token resolves to, if any.
pub open spec fn spec_key_code(s: Seq<char>) -> Option<u8> {
    if s.len() == 1 {
        let c = s[0];
        if 'a' <= c && c <= 'z' {
            Some((c as u8 - 93) as u8)
        } else if '1' <= c && c <= '9' {
            Some((c as u8 - 19) as u8)
        } else if c == '0' {
            Some(0x27)
        } else if c == '-' {
            Some(0x2D)
        } else if c == '=' {
            Some(0x2E)
        } else if c == '[' {
            Some(0x2F)
        } else if c == ']' {
            Some(0x30)
        } else if c == '\\' {
            Some(0x31)
        } else if c == ';' {
            Some(0x33)
        } else if c == '\'' {
            Some(0x34)
        } else if c == '`' {
            Some(0x35)
        } else if c == ',' {
            Some(0x36)
        } else if c == '.' {
            Some(0x37)
        } else if c == '/' {
            Some(0x38)
        } else {
            None
        }
    } else if s.len() == 2 && s[0] == 'f' && '1' <= s[1] && s[1] <= '9' {
        Some((s[1] as u8 + 9) as u8)
    } else if s.len() == 3 && s[0] == 'f' && s[1] == '1' && '0' <= s[2] && s[2] <= '2' {
        Some((s[2] as u8 + 19) as u8)
    } else if s == "enter"@ {
        Some(0x28)
    } else if s == "return"@ {
        Some(0x28)
    } else if s == "esc"@ {
        Some(0x29)
    } else if s == "escape"@ {
        Some(0x29)
    } else if s == "backspace"@ {
        Some(0x2A)
    } else if s == "tab"@ {
        Some(0x2B)
    } else if s == "space"@ {
        Some(0x2C)
    } else if s == "left"@ {
        Some(0x50)
    } else if s == "right"@ {
        Some(0x4F)
    } else if s == "up"@ {
        Some(0x52)
    } else if s == "down"@ {
        Some(0x51)
    } else if s == "minus"@ {
        Some(0x2D)
    } else if s == "equal"@ {
        Some(0x2E)
    } else if s == "leftbracket"@ {
        Some(0x2F)
    } else if s == "rightbracket"@ {
        Some(0x30)
    } else if s == "backslash"@ {
        Some(0x31)
    } else if s == "semicolon"@ {
        Some(0x33)
    } else if s == "quote"@ {
        Some(0x34)
    } else if s == "grave"@ {
        Some(0x35)
    } else if s == "comma"@ {
        Some(0x36)
    } else if s == "period"@ {
        Some(0x37)
    } else if s == "slash"@ {
        Some(0x38)
    } else if s == "capslock"@ {
        Some(0x39)
    } else {
        None
    }
}

/// The modifier bit a lowercased modifier token names, if any.
pub open spec fn spec_modifier_mask(s: Seq<char>) -> Option<u8> {
    if s == "cmd"@ || s == "command"@ || s == "gui"@ || s == "meta"@ || s == "super"@ {
        Some(MOD_LEFT_GUI)
    } else if s == "ctrl"@ || s == "control"@ {
        Some(MOD_LEFT_CTRL)
    } else if s == "shift"@ {
        Some(MOD_LEFT_SHIFT)
    } else if s == "alt"@ || s == "option"@ || s == "opt"@ {
        Some(MOD_LEFT_ALT)
    } else {
        None
    }
}

/// The display name of a keyboard usage code. Code 0 names the empty slot
/// of a boot-keyboard report; codes outside the table give "Unknown".
pub open spec fn spec_key_name(code: u8) -> Seq<char> {
    if code == 0x00 {
        "None"@
    } else if code == 0x04 {
        "A"@
    } else if code == 0x05 {
        "B"@
    } else if code == 0x06 {
        "C"@
    } else if code == 0x07 {
        "D"@
    } else if code == 0x08 {
        "E"@
    } else if code == 0x09 {
        "F"@
    } else if code == 0x0A {
        "G"@
    } else if code == 0x0B {
        "H"@
    } else if code == 0x0C {
        "I"@
    } else if code == 0x0D {
        "J"@
    } else if code == 0x0E {
        "K"@
    } else if code == 0x0F {
        "L"@
    } else if code == 0x10 {
        "M"@
    } else if code == 0x11 {
        "N"@
    } else if code == 0x12 {
        "O"@
    } else if code == 0x13 {
        "P"@
    } else if code == 0x14 {
        "Q"@
    } else if code == 0x15 {
        "R"@
    } else if code == 0x16 {
        "S"@
    } else if code == 0x17 {
        "T"@
    } else if code == 0x18 {
        "U"@
    } else if code == 0x19 {
        "V"@
    } else if code == 0x1A {
        "W"@
    } else if code == 0x1B {
        "X"@
    } else if code == 0x1C {
        "Y"@
    } else if code == 0x1D {
        "Z"@
    } else if code == 0x1E {
        "1"@
    } else if code == 0x1F {
        "2"@
    } else if code == 0x20 {
        "3"@
    } else if code == 0x21 {
        "4"@
    } else if code == 0x22 {
        "5"@
    } else if code == 0x23 {
        "6"@
    } else if code == 0x24 {
        "7"@
    } else if code == 0x25 {
        "8"@
    } else if code == 0x26 {
        "9"@
    } else if code == 0x27 {
        "0"@
    } else if code == 0x28 {
        "Enter"@
    } else if code == 0x29 {
        "Escape"@
    } else if code == 0x2A {
        "Backspace"@
    } else if code == 0x2B {
        "Tab"@
    } else if code == 0x2C {
        "Space"@
    } else if code == 0x2D {
        "Minus"@
    } else if code == 0x2E {
        "Equal"@
    } else if code == 0x2F {
        "LeftBracket"@
    } else if code == 0x30 {
        "RightBracket"@
    } else if code == 0x31 {
        "Backslash"@
    } else if code == 0x33 {
        "Semicolon"@
    } else if code == 0x34 {
        "Quote"@
    } else if code == 0x35 {
        "Grave"@
    } else if code == 0x36 {
        "Comma"@
    } else if code == 0x37 {
        "Period"@
    } else if code == 0x38 {
        "Slash"@
    } else if code == 0x39 {
        "CapsLock"@
    } else if code == 0x3A {
        "F1"@
    } else if code == 0x3B {
        "F2"@
    } else if code == 0x3C {
        "F3"@
    } else if code == 0x3D {
        "F4"@
    } else if code == 0x3E {
        "F5"@
    } else if code == 0x3F {
        "F6"@
    } else if code == 0x40 {
        "F7"@
    } else if code == 0x41 {
        "F8"@
    } else if code == 0x42 {
        "F9"@
    } else if code == 0x43 {
        "F10"@
    } else if code == 0x44 {
        "F11"@
    } else if code == 0x45 {
        "F12"@
    } else if code == 0x4F {
        "Right"@
    } else if code == 0x50 {
        "Left"@
    } else if code == 0x51 {
        "Down"@
    } else if code == 0x52 {
        "Up"@
    } else {
        "Unknown"@
    }
}

/// The display name of a keyboard usage code; other codes give "Unknown".
pub fn key_name(code: u8) -> (r: &'static str)
    ensures
        r@ == spec_key_name(code),
{
    match code {
        0x00 => "None",
        0x04 => "A",
        0x05 => "B",
        0x06 => "C",
        0x07 => "D",
        0x08 => "E",
        0x09 => "F",
        0x0A => "G",
        0x0B => "H",
        0x0C => "I",
        0x0D => "J",
        0x0E => "K",
        0x0F => "L",
        0x10 => "M",
        0x11 => "N",
        0x12 => "O",
        0x13 => "P",
        0x14 => "Q",
        0x15 => "R",
        0x16 => "S",
        0x17 => "T",
        0x18 => "U",
        0x19 => "V",
        0x1A => "W",
        0x1B => "X",
        0x1C => "Y",
        0x1D => "Z",
        0x1E => "1",
        0x1F => "2",
        0x20 => "3",
        0x21 => "4",
        0x22 => "5",
        0x23 => "6",
        0x24 => "7",
        0x25 => "8",
        0x26 => "9",
        0x27 => "0",
        0x28 => "Enter",
        0x29 => "Escape",
        0x2A => "Backspace",
        0x2B => "Tab",
        0x2C => "Space",
        0x2D => "Minus",
        0x2E => "Equal",
        0x2F => "LeftBracket",
        0x30 => "RightBracket",
        0x31 => "Backslash",
        0x33 => "Semicolon",
        0x34 => "Quote",
        0x35 => "Grave",
        0x36 => "Comma",
        0x37 => "Period",
        0x38 => "Slash",
        0x39 => "CapsLock",
        0x3A => "F1",
        0x3B => "F2",
        0x3C => "F3",
        0x3D => "F4",
        0x3E => "F5",
        0x3F => "F6",
        0x40 => "F7",
        0x41 => "F8",
        0x42 => "F9",
        0x43 => "F10",
        0x44 => "F11",
        0x45 => "F12",
        0x4F => "Right",
        0x50 => "Left",
        0x51 => "Down",
        0x52 => "Up",
        _ => "Unknown",
    }
}

/// Resolves the lowercased token `[from, to)` of `chars` through the key table.
pub fn key_code_of(chars: &Vec<char>, from: usize, to: usize) -> (r: Option<u8>)
    requires
        from <= to <= chars@.len(),
    ensures
        r == spec_key_code(spec_lower(chars@.subrange(from as int, to as int))),
{
    let ghost tok = spec_lower(chars@.subrange(from as int, to as int));
    proof {
        assert(tok.len() == to - from);
    }
    if to - from == 1 {
        let c = lower_char(chars[from]);
        proof {
            assert(tok[0] == spec_lower_char(chars@.subrange(from as int, to as int)[0]));
            assert(tok[0] == c);
        }
        if 'a' <= c && c <= 'z' {
            return Some(c as u8 - 93);
        }
        if '1' <= c && c <= '9' {
            return Some(c as u8 - 19);
        }
        return match c {
            '0' => Some(0x27),
            '-' => Some(0x2D),
            '=' => Some(0x2E),
            '[' => Some(0x2F),
            ']' => Some(0x30),
            '\\' => Some(0x31),
            ';' => Some(0x33),
            '\'' => Some(0x34),
            '`' => Some(0x35),
            ',' => Some(0x36),
            '.' => Some(0x37),
            '/' => Some(0x38),
            _ => None,
        };
    }
    if to - from == 2 {
        let c0 = lower_char(chars[from]);
        let c1 = lower_char(chars[from + 1]);
        proof {
            assert(tok[0] == spec_lower_char(chars@.subrange(from as int, to as int)[0]));
            assert(tok[1] == spec_lower_char(chars@.subrange(from as int, to as int)[1]));
        }
        if c0 == 'f' && '1' <= c1 && c1 <= '9' {
            return Some(c1 as u8 + 9);
        }
    }
    if to - from == 3 {
        let c0 = lower_char(chars[from]);
        let c1 = lower_char(chars[from + 1]);
        let c2 = lower_char(chars[from + 2]);
        proof {
            assert(tok[0] == spec_lower_char(chars@.subrange(from as int, to as int)[0]));
            assert(tok[1] == spec_lower_char(chars@.subrange(from as int, to as int)[1]));
            assert(tok[2] == spec_lower_char(chars@.subrange(from as int, to as int)[2]));
        }
        if c0 == 'f' && c1 == '1' && '0' <= c2 && c2 <= '2' {
            return Some(c2 as u8 + 19);
        }
    }
    if token_matches(chars, from, to, "enter") {
        return Some(0x28);
    }
    if token_matches(chars, from, to, "return") {
        return Some(0x28);
    }
    if token_matches(chars, from, to, "esc") {
        return Some(0x29);
    }
    if token_matches(chars, from, to, "escape") {
        return Some(0x29);
    }
    if token_matches(chars, from, to, "backspace") {
        return Some(0x2A);
    }
    if token_matches(chars, from, to, "tab") {
        return Some(0x2B);
    }
    if token_matches(chars, from, to, "space") {
        return Some(0x2C);
    }
    if token_matches(chars, from, to, "left") {
        return Some(0x50);
    }
    if token_matches(chars, from, to, "right") {
        return Some(0x4F);
    }
    if token_matches(chars, from, to, "up") {
        return Some(0x52);
    }
    if token_matches(chars, from, to, "down") {
        return Some(0x51);
    }
    if token_matches(chars, from, to, "minus") {
        return Some(0x2D);
    }
    if token_matches(chars, from, to, "equal") {
        return Some(0x2E);
    }
    if token_matches(chars, from, to, "leftbracket") {
        return Some(0x2F);
    }
    if token_matches(chars, from, to, "rightbracket") {
        return Some(0x30);
    }
    if token_matches(chars, from, to, "backslash") {
        return Some(0x31);
    }
    if token_matches(chars, from, to, "semicolon") {
        return Some(0x33);
    }
    if token_matches(chars, from, to, "quote") {
        return Some(0x34);
    }
    if token_matches(chars, from, to, "grave") {
        return Some(0x35);
    }
    if token_matches(chars, from, to, "comma") {
        return Some(0x36);
    }
    if token_matches(chars, from, to, "period") {
        return Some(0x37);
    }
    if token_matches(chars, from, to, "slash") {
        return Some(0x38);
    }
    if token_matches(chars, from, to, "capslock") {
        return Some(0x39);
    }
    None
}

/// Resolves a key name (case-insensitive) to its usage code.
pub fn parse_key_name(name: &str) -> (r: Option<u8>)
    ensures
        r == spec_key_code(spec_lower(name@)),
{
    let chars = crate::text::chars_of(name);
    let n = chars.len();
    let r = key_code_of(&chars, 0, n);
    proof {
        assert(chars@.subrange(0, n as int) =~= name@);
    }
    r
}

/// Resolves the lowercased token `[from, to)` of `chars` through the
/// modifier-alias table.
pub fn modifier_mask_of(chars: &Vec<char>, from: usize, to: usize) -> (r: Option<u8>)
    requires
        from <= to <= chars@.len(),
    ensures
        r == spec_modifier_mask(spec_lower(chars@.subrange(from as int, to as int))),
{
    if token_matches(chars, from, to, "cmd") {
        return Some(0x08);
    }
    if token_matches(chars, from, to, "command") {
        return Some(0x08);
    }
    if token_matches(chars, from, to, "gui") {
        return Some(0x08);
    }
    if token_matches(chars, from, to, "meta") {
        return Some(0x08);
    }
    if token_matches(chars, from, to, "super") {
        return Some(0x08);
    }
    if token_matches(chars, from, to, "ctrl") {
        return Some(0x01);
    }
    if token_matches(chars, from, to, "control") {
        return Some(0x01);
    }
    if token_matches(chars, from, to, "shift") {
        return Some(0x02);
    }
    if token_matches(chars, from, to, "alt") {
        return Some(0x04);
    }
    if token_matches(chars, from, to, "option") {
        return Some(0x04);
    }
    if token_matches(chars, from, to, "opt") {
        return Some(0x04);
    }
    None
}

/// The names of the modifier bits set in `mods`, in report-bit order.
pub open spec fn spec_modifier_names(mods: u8) -> Seq<Seq<char>> {
    let r = Seq::<Seq<char>>::empty();
    let r = if mods & MOD_LEFT_CTRL != 0 { r.push("LCtrl"@) } else { r };
    let r = if mods & MOD_LEFT_SHIFT != 0 { r.push("LShift"@) } else { r };
    let r = if mods & MOD_LEFT_ALT != 0 { r.push("LAlt"@) } else { r };
    let r = if mods & MOD_LEFT_GUI != 0 { r.push("LCmd"@) } else { r };
    let r = if mods & MOD_RIGHT_CTRL != 0 { r.push("RCtrl"@) } else { r };
    let r = if mods & MOD_RIGHT_SHIFT != 0 { r.push("RShift"@) } else { r };
    let r = if mods & MOD_RIGHT_ALT != 0 { r.push("RAlt"@) } else { r };
    let r = if mods & MOD_RIGHT_GUI != 0 { r.push("RCmd"@) } else { r };
    r
}

/// Names the modifier bits set in `mods`, in report-bit order.
pub fn modifier_names(mods: u8) -> (r: Vec<&'static str>)
    ensures
        r@.map_values(|t: &'static str| t@) =~= spec_modifier_names(mods),
{
    let mut r: Vec<&'static str> = Vec::new();
    if mods & MOD_LEFT_CTRL != 0 {
        r.push("LCtrl");
    }
    if mods & MOD_LEFT_SHIFT != 0 {
        r.push("LShift");
    }
    if mods & MOD_LEFT_ALT != 0 {
        r.push("LAlt");
    }
    if mods & MOD_LEFT_GUI != 0 {
        r.push("LCmd");
    }
    if mods & MOD_RIGHT_CTRL != 0 {
        r.push("RCtrl");
    }
    if mods & MOD_RIGHT_SHIFT != 0 {
        r.push("RShift");
    }
    if mods & MOD_RIGHT_ALT != 0 {
        r.push("RAlt");
    }
    if mods & MOD_RIGHT_GUI != 0 {
        r.push("RCmd");
    }
    r
}

#[verifier::rlimit(50)]
proof fn lemma_round_trip_letter(code: u8)
    requires
        0x04 <= code <= 0x1D,
    ensures
        spec_key_code(spec_lower(spec_key_name(code))) == Some(code),
{
    if code == 0x04 {
        reveal_strlit("A");
        assert(spec_lower(spec_key_name(0x04)) =~= seq!['a']);
        assert(spec_key_code(spec_lower(spec_key_name(0x04))) == Some(0x04u8));
    } else if code == 0x05 {
        reveal_strlit("B");
        assert(spec_lower(spec_key_name(0x05)) =~= seq!['b']);
        assert(spec_key_code(spec_lower(spec_key_name(0x05))) == Some(0x05u8));
    } else if code == 0x06 {
        reveal_strlit("C");
        assert(spec_lower(spec_key_name(0x06)) =~= seq!['c']);
        assert(spec_key_code(spec_lower(spec_key_name(0x06))) == Some(0x06u8));
    } else if code == 0x07 {
        reveal_strlit("D");
        assert(spec_lower(spec_key_name(0x07)) =~= seq!['d']);
        assert(spec_key_code(spec_lower(spec_key_name(0x07))) == Some(0x07u8));
    } else if code == 0x08 {
        reveal_strlit("E");
        assert(spec_lower(spec_key_name(0x08)) =~= seq!['e']);
        assert(spec_key_code(spec_lower(spec_key_name(0x08))) == Some(0x08u8));
    } else if code == 0x09 {
        reveal_strlit("F");
        assert(spec_lower(spec_key_name(0x09)) =~= seq!['f']);
        assert(spec_key_code(spec_lower(spec_key_name(0x09))) == Some(0x09u8));
    } else if code == 0x0A {
        reveal_strlit("G");
        assert(spec_lower(spec_key_name(0x0A)) =~= seq!['g']);
        assert(spec_key_code(spec_lower(spec_key_name(0x0A))) == Some(0x0Au8));
    } else if code == 0x0B {
        reveal_strlit("H");
        assert(spec_lower(spec_key_name(0x0B)) =~= seq!['h']);
        assert(spec_key_code(spec_lower(spec_key_name(0x0B))) == Some(0x0Bu8));
    } else if code == 0x0C {
        reveal_strlit("I");
        assert(spec_lower(spec_key_name(0x0C)) =~= seq!['i']);
        assert(spec_key_code(spec_lower(spec_key_name(0x0C))) == Some(0x0Cu8));
    } else if code == 0x0D {
        reveal_strlit("J");
        assert(spec_lower(spec_key_name(0x0D)) =~= seq!['j']);
        assert(spec_key_code(spec_lower(spec_key_name(0x0D))) == Some(0x0Du8));
    } else if code == 0x0E {
        reveal_strlit("K");
        assert(spec_lower(spec_key_name(0x0E)) =~= seq!['k']);
        assert(spec_key_code(spec_lower(spec_key_name(0x0E))) == Some(0x0Eu8));
    } else if code == 0x0F {
        reveal_strlit("L");
        assert(spec_lower(spec_key_name(0x0F)) =~= seq!['l']);
        assert(spec_key_code(spec_lower(spec_key_name(0x0F))) == Some(0x0Fu8));
    } else if code == 0x10 {
        reveal_strlit("M");
        assert(spec_lower(spec_key_name(0x10)) =~= seq!['m']);
        assert(spec_key_code(spec_lower(spec_key_name(0x10))) == Some(0x10u8));
    } else if code == 0x11 {
        reveal_strlit("N");
        assert(spec_lower(spec_key_name(0x11)) =~= seq!['n']);
        assert(spec_key_code(spec_lower(spec_key_name(0x11))) == Some(0x11u8));
    } else if code == 0x12 {
        reveal_strlit("O");
        assert(spec_lower(spec_key_name(0x12)) =~= seq!['o']);
        assert(spec_key_code(spec_lower(spec_key_name(0x12))) == Some(0x12u8));
    } else if code == 0x13 {
        reveal_strlit("P");
        assert(spec_lower(spec_key_name(0x13)) =~= seq!['p']);
        assert(spec_key_code(spec_lower(spec_key_name(0x13))) == Some(0x13u8));
    } else if code == 0x14 {
        reveal_strlit("Q");
        assert(spec_lower(spec_key_name(0x14)) =~= seq!['q']);
        assert(spec_key_code(spec_lower(spec_key_name(0x14))) == Some(0x14u8));
    } else if code == 0x15 {
        reveal_strlit("R");
        assert(spec_lower(spec_key_name(0x15)) =~= seq!['r']);
        assert(spec_key_code(spec_lower(spec_key_name(0x15))) == Some(0x15u8));
    } else if code == 0x16 {
        reveal_strlit("S");
        assert(spec_lower(spec_key_name(0x16)) =~= seq!['s']);
        assert(spec_key_code(spec_lower(spec_key_name(0x16))) == Some(0x16u8));
    } else if code == 0x17 {
        reveal_strlit("T");
        assert(spec_lower(spec_key_name(0x17)) =~= seq!['t']);
        assert(spec_key_code(spec_lower(spec_key_name(0x17))) == Some(0x17u8));
    } else if code == 0x18 {
        reveal_strlit("U");
        assert(spec_lower(spec_key_name(0x18)) =~= seq!['u']);
        assert(spec_key_code(spec_lower(spec_key_name(0x18))) == Some(0x18u8));
    } else if code == 0x19 {
        reveal_strlit("V");
        assert(spec_lower(spec_key_name(0x19)) =~= seq!['v']);
        assert(spec_key_code(spec_lower(spec_key_name(0x19))) == Some(0x19u8));
    } else if code == 0x1A {
        reveal_strlit("W");
        assert(spec_lower(spec_key_name(0x1A)) =~= seq!['w']);
        assert(spec_key_code(spec_lower(spec_key_name(0x1A))) == Some(0x1Au8));
    } else if code == 0x1B {
        reveal_strlit("X");
        assert(spec_lower(spec_key_name(0x1B)) =~= seq!['x']);
        assert(spec_key_code(spec_lower(spec_key_name(0x1B))) == Some(0x1Bu8));
    } else if code == 0x1C {
        reveal_strlit("Y");
        assert(spec_lower(spec_key_name(0x1C)) =~= seq!['y']);
        assert(spec_key_code(spec_lower(spec_key_name(0x1C))) == Some(0x1Cu8));
    } else if code == 0x1D {
        reveal_strlit("Z");
        assert(spec_lower(spec_key_name(0x1D)) =~= seq!['z']);
        assert(spec_key_code(spec_lower(spec_key_name(0x1D))) == Some(0x1Du8));
    }
}

#[verifier::rlimit(50)]
proof fn lemma_round_trip_digit(code: u8)
    requires
        0x1E <= code <= 0x27,
    ensures
        spec_key_code(spec_lower(spec_key_name(code))) == Some(code),
{
    if code == 0x1E {
        reveal_strlit("1");
        assert(spec_lower(spec_key_name(0x1E)) =~= seq!['1']);
        assert(spec_key_code(spec_lower(spec_key_name(0x1E))) == Some(0x1Eu8));
    } else if code == 0x1F {
        reveal_strlit("2");
        assert(spec_lower(spec_key_name(0x1F)) =~= seq!['2']);
        assert(spec_key_code(spec_lower(spec_key_name(0x1F))) == Some(0x1Fu8));
    } else if code == 0x20 {
        reveal_strlit("3");
        assert(spec_lower(spec_key_name(0x20)) =~= seq!['3']);
        assert(spec_key_code(spec_lower(spec_key_name(0x20))) == Some(0x20u8));
    } else if code == 0x21 {
        reveal_strlit("4");
        assert(spec_lower(spec_key_name(0x21)) =~= seq!['4']);
        assert(spec_key_code(spec_lower(spec_key_name(0x21))) == Some(0x21u8));
    } else if code == 0x22 {
        reveal_strlit("5");
        assert(spec_lower(spec_key_name(0x22)) =~= seq!['5']);
        assert(spec_key_code(spec_lower(spec_key_name(0x22))) == Some(0x22u8));
    } else if code == 0x23 {
        reveal_strlit("6");
        assert(spec_lower(spec_key_name(0x23)) =~= seq!['6']);
        assert(spec_key_code(spec_lower(spec_key_name(0x23))) == Some(0x23u8));
    } else if code == 0x24 {
        reveal_strlit("7");
        assert(spec_lower(spec_key_name(0x24)) =~= seq!['7']);
        assert(spec_key_code(spec_lower(spec_key_name(0x24))) == Some(0x24u8));
    } else if code == 0x25 {
        reveal_strlit("8");
        assert(spec_lower(spec_key_name(0x25)) =~= seq!['8']);
        assert(spec_key_code(spec_lower(spec_key_name(0x25))) == Some(0x25u8));
    } else if code == 0x26 {
        reveal_strlit("9");
        assert(spec_lower(spec_key_name(0x26)) =~= seq!['9']);
        assert(spec_key_code(spec_lower(spec_key_name(0x26))) == Some(0x26u8));
    } else if code == 0x27 {
        reveal_strlit("0");
        assert(spec_lower(spec_key_name(0x27)) =~= seq!['0']);
        assert(spec_key_code(spec_lower(spec_key_name(0x27))) == Some(0x27u8));
    }
}

#[verifier::rlimit(50)]
proof fn lemma_round_trip_fkey(code: u8)
    requires
        0x3A <= code <= 0x45,
    ensures
        spec_key_code(spec_lower(spec_key_name(code))) == Some(code),
{
    if code == 0x3A {
        reveal_strlit("F1");
        assert(spec_lower(spec_key_name(0x3A)) =~= seq!['f', '1']);
        assert(spec_key_code(spec_lower(spec_key_name(0x3A))) == Some(0x3Au8));
    } else if code == 0x3B {
        reveal_strlit("F2");
        assert(spec_lower(spec_key_name(0x3B)) =~= seq!['f', '2']);
        assert(spec_key_code(spec_lower(spec_key_name(0x3B))) == Some(0x3Bu8));
    } else if code == 0x3C {
        reveal_strlit("F3");
        assert(spec_lower(spec_key_name(0x3C)) =~= seq!['f', '3']);
        assert(spec_key_code(spec_lower(spec_key_name(0x3C))) == Some(0x3Cu8));
    } else if code == 0x3D {
        reveal_strlit("F4");
        assert(spec_lower(spec_key_name(0x3D)) =~= seq!['f', '4']);
        assert(spec_key_code(spec_lower(spec_key_name(0x3D))) == Some(0x3Du8));
    } else if code == 0x3E {
        reveal_strlit("F5");
        assert(spec_lower(spec_key_name(0x3E)) =~= seq!['f', '5']);
        assert(spec_key_code(spec_lower(spec_key_name(0x3E))) == Some(0x3Eu8));
    } else if code == 0x3F {
        reveal_strlit("F6");
        assert(spec_lower(spec_key_name(0x3F)) =~= seq!['f', '6']);
        assert(spec_key_code(spec_lower(spec_key_name(0x3F))) == Some(0x3Fu8));
    } else if code == 0x40 {
        reveal_strlit("F7");
        assert(spec_lower(spec_key_name(0x40)) =~= seq!['f', '7']);
        assert(spec_key_code(spec_lower(spec_key_name(0x40))) == Some(0x40u8));
    } else if code == 0x41 {
        reveal_strlit("F8");
        assert(spec_lower(spec_key_name(0x41)) =~= seq!['f', '8']);
        assert(spec_key_code(spec_lower(spec_key_name(0x41))) == Some(0x41u8));
    } else if code == 0x42 {
        reveal_strlit("F9");
        assert(spec_lower(spec_key_name(0x42)) =~= seq!['f', '9']);
        assert(spec_key_code(spec_lower(spec_key_name(0x42))) == Some(0x42u8));
    } else if code == 0x43 {
        reveal_strlit("F10");
        assert(spec_lower(spec_key_name(0x43)) =~= seq!['f', '1', '0']);
        assert(spec_key_code(spec_lower(spec_key_name(0x43))) == Some(0x43u8));
    } else if code == 0x44 {
        reveal_strlit("F11");
        assert(spec_lower(spec_key_name(0x44)) =~= seq!['f', '1', '1']);
        assert(spec_key_code(spec_lower(spec_key_name(0x44))) == Some(0x44u8));
    } else if code == 0x45 {
        reveal_strlit("F12");
        assert(spec_lower(spec_key_name(0x45)) =~= seq!['f', '1', '2']);
        assert(spec_key_code(spec_lower(spec_key_name(0x45))) == Some(0x45u8));
    }
}

#[verifier::rlimit(50)]
proof fn lemma_round_trip_name_28()
    ensures
        spec_key_code(spec_lower(spec_key_name(0x28))) == Some(0x28u8),
{
    reveal_strlit("Enter");
    reveal_strlit("enter");
    assert(spec_lower(spec_key_name(0x28)) =~= "enter"@);
}

#[verifier::rlimit(50)]
proof fn lemma_round_trip_name_29()
    ensures
        spec_key_code(spec_lower(spec_key_name(0x29))) == Some(0x29u8),
{
    reveal_strlit("Escape");
    reveal_strlit("escape");
    reveal_strlit("enter");
    reveal_strlit("return");
    reveal_strlit("esc");
    assert(spec_lower(spec_key_name(0x29)) =~= "escape"@);
    assert("return"@[0] == 'r' && "escape"@[0] == 'e');
}

#[verifier::rlimit(50)]
proof fn lemma_round_trip_name_2a()
    ensures
        spec_key_code(spec_lower(spec_key_name(0x2A))) == Some(0x2Au8),
{
    reveal_strlit("Backspace");
    reveal_strlit("backspace");
    reveal_strlit("enter");
    reveal_strlit("return");
    reveal_strlit("esc");
    reveal_strlit("escape");
    assert(spec_lower(spec_key_name(0x2A)) =~= "backspace"@);
}

#[verifier::rlimit(50)]
proof fn lemma_round_trip_name_2b()
    ensures
        spec_key_code(spec_lower(spec_key_name(0x2B))) == Some(0x2Bu8),
{
    reveal_strlit("Tab");
    reveal_strlit("tab");
    reveal_strlit("enter");
    reveal_strlit("return");
    reveal_strlit("esc");
    reveal_strlit("escape");
    reveal_strlit("backspace");
    assert(spec_lower(spec_key_name(0x2B)) =~= "tab"@);
    assert("esc"@[0] == 'e' && "tab"@[0] == 't');
}

#[verifier::rlimit(50)]
proof fn lemma_round_trip_name_2c()
    ensures
        spec_key_code(spec_lower(spec_key_name(0x2C))) == Some(0x2Cu8),
{
    reveal_strlit("Space");
    reveal_strlit("space");
    reveal_strlit("enter");
    reveal_strlit("return");
    reveal_strlit("esc");
    reveal_strlit("escape");
    reveal_strlit("backspace");
    reveal_strlit("tab");
    assert(spec_lower(spec_key_name(0x2C)) =~= "space"@);
    assert("enter"@[0] == 'e' && "space"@[0] == 's');
}

#[verifier::rlimit(50)]
proof fn lemma_round_trip_name_2d()
    ensures
        spec_key_code(spec_lower(spec_key_name(0x2D))) == Some(0x2Du8),
{
    reveal_strlit("Minus");
    reveal_strlit("minus");
    reveal_strlit("enter");
    reveal_strlit("return");
    reveal_strlit("esc");
    reveal_strlit("escape");
    reveal_strlit("backspace");
    reveal_strlit("tab");
    reveal_strlit("space");
    reveal_strlit("left");
    reveal_strlit("right");
    reveal_strlit("up");
    reveal_strlit("down");
    assert(spec_lower(spec_key_name(0x2D)) =~= "minus"@);
    assert("enter"@[0] == 'e' && "minus"@[0] == 'm');
    assert("space"@[0] == 's' && "minus"@[0] == 'm');
    assert("right"@[0] == 'r' && "minus"@[0] == 'm');
}

#[verifier::rlimit(50)]
proof fn lemma_round_trip_name_2e()
    ensures
        spec_key_code(spec_lower(spec_key_name(0x2E))) == Some(0x2Eu8),
{
    reveal_strlit("Equal");
    reveal_strlit("equal");
    reveal_strlit("enter");
    reveal_strlit("return");
    reveal_strlit("esc");
    reveal_strlit("escape");
    reveal_strlit("backspace");
    reveal_strlit("tab");
    reveal_strlit("space");
    reveal_strlit("left");
    reveal_strlit("right");
    reveal_strlit("up");
    reveal_strlit("down");
    reveal_strlit("minus");
    assert(spec_lower(spec_key_name(0x2E)) =~= "equal"@);
    assert("enter"@[1] == 'n' && "equal"@[1] == 'q');
    assert("space"@[0] == 's' && "equal"@[0] == 'e');
    assert("right"@[0] == 'r' && "equal"@[0] == 'e');
    assert("minus"@[0] == 'm' && "equal"@[0] == 'e');
}

#[verifier::rlimit(50)]
proof fn lemma_round_trip_name_2f()
    ensures
        spec_key_code(spec_lower(spec_key_name(0x2F))) == Some(0x2Fu8),
{
    reveal_strlit("LeftBracket");
    reveal_strlit("leftbracket");
    reveal_strlit("enter");
    reveal_strlit("return");
    reveal_strlit("esc");
    reveal_strlit("escape");
    reveal_strlit("backspace");
    reveal_strlit("tab");
    reveal_strlit("space");
    reveal_strlit("left");
    reveal_strlit("right");
    reveal_strlit("up");
    reveal_strlit("down");
    reveal_strlit("minus");
    reveal_strlit("equal");
    assert(spec_lower(spec_key_name(0x2F)) =~= "leftbracket"@);
}

#[verifier::rlimit(50)]
proof fn lemma_round_trip_name_30()
    ensures
        spec_key_code(spec_lower(spec_key_name(0x30))) == Some(0x30u8),
{
    reveal_strlit("RightBracket");
    reveal_strlit("rightbracket");
    reveal_strlit("enter");
    reveal_strlit("return");
    reveal_strlit("esc");
    reveal_strlit("escape");
    reveal_strlit("backspace");
    reveal_strlit("tab");
    reveal_strlit("space");
    reveal_strlit("left");
    reveal_strlit("right");
    reveal_strlit("up");
    reveal_strlit("down");
    reveal_strlit("minus");
    reveal_strlit("equal");
    reveal_strlit("leftbracket");
    assert(spec_lower(spec_key_name(0x30)) =~= "rightbracket"@);
}

#[verifier::rlimit(50)]
proof fn lemma_round_trip_name_31()
    ensures
        spec_key_code(spec_lower(spec_key_name(0x31))) == Some(0x31u8),
{
    reveal_strlit("Backslash");
    reveal_strlit("backslash");
    reveal_strlit("enter");
    reveal_strlit("return");
    reveal_strlit("esc");
    reveal_strlit("escape");
    reveal_strlit("backspace");
    reveal_strlit("tab");
    reveal_strlit("space");
    reveal_strlit("left");
    reveal_strlit("right");
    reveal_strlit("up");
    reveal_strlit("down");
    reveal_strlit("minus");
    reveal_strlit("equal");
    reveal_strlit("leftbracket");
    reveal_strlit("rightbracket");
    assert(spec_lower(spec_key_name(0x31)) =~= "backslash"@);
    assert("backspace"@[5] == 'p' && "backslash"@[5] == 'l');
}

#[verifier::rlimit(50)]
proof fn lemma_round_trip_name_33()
    ensures
        spec_key_code(spec_lower(spec_key_name(0x33))) == Some(0x33u8),
{
    reveal_strlit("Semicolon");
    reveal_strlit("semicolon");
    reveal_strlit("enter");
    reveal_strlit("return");
    reveal_strlit("esc");
    reveal_strlit("escape");
    reveal_strlit("backspace");
    reveal_strlit("tab");
    reveal_strlit("space");
    reveal_strlit("left");
    reveal_strlit("right");
    reveal_strlit("up");
    reveal_strlit("down");
    reveal_strlit("minus");
    reveal_strlit("equal");
    reveal_strlit("leftbracket");
    reveal_strlit("rightbracket");
    reveal_strlit("backslash");
    assert(spec_lower(spec_key_name(0x33)) =~= "semicolon"@);
    assert("backspace"@[0] == 'b' && "semicolon"@[0] == 's');
    assert("backslash"@[0] == 'b' && "semicolon"@[0] == 's');
}

#[verifier::rlimit(50)]
proof fn lemma_round_trip_name_34()
    ensures
        spec_key_code(spec_lower(spec_key_name(0x34))) == Some(0x34u8),
{
    reveal_strlit("Quote");
    reveal_strlit("quote");
    reveal_strlit("enter");
    reveal_strlit("return");
    reveal_strlit("esc");
    reveal_strlit("escape");
    reveal_strlit("backspace");
    reveal_strlit("tab");
    reveal_strlit("space");
    reveal_strlit("left");
    reveal_strlit("right");
    reveal_strlit("up");
    reveal_strlit("down");
    reveal_strlit("minus");
    reveal_strlit("equal");
    reveal_strlit("leftbracket");
    reveal_strlit("rightbracket");
    reveal_strlit("backslash");
    reveal_strlit("semicolon");
    assert(spec_lower(spec_key_name(0x34)) =~= "quote"@);
    assert("enter"@[0] == 'e' && "quote"@[0] == 'q');
    assert("space"@[0] == 's' && "quote"@[0] == 'q');
    assert("right"@[0] == 'r' && "quote"@[0] == 'q');
    assert("minus"@[0] == 'm' && "quote"@[0] == 'q');
    assert("equal"@[0] == 'e' && "quote"@[0] == 'q');
}

#[verifier::rlimit(50)]
proof fn lemma_round_trip_name_35()
    ensures
        spec_key_code(spec_lower(spec_key_name(0x35))) == Some(0x35u8),
{
    reveal_strlit("Grave");
    reveal_strlit("grave");
    reveal_strlit("enter");
    reveal_strlit("return");
    reveal_strlit("esc");
    reveal_strlit("escape");
    reveal_strlit("backspace");
    reveal_strlit("tab");
    reveal_strlit("space");
    reveal_strlit("left");
    reveal_strlit("right");
    reveal_strlit("up");
    reveal_strlit("down");
    reveal_strlit("minus");
    reveal_strlit("equal");
    reveal_strlit("leftbracket");
    reveal_strlit("rightbracket");
    reveal_strlit("backslash");
    reveal_strlit("semicolon");
    reveal_strlit("quote");
    assert(spec_lower(spec_key_name(0x35)) =~= "grave"@);
    assert("enter"@[0] == 'e' && "grave"@[0] == 'g');
    assert("space"@[0] == 's' && "grave"@[0] == 'g');
    assert("right"@[0] == 'r' && "grave"@[0] == 'g');
    assert("minus"@[0] == 'm' && "grave"@[0] == 'g');
    assert("equal"@[0] == 'e' && "grave"@[0] == 'g');
    assert("quote"@[0] == 'q' && "grave"@[0] == 'g');
}

#[verifier::rlimit(50)]
proof fn lemma_round_trip_name_36()
    ensures
        spec_key_code(spec_lower(spec_key_name(0x36))) == Some(0x36u8),
{
    reveal_strlit("Comma");
    reveal_strlit("comma");
    reveal_strlit("enter");
    reveal_strlit("return");
    reveal_strlit("esc");
    reveal_strlit("escape");
    reveal_strlit("backspace");
    reveal_strlit("tab");
    reveal_strlit("space");
    reveal_strlit("left");
    reveal_strlit("right");
    reveal_strlit("up");
    reveal_strlit("down");
    reveal_strlit("minus");
    reveal_strlit("equal");
    reveal_strlit("leftbracket");
    reveal_strlit("rightbracket");
    reveal_strlit("backslash");
    reveal_strlit("semicolon");
    reveal_strlit("quote");
    reveal_strlit("grave");
    assert(spec_lower(spec_key_name(0x36)) =~= "comma"@);
    assert("enter"@[0] == 'e' && "comma"@[0] == 'c');
    assert("space"@[0] == 's' && "comma"@[0] == 'c');
    assert("right"@[0] == 'r' && "comma"@[0] == 'c');
    assert("minus"@[0] == 'm' && "comma"@[0] == 'c');
    assert("equal"@[0] == 'e' && "comma"@[0] == 'c');
    assert("quote"@[0] == 'q' && "comma"@[0] == 'c');
    assert("grave"@[0] == 'g' && "comma"@[0] == 'c');
}

#[verifier::rlimit(50)]
proof fn lemma_round_trip_name_37()
    ensures
        spec_key_code(spec_lower(spec_key_name(0x37))) == Some(0x37u8),
{
    reveal_strlit("Period");
    reveal_strlit("period");
    reveal_strlit("enter");
    reveal_strlit("return");
    reveal_strlit("esc");
    reveal_strlit("escape");
    reveal_strlit("backspace");
    reveal_strlit("tab");
    reveal_strlit("space");
    reveal_strlit("left");
    reveal_strlit("right");
    reveal_strlit("up");
    reveal_strlit("down");
    reveal_strlit("minus");
    reveal_strlit("equal");
    reveal_strlit("leftbracket");
    reveal_strlit("rightbracket");
    reveal_strlit("backslash");
    reveal_strlit("semicolon");
    reveal_strlit("quote");
    reveal_strlit("grave");
    reveal_strlit("comma");
    assert(spec_lower(spec_key_name(0x37)) =~= "period"@);
    assert("return"@[0] == 'r' && "period"@[0] == 'p');
    assert("escape"@[0] == 'e' && "period"@[0] == 'p');
}

#[verifier::rlimit(50)]
proof fn lemma_round_trip_name_38()
    ensures
        spec_key_code(spec_lower(spec_key_name(0x38))) == Some(0x38u8),
{
    reveal_strlit("Slash");
    reveal_strlit("slash");
    reveal_strlit("enter");
    reveal_strlit("return");
    reveal_strlit("esc");
    reveal_strlit("escape");
    reveal_strlit("backspace");
    reveal_strlit("tab");
    reveal_strlit("space");
    reveal_strlit("left");
    reveal_strlit("right");
    reveal_strlit("up");
    reveal_strlit("down");
    reveal_strlit("minus");
    reveal_strlit("equal");
    reveal_strlit("leftbracket");
    reveal_strlit("rightbracket");
    reveal_strlit("backslash");
    reveal_strlit("semicolon");
    reveal_strlit("quote");
    reveal_strlit("grave");
    reveal_strlit("comma");
    reveal_strlit("period");
    assert(spec_lower(spec_key_name(0x38)) =~= "slash"@);
    assert("enter"@[0] == 'e' && "slash"@[0] == 's');
    assert("space"@[1] == 'p' && "slash"@[1] == 'l');
    assert("right"@[0] == 'r' && "slash"@[0] == 's');
    assert("minus"@[0] == 'm' && "slash"@[0] == 's');
    assert("equal"@[0] == 'e' && "slash"@[0] == 's');
    assert("quote"@[0] == 'q' && "slash"@[0] == 's');
    assert("grave"@[0] == 'g' && "slash"@[0] == 's');
    assert("comma"@[0] == 'c' && "slash"@[0] == 's');
}

#[verifier::rlimit(50)]
proof fn lemma_round_trip_name_39()
    ensures
        spec_key_code(spec_lower(spec_key_name(0x39))) == Some(0x39u8),
{
    reveal_strlit("CapsLock");
    reveal_strlit("capslock");
    reveal_strlit("enter");
    reveal_strlit("return");
    reveal_strlit("esc");
    reveal_strlit("escape");
    reveal_strlit("backspace");
    reveal_strlit("tab");
    reveal_strlit("space");
    reveal_strlit("left");
    reveal_strlit("right");
    reveal_strlit("up");
    reveal_strlit("down");
    reveal_strlit("minus");
    reveal_strlit("equal");
    reveal_strlit("leftbracket");
    reveal_strlit("rightbracket");
    reveal_strlit("backslash");
    reveal_strlit("semicolon");
    reveal_strlit("quote");
    reveal_strlit("grave");
    reveal_strlit("comma");
    reveal_strlit("period");
    reveal_strlit("slash");
    assert(spec_lower(spec_key_name(0x39)) =~= "capslock"@);
}

#[verifier::rlimit(50)]
proof fn lemma_round_trip_name_4f()
    ensures
        spec_key_code(spec_lower(spec_key_name(0x4F))) == Some(0x4Fu8),
{
    reveal_strlit("Right");
    reveal_strlit("right");
    reveal_strlit("enter");
    reveal_strlit("return");
    reveal_strlit("esc");
    reveal_strlit("escape");
    reveal_strlit("backspace");
    reveal_strlit("tab");
    reveal_strlit("space");
    reveal_strlit("left");
    assert(spec_lower(spec_key_name(0x4F)) =~= "right"@);
    assert("enter"@[0] == 'e' && "right"@[0] == 'r');
    assert("space"@[0] == 's' && "right"@[0] == 'r');
}

#[verifier::rlimit(50)]
proof fn lemma_round_trip_name_50()
    ensures
        spec_key_code(spec_lower(spec_key_name(0x50))) == Some(0x50u8),
{
    reveal_strlit("Left");
    reveal_strlit("left");
    reveal_strlit("enter");
    reveal_strlit("return");
    reveal_strlit("esc");
    reveal_strlit("escape");
    reveal_strlit("backspace");
    reveal_strlit("tab");
    reveal_strlit("space");
    assert(spec_lower(spec_key_name(0x50)) =~= "left"@);
}

#[verifier::rlimit(50)]
proof fn lemma_round_trip_name_51()
    ensures
        spec_key_code(spec_lower(spec_key_name(0x51))) == Some(0x51u8),
{
    reveal_strlit("Down");
    reveal_strlit("down");
    reveal_strlit("enter");
    reveal_strlit("return");
    reveal_strlit("esc");
    reveal_strlit("escape");
    reveal_strlit("backspace");
    reveal_strlit("tab");
    reveal_strlit("space");
    reveal_strlit("left");
    reveal_strlit("right");
    reveal_strlit("up");
    assert(spec_lower(spec_key_name(0x51)) =~= "down"@);
    assert("left"@[0] == 'l' && "down"@[0] == 'd');
}

#[verifier::rlimit(50)]
proof fn lemma_round_trip_name_52()
    ensures
        spec_key_code(spec_lower(spec_key_name(0x52))) == Some(0x52u8),
{
    reveal_strlit("Up");
    reveal_strlit("up");
    reveal_strlit("enter");
    reveal_strlit("return");
    reveal_strlit("esc");
    reveal_strlit("escape");
    reveal_strlit("backspace");
    reveal_strlit("tab");
    reveal_strlit("space");
    reveal_strlit("left");
    reveal_strlit("right");
    assert(spec_lower(spec_key_name(0x52)) =~= "up"@);
}


/// Whatever the key table resolves is a supported, non-zero usage code:
/// a parsed assignment always names a concrete key.
pub proof fn lemma_key_code_supported(s: Seq<char>)
    ensures
        spec_key_code(s) matches Some(code) ==> is_supported_key(code) && code != 0,
{
}

/// Every key in the supported table round-trips through the codec: the
/// display name of a supported usage code, lowercased, parses back to the
/// same code.
pub proof fn lemma_key_name_round_trip(code: u8)
    requires
        is_supported_key(code),
    ensures
        spec_key_code(spec_lower(spec_key_name(code))) == Some(code),
{
    if 0x04 <= code && code <= 0x1D {
        lemma_round_trip_letter(code);
    } else if 0x1E <= code && code <= 0x27 {
        lemma_round_trip_digit(code);
    } else if 0x3A <= code && code <= 0x45 {
        lemma_round_trip_fkey(code);
    } else if code == 0x28 {
        lemma_round_trip_name_28();
    } else if code == 0x29 {
        lemma_round_trip_name_29();
    } else if code == 0x2A {
        lemma_round_trip_name_2a();
    } else if code == 0x2B {
        lemma_round_trip_name_2b();
    } else if code == 0x2C {
        lemma_round_trip_name_2c();
    } else if code == 0x2D {
        lemma_round_trip_name_2d();
    } else if code == 0x2E {
        lemma_round_trip_name_2e();
    } else if code == 0x2F {
        lemma_round_trip_name_2f();
    } else if code == 0x30 {
        lemma_round_trip_name_30();
    } else if code == 0x31 {
        lemma_round_trip_name_31();
    } else if code == 0x33 {
        lemma_round_trip_name_33();
    } else if code == 0x34 {
        lemma_round_trip_name_34();
    } else if code == 0x35 {
        lemma_round_trip_name_35();
    } else if code == 0x36 {
        lemma_round_trip_name_36();
    } else if code == 0x37 {
        lemma_round_trip_name_37();
    } else if code == 0x38 {
        lemma_round_trip_name_38();
    } else if code == 0x39 {
        lemma_round_trip_name_39();
    } else if code == 0x4F {
        lemma_round_trip_name_4f();
    } else if code == 0x50 {
        lemma_round_trip_name_50();
    } else if code == 0x51 {
        lemma_round_trip_name_51();
    } else if code == 0x52 {
        lemma_round_trip_name_52();
    }
}

} // verus!
