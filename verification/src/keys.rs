//! Key naming: turns a virtual-key code, or the character a key produces,
//! into the name under which the key is counted.

use vstd::prelude::*;

use crate::text::{
    ascii_graphic, ascii_upper, char_alphabetic, char_from_u32, is_alphabetic, is_ascii_graphic,
    is_ascii_letter, is_scalar_value, push_char, string_of_char, to_ascii_uppercase,
};

verus! {

/// Name of a numeric-keypad key, by virtual-key code.
pub open spec fn numpad_name_spec(vk: u32) -> Option<Seq<char>> {
    if vk == 0x60 { Some("numpad0"@) }
    else if vk == 0x61 { Some("numpad1"@) }
    else if vk == 0x62 { Some("numpad2"@) }
    else if vk == 0x63 { Some("numpad3"@) }
    else if vk == 0x64 { Some("numpad4"@) }
    else if vk == 0x65 { Some("numpad5"@) }
    else if vk == 0x66 { Some("numpad6"@) }
    else if vk == 0x67 { Some("numpad7"@) }
    else if vk == 0x68 { Some("numpad8"@) }
    else if vk == 0x69 { Some("numpad9"@) }
    else if vk == 0x6A { Some("numpad_multiply"@) }
    else if vk == 0x6B { Some("numpad_add"@) }
    else if vk == 0x6D { Some("numpad_subtract"@) }
    else if vk == 0x6E { Some("numpad_decimal"@) }
    else if vk == 0x6F { Some("numpad_divide"@) }
    else { None }
}

/// The view of an optional string slice.
pub open spec fn opt_str_view(r: Option<&str>) -> Option<Seq<char>> {
    match r {
        Some(s) => Some(s@),
        None => None,
    }
}

/// Name of a numeric-keypad key (`numpad0` .. `numpad9` and the operator keys).
pub fn numpad_name(vk: u32) -> (r: Option<&'static str>)
    ensures
        opt_str_view(r) == numpad_name_spec(vk),
{
    match vk {
        0x60 => Some("numpad0"),
        0x61 => Some("numpad1"),
        0x62 => Some("numpad2"),
        0x63 => Some("numpad3"),
        0x64 => Some("numpad4"),
        0x65 => Some("numpad5"),
        0x66 => Some("numpad6"),
        0x67 => Some("numpad7"),
        0x68 => Some("numpad8"),
        0x69 => Some("numpad9"),
        0x6A => Some("numpad_multiply"),
        0x6B => Some("numpad_add"),
        0x6D => Some("numpad_subtract"),
        0x6E => Some("numpad_decimal"),
        0x6F => Some("numpad_divide"),
        _ => None,
    }
}

/// Name of a function key F1 .. F24 (virtual-key codes 0x70 .. 0x87).
pub open spec fn function_key_spec(vk: u32) -> Seq<char> {
    if vk == 0x70 { "f1"@ }
    else if vk == 0x71 { "f2"@ }
    else if vk == 0x72 { "f3"@ }
    else if vk == 0x73 { "f4"@ }
    else if vk == 0x74 { "f5"@ }
    else if vk == 0x75 { "f6"@ }
    else if vk == 0x76 { "f7"@ }
    else if vk == 0x77 { "f8"@ }
    else if vk == 0x78 { "f9"@ }
    else if vk == 0x79 { "f10"@ }
    else if vk == 0x7A { "f11"@ }
    else if vk == 0x7B { "f12"@ }
    else if vk == 0x7C { "f13"@ }
    else if vk == 0x7D { "f14"@ }
    else if vk == 0x7E { "f15"@ }
    else if vk == 0x7F { "f16"@ }
    else if vk == 0x80 { "f17"@ }
    else if vk == 0x81 { "f18"@ }
    else if vk == 0x82 { "f19"@ }
    else if vk == 0x83 { "f20"@ }
    else if vk == 0x84 { "f21"@ }
    else if vk == 0x85 { "f22"@ }
    else if vk == 0x86 { "f23"@ }
    else { "f24"@ }
}

/// Name of a non-printing key, by virtual-key code.
pub open spec fn special_name_spec(vk: u32) -> Option<Seq<char>> {
    if vk == 0x08 { Some("backspace"@) }
    else if vk == 0x09 { Some("tab"@) }
    else if vk == 0x0D { Some("enter"@) }
    else if vk == 0x13 { Some("pause"@) }
    else if vk == 0x14 { Some("capslock"@) }
    else if vk == 0x1B { Some("esc"@) }
    else if vk == 0x20 { Some("space"@) }
    else if vk == 0x21 { Some("page_up"@) }
    else if vk == 0x22 { Some("page_down"@) }
    else if vk == 0x23 { Some("end"@) }
    else if vk == 0x24 { Some("home"@) }
    else if vk == 0x25 { Some("left"@) }
    else if vk == 0x26 { Some("up"@) }
    else if vk == 0x27 { Some("right"@) }
    else if vk == 0x28 { Some("down"@) }
    else if vk == 0x2C { Some("print_screen"@) }
    else if vk == 0x2D { Some("insert"@) }
    else if vk == 0x2E { Some("delete"@) }
    else if vk == 0x5B || vk == 0x5C { Some("meta"@) }
    else if vk == 0x5D { Some("menu"@) }
    else if vk == 0x5F { Some("sleep"@) }
    else if vk == 0x90 { Some("num_lock"@) }
    else if vk == 0x91 { Some("scroll_lock"@) }
    else if vk == 0xA0 || vk == 0xA1 { Some("shift"@) }
    else if vk == 0xA2 || vk == 0xA3 { Some("ctrl"@) }
    else if vk == 0xA4 || vk == 0xA5 { Some("alt"@) }
    else if vk == 0xAD { Some("volume_mute"@) }
    else if vk == 0xAE { Some("volume_down"@) }
    else if vk == 0xAF { Some("volume_up"@) }
    else if vk == 0xB0 { Some("media_next"@) }
    else if vk == 0xB1 { Some("media_previous"@) }
    else if vk == 0xB2 { Some("media_stop"@) }
    else if vk == 0xB3 { Some("media_play_pause"@) }
    else if 0x70 <= vk <= 0x87 { Some(function_key_spec(vk)) }
    else { None }
}

fn function_key_name(vk: u32) -> (r: &'static str)
    requires
        0x70 <= vk <= 0x87,
    ensures
        r@ == function_key_spec(vk),
{
    match vk {
        0x70 => "f1",
        0x71 => "f2",
        0x72 => "f3",
        0x73 => "f4",
        0x74 => "f5",
        0x75 => "f6",
        0x76 => "f7",
        0x77 => "f8",
        0x78 => "f9",
        0x79 => "f10",
        0x7A => "f11",
        0x7B => "f12",
        0x7C => "f13",
        0x7D => "f14",
        0x7E => "f15",
        0x7F => "f16",
        0x80 => "f17",
        0x81 => "f18",
        0x82 => "f19",
        0x83 => "f20",
        0x84 => "f21",
        0x85 => "f22",
        0x86 => "f23",
        _ => "f24",
    }
}

/// Name of a non-printing key (editing, navigation, modifier, media and function keys).
pub fn special_name(vk: u32) -> (r: Option<&'static str>)
    ensures
        opt_str_view(r) == special_name_spec(vk),
{
    match vk {
        0x08 => Some("backspace"),
        0x09 => Some("tab"),
        0x0D => Some("enter"),
        0x13 => Some("pause"),
        0x14 => Some("capslock"),
        0x1B => Some("esc"),
        0x20 => Some("space"),
        0x21 => Some("page_up"),
        0x22 => Some("page_down"),
        0x23 => Some("end"),
        0x24 => Some("home"),
        0x25 => Some("left"),
        0x26 => Some("up"),
        0x27 => Some("right"),
        0x28 => Some("down"),
        0x2C => Some("print_screen"),
        0x2D => Some("insert"),
        0x2E => Some("delete"),
        0x5B | 0x5C => Some("meta"),
        0x5D => Some("menu"),
        0x5F => Some("sleep"),
        0x90 => Some("num_lock"),
        0x91 => Some("scroll_lock"),
        0xA0 | 0xA1 => Some("shift"),
        0xA2 | 0xA3 => Some("ctrl"),
        0xA4 | 0xA5 => Some("alt"),
        0xAD => Some("volume_mute"),
        0xAE => Some("volume_down"),
        0xAF => Some("volume_up"),
        0xB0 => Some("media_next"),
        0xB1 => Some("media_previous"),
        0xB2 => Some("media_stop"),
        0xB3 => Some("media_play_pause"),
        _ => {
            if 0x70 <= vk && vk <= 0x87 {
                Some(function_key_name(vk))
            } else {
                None
            }
        },
    }
}

/// The unshifted character of a shifted symbol on a US keyboard (`!` -> `1`, `+` -> `=`, ...).
pub open spec fn shift_to_base_spec(ch: char) -> Option<char> {
    if ch == '!' { Some('1') }
    else if ch == '@' { Some('2') }
    else if ch == '#' { Some('3') }
    else if ch == '$' { Some('4') }
    else if ch == '%' { Some('5') }
    else if ch == '^' { Some('6') }
    else if ch == '&' { Some('7') }
    else if ch == '*' { Some('8') }
    else if ch == '(' { Some('9') }
    else if ch == ')' { Some('0') }
    else if ch == '~' { Some('`') }
    else if ch == '_' { Some('-') }
    else if ch == '+' { Some('=') }
    else if ch == '{' { Some('[') }
    else if ch == '}' { Some(']') }
    else if ch == ':' { Some(';') }
    else if ch == '"' { Some('\'') }
    else if ch == '<' { Some(',') }
    else if ch == '>' { Some('.') }
    else if ch == '?' { Some('/') }
    else if ch == '|' { Some('\\') }
    else { None }
}

/// Maps a shifted symbol to the character on the same key without shift.
pub fn shift_to_base(ch: char) -> (r: Option<char>)
    ensures
        r == shift_to_base_spec(ch),
{
    match ch {
        '!' => Some('1'),
        '@' => Some('2'),
        '#' => Some('3'),
        '$' => Some('4'),
        '%' => Some('5'),
        '^' => Some('6'),
        '&' => Some('7'),
        '*' => Some('8'),
        '(' => Some('9'),
        ')' => Some('0'),
        '~' => Some('`'),
        '_' => Some('-'),
        '+' => Some('='),
        '{' => Some('['),
        '}' => Some(']'),
        ':' => Some(';'),
        '"' => Some('\''),
        '<' => Some(','),
        '>' => Some('.'),
        '?' => Some('/'),
        '|' => Some('\\'),
        _ => None,
    }
}

/// What a typed character is counted as: printable ASCII and alphabetic characters
/// are kept, a shifted symbol counts as its unshifted key, and letters are upper-cased.
pub open spec fn normalize_char_spec(ch: char) -> Option<Seq<char>> {
    if !ascii_graphic(ch) && !char_alphabetic(ch) {
        None
    } else {
        let base = match shift_to_base_spec(ch) {
            Some(b) => b,
            None => ch,
        };
        if is_ascii_letter(base) || char_alphabetic(base) {
            Some(seq![ascii_upper(base)])
        } else {
            Some(seq![base])
        }
    }
}

/// The name under which a typed character is counted, or `None` for a
/// character that is neither printable ASCII nor alphabetic.
pub fn normalize_char(ch: char) -> (r: Option<String>)
    ensures
        match r {
            Some(s) => normalize_char_spec(ch) == Some(s@),
            None => normalize_char_spec(ch) is None,
        },
{
    if !is_ascii_graphic(ch) && !is_alphabetic(ch) {
        return None;
    }
    let base = match shift_to_base(ch) {
        Some(b) => b,
        None => ch,
    };
    // An ASCII letter is alphabetic; testing it first spares the Unicode lookup.
    let letter = ('a' <= base && base <= 'z') || ('A' <= base && base <= 'Z');
    if letter || is_alphabetic(base) {
        Some(string_of_char(to_ascii_uppercase(base)))
    } else {
        Some(string_of_char(base))
    }
}

/// The character used for a hexadecimal digit `0`..`F` (upper case).
pub open spec fn hex_digit(d: nat) -> char {
    if d < 10 {
        (d + 48) as char
    } else {
        (d + 55) as char
    }
}

/// Upper-case hexadecimal digits of `n`, without leading zeros (`0` for zero).
pub open spec fn hex_upper(n: nat) -> Seq<char>
    decreases n,
{
    if n < 16 {
        seq![hex_digit(n)]
    } else {
        hex_upper(n / 16).push(hex_digit(n % 16))
    }
}

/// Upper-case hexadecimal, zero-padded to at least two digits (the `{:02X}` format).
pub open spec fn hex_upper_2(n: nat) -> Seq<char> {
    if n < 16 {
        seq!['0', hex_digit(n)]
    } else {
        hex_upper(n)
    }
}

fn digit_char(d: u32) -> (c: char)
    requires
        d < 16,
    ensures
        c == hex_digit(d as nat),
{
    if d < 10 {
        let b: u8 = (d as u8) + 48;
        b as char
    } else {
        let b: u8 = (d as u8) + 55;
        b as char
    }
}

fn push_hex(s: &mut String, n: u32)
    ensures
        final(s)@ == old(s)@ + hex_upper(n as nat),
    decreases n,
{
    if n >= 16 {
        push_hex(s, n / 16);
    }
    let c = digit_char(n % 16);
    push_char(s, c);
    assert(final(s)@ =~= old(s)@ + hex_upper(n as nat)) by {
        if n >= 16 {
            assert(hex_upper(n as nat) == hex_upper((n / 16) as nat).push(hex_digit((n % 16) as nat)));
        }
    }
}

/// The name of a key with no other name: `vk_` and its code in upper-case hexadecimal.
pub open spec fn vk_fallback_name(vk: u32) -> Seq<char> {
    "vk_"@ + hex_upper_2(vk as nat)
}

/// The name under which a key is counted, given its virtual-key code and the raw value
/// that the keyboard layout maps the key to (`MapVirtualKeyW` with `MAPVK_VK_TO_CHAR`):
/// the keypad table first, then the character the key produces, then the table of
/// non-printing keys, and `vk_XX` for anything else.
pub open spec fn vk_name_spec(vk: u32, mapped: u32) -> Seq<char> {
    let m = mapped & 0xFFFF;
    if numpad_name_spec(vk) is Some {
        numpad_name_spec(vk)->0
    } else if m != 0 && is_scalar_value(m) && normalize_char_spec(m as char) is Some {
        normalize_char_spec(m as char)->0
    } else if special_name_spec(vk) is Some {
        special_name_spec(vk)->0
    } else {
        vk_fallback_name(vk)
    }
}

/// Key name for a virtual-key code, given what the keyboard layout maps it to.
pub fn normalize_vk_mapped(vk: u32, mapped: u32) -> (r: String)
    ensures
        r@ == vk_name_spec(vk, mapped),
{
    if let Some(name) = numpad_name(vk) {
        return name.to_owned();
    }
    let m = mapped & 0xFFFF;
    if m != 0 {
        if let Some(ch) = char_from_u32(m) {
            proof { vstd::utf8::char_u32_cast(ch, m); }
            if let Some(name) = normalize_char(ch) {
                return name;
            }
        }
    }
    if let Some(name) = special_name(vk) {
        return name.to_owned();
    }
    let mut s = "vk_".to_owned();
    if vk < 16 {
        push_char(&mut s, '0');
    }
    push_hex(&mut s, vk);
    proof {
        reveal_strlit("vk_");
        if vk < 16 {
            assert(hex_upper(vk as nat) == seq![hex_digit(vk as nat)]);
        }
        assert(s@ =~= vk_fallback_name(vk));
    }
    s
}

/// Normalising a key name again leaves it as it is: every name that
/// `normalize_char` produces is a single character that normalises to itself.
pub proof fn normalize_char_is_stable(ch: char)
    requires
        normalize_char_spec(ch) is Some,
    ensures
        normalize_char_spec(ch)->0.len() == 1,
        normalize_char_spec(normalize_char_spec(ch)->0[0]) == normalize_char_spec(ch),
{
    let base = match shift_to_base_spec(ch) {
        Some(b) => b,
        None => ch,
    };
    if is_ascii_letter(base) || char_alphabetic(base) {
        let v = ascii_upper(base);
        if 'a' <= base <= 'z' {
            assert(is_ascii_letter(v));
        }
        assert(normalize_char_spec(ch)->0[0] == v);
    } else {
        assert(normalize_char_spec(ch)->0[0] == base);
    }
}

// ---------------------------------------------------------------- naming laws

/// The arrow keys are named for their direction; a press of one of them, for which
/// the layout gives no character, is counted under that name.
pub proof fn arrow_keys_named_by_direction(mapped: u32)
    requires
        mapped & 0xFFFF == 0,
    ensures
        special_name_spec(0x25) == Some("left"@),
        special_name_spec(0x26) == Some("up"@),
        special_name_spec(0x27) == Some("right"@),
        special_name_spec(0x28) == Some("down"@),
        vk_name_spec(0x25, mapped) == "left"@,
        vk_name_spec(0x26, mapped) == "up"@,
        vk_name_spec(0x27, mapped) == "right"@,
        vk_name_spec(0x28, mapped) == "down"@,
{
}

/// The editing and navigation keys are named for what they do; a press of one of them,
/// for which the layout gives no character, is counted under that name.
pub proof fn editing_keys_named_for_what_they_do(mapped: u32)
    requires
        mapped & 0xFFFF == 0,
    ensures
        vk_name_spec(0x08, mapped) == "backspace"@,
        vk_name_spec(0x09, mapped) == "tab"@,
        vk_name_spec(0x0D, mapped) == "enter"@,
        vk_name_spec(0x1B, mapped) == "esc"@,
        vk_name_spec(0x20, mapped) == "space"@,
        vk_name_spec(0x21, mapped) == "page_up"@,
        vk_name_spec(0x22, mapped) == "page_down"@,
        vk_name_spec(0x23, mapped) == "end"@,
        vk_name_spec(0x24, mapped) == "home"@,
        vk_name_spec(0x2D, mapped) == "insert"@,
        vk_name_spec(0x2E, mapped) == "delete"@,
{
}

/// The left and the right key of each modifier are counted under one name.
pub proof fn modifier_sides_share_a_name()
    ensures
        special_name_spec(0xA0) == special_name_spec(0xA1) && special_name_spec(0xA0) == Some("shift"@),
        special_name_spec(0xA2) == special_name_spec(0xA3) && special_name_spec(0xA2) == Some("ctrl"@),
        special_name_spec(0xA4) == special_name_spec(0xA5) && special_name_spec(0xA4) == Some("alt"@),
        special_name_spec(0x5B) == special_name_spec(0x5C) && special_name_spec(0x5B) == Some("meta"@),
{
}

/// Function key `n` (virtual-key codes `0x70` for F1 to `0x87` for F24) is named `f`
/// followed by `n` in decimal.
pub proof fn function_keys_named_by_number(vk: u32)
    requires
        0x70 <= vk <= 0x87,
    ensures
        special_name_spec(vk) == Some(seq!['f'] + crate::export::decimal((vk - 0x6F) as nat)),
{
    reveal_strlit("f1");
    reveal_strlit("f2");
    reveal_strlit("f3");
    reveal_strlit("f4");
    reveal_strlit("f5");
    reveal_strlit("f6");
    reveal_strlit("f7");
    reveal_strlit("f8");
    reveal_strlit("f9");
    reveal_strlit("f10");
    reveal_strlit("f11");
    reveal_strlit("f12");
    reveal_strlit("f13");
    reveal_strlit("f14");
    reveal_strlit("f15");
    reveal_strlit("f16");
    reveal_strlit("f17");
    reveal_strlit("f18");
    reveal_strlit("f19");
    reveal_strlit("f20");
    reveal_strlit("f21");
    reveal_strlit("f22");
    reveal_strlit("f23");
    reveal_strlit("f24");
    reveal_with_fuel(crate::export::decimal, 3);
    assert(vk == 0x70 || vk == 0x71 || vk == 0x72 || vk == 0x73 || vk == 0x74 || vk == 0x75 || vk == 0x76
        || vk == 0x77 || vk == 0x78 || vk == 0x79 || vk == 0x7A || vk == 0x7B || vk == 0x7C || vk == 0x7D
        || vk == 0x7E || vk == 0x7F || vk == 0x80 || vk == 0x81 || vk == 0x82 || vk == 0x83 || vk == 0x84
        || vk == 0x85 || vk == 0x86 || vk == 0x87);
    assert(special_name_spec(vk) =~~= Some(seq!['f'] + crate::export::decimal((vk - 0x6F) as nat)));
}

/// Number-pad digit `n` (virtual-key codes `0x60` to `0x69`) is named `numpad`
/// followed by the digit.
pub proof fn numpad_digits_named_by_digit(vk: u32)
    requires
        0x60 <= vk <= 0x69,
    ensures
        numpad_name_spec(vk) == Some("numpad"@ + seq![((vk - 0x60) + 48) as char]),
{
    reveal_strlit("numpad");
    reveal_strlit("numpad0");
    reveal_strlit("numpad1");
    reveal_strlit("numpad2");
    reveal_strlit("numpad3");
    reveal_strlit("numpad4");
    reveal_strlit("numpad5");
    reveal_strlit("numpad6");
    reveal_strlit("numpad7");
    reveal_strlit("numpad8");
    reveal_strlit("numpad9");
    assert(vk == 0x60 || vk == 0x61 || vk == 0x62 || vk == 0x63 || vk == 0x64 || vk == 0x65 || vk == 0x66
        || vk == 0x67 || vk == 0x68 || vk == 0x69);
    assert(numpad_name_spec(vk) =~~= Some("numpad"@ + seq![((vk - 0x60) + 48) as char]));
}

/// A letter key whose layout gives its lower-case letter is counted under the
/// upper-case letter, and a digit key under its digit.
pub proof fn letter_and_digit_keys_named_by_character(vk: u32)
    ensures
        0x41 <= vk <= 0x5A ==> vk_name_spec(vk, (vk + 32) as u32) == seq![vk as char],
        0x41 <= vk <= 0x5A ==> vk_name_spec(vk, vk) == seq![vk as char],
        0x30 <= vk <= 0x39 ==> vk_name_spec(vk, vk) == seq![vk as char],
{
    if 0x30 <= vk <= 0x5A {
        let lower = (vk + 32) as u32;
        assert(vk & 0xFFFF == vk) by (bit_vector)
            requires
                vk <= 0x5A;
        assert(lower & 0xFFFF == lower) by (bit_vector)
            requires
                lower <= 0x7A;
        assert(is_scalar_value(vk) && is_scalar_value(lower));
        let c = vk as char;
        let lc = lower as char;
        assert(c as u32 == vk);
        assert(lc as u32 == lower);
        if 0x41 <= vk <= 0x5A {
            assert(ascii_graphic(c) && ascii_graphic(lc));
            assert(shift_to_base_spec(c) is None);
            assert(shift_to_base_spec(lc) is None);
            assert(is_ascii_letter(c) && is_ascii_letter(lc));
            assert(ascii_upper(c) == c);
            assert(ascii_upper(lc) == c);
        } else if 0x30 <= vk <= 0x39 {
            assert(ascii_graphic(c));
            assert(shift_to_base_spec(c) is None);
            assert(ascii_upper(c) == c);
        }
    }
}

} // verus!
