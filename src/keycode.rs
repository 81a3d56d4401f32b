//! Readable names of virtual-key codes, for diagnostics.

use vstd::prelude::*;

verus! {

/// The name of a virtual-key code that has one.
pub open spec fn vk_name(k: u8) -> Option<Seq<char>> {
    match k {
        0x01 => Some("Mouseclick"@),
        0x02 => Some("Mouseclick"@),
        0x03 => Some("VK_CANCEL"@),
        0x04 => Some("Mouseclick"@),
        0x05 => Some("Mouseclick"@),
        0x06 => Some("Mouseclick"@),
        0x08 => Some("VK_BACK"@),
        0x09 => Some("VK_TAB"@),
        0x0C => Some("VK_CLEAR"@),
        0x0D => Some("VK_RETURN"@),
        0x10 => Some("VK_SHIFT"@),
        0x11 => Some("VK_CONTROL"@),
        0x12 => Some("VK_MENU"@),
        0x13 => Some("VK_PAUSE"@),
        0x14 => Some("VK_CAPITAL"@),
        0x15 => Some("VK_KANA,VK_HANGUEL,VK_HANGUL"@),
        0x17 => Some("VK_JUNJA"@),
        0x18 => Some("VK_FINAL"@),
        0x19 => Some("VK_HANJA,VK_KANJI"@),
        0x1B => Some("VK_ESCAPE"@),
        0x1C => Some("VK_CONVERT"@),
        0x1D => Some("VK_NONCONVERT"@),
        0x1E => Some("VK_ACCEPT"@),
        0x1F => Some("VK_MODECHANGE"@),
        0x20 => Some("VK_SPACE"@),
        0x21 => Some("VK_PRIOR"@),
        0x22 => Some("VK_NEXT"@),
        0x23 => Some("VK_END"@),
        0x24 => Some("VK_HOME"@),
        0x25 => Some("VK_LEFT"@),
        0x26 => Some("VK_UP"@),
        0x27 => Some("VK_RIGHT"@),
        0x28 => Some("VK_DOWN"@),
        0x29 => Some("VK_SELECT"@),
        0x2A => Some("VK_PRINT"@),
        0x2B => Some("VK_EXECUTE"@),
        0x2C => Some("VK_SNAPSHOT"@),
        0x2D => Some("VK_INSERT"@),
        0x2E => Some("VK_DELETE"@),
        0x2F => Some("VK_HELP"@),
        0x5B => Some("VK_LWIN"@),
        0x5C => Some("VK_RWIN"@),
        0x5D => Some("VK_APPS"@),
        0x5F => Some("VK_SLEEP"@),
        0x60 => Some("VK_NUMPAD0"@),
        0x61 => Some("VK_NUMPAD1"@),
        0x62 => Some("VK_NUMPAD2"@),
        0x63 => Some("VK_NUMPAD3"@),
        0x64 => Some("VK_NUMPAD4"@),
        0x65 => Some("VK_NUMPAD5"@),
        0x66 => Some("VK_NUMPAD6"@),
        0x67 => Some("VK_NUMPAD7"@),
        0x68 => Some("VK_NUMPAD8"@),
        0x69 => Some("VK_NUMPAD9"@),
        0x6A => Some("VK_MULTIPLY"@),
        0x6B => Some("VK_ADD"@),
        0x6C => Some("VK_SEPARATOR"@),
        0x6D => Some("VK_SUBTRACT"@),
        0x6E => Some("VK_DECIMAL"@),
        0x6F => Some("VK_DIVIDE"@),
        0x70 => Some("VK_F1"@),
        0x71 => Some("VK_F2"@),
        0x72 => Some("VK_F3"@),
        0x73 => Some("VK_F4"@),
        0x74 => Some("VK_F5"@),
        0x75 => Some("VK_F6"@),
        0x76 => Some("VK_F7"@),
        0x77 => Some("VK_F8"@),
        0x78 => Some("VK_F9"@),
        0x79 => Some("VK_F10"@),
        0x7A => Some("VK_F11"@),
        0x7B => Some("VK_F12"@),
        0x7C => Some("VK_F13"@),
        0x7D => Some("VK_F14"@),
        0x7E => Some("VK_F15"@),
        0x7F => Some("VK_F16"@),
        0x80 => Some("VK_F17"@),
        0x81 => Some("VK_F18"@),
        0x82 => Some("VK_F19"@),
        0x83 => Some("VK_F20"@),
        0x84 => Some("VK_F21"@),
        0x85 => Some("VK_F22"@),
        0x86 => Some("VK_F23"@),
        0x87 => Some("VK_F24"@),
        0x90 => Some("VK_NUMLOCK"@),
        0x91 => Some("VK_SCROLL"@),
        0xA0 => Some("VK_LSHIFT"@),
        0xA1 => Some("VK_RSHIFT"@),
        0xA2 => Some("VK_LCONTROL"@),
        0xA3 => Some("VK_RCONTROL"@),
        0xA4 => Some("VK_LMENU"@),
        0xA5 => Some("VK_RMENU"@),
        0xA6 => Some("VK_BROWSER_BACK"@),
        0xA7 => Some("VK_BROWSER_FORWARD"@),
        0xA8 => Some("VK_BROWSER_REFRESH"@),
        0xA9 => Some("VK_BROWSER_STOP"@),
        0xAA => Some("VK_BROWSER_SEARCH"@),
        0xAB => Some("VK_BROWSER_FAVORITES"@),
        0xAC => Some("VK_BROWSER_HOME"@),
        0xAD => Some("VK_VOLUME_MUTE"@),
        0xAE => Some("VK_VOLUME_DOWN"@),
        0xAF => Some("VK_VOLUME_UP"@),
        0xB0 => Some("VK_MEDIA_NEXT_TRACK"@),
        0xB1 => Some("VK_MEDIA_PREV_TRACK"@),
        0xB2 => Some("VK_MEDIA_STOP"@),
        0xB3 => Some("VK_MEDIA_PLAY_PAUSE"@),
        0xB4 => Some("VK_LAUNCH_MAIL"@),
        0xB5 => Some("VK_LAUNCH_MEDIA_SELECT"@),
        0xB6 => Some("VK_LAUNCH_APP1"@),
        0xB7 => Some("VK_LAUNCH_APP2"@),
        0xBA => Some("VK_OEM_1"@),
        0xBB => Some("VK_OEM_PLUS"@),
        0xBC => Some("VK_OEM_COMMA"@),
        0xBD => Some("VK_OEM_MINUS"@),
        0xBE => Some("VK_OEM_PERIOD"@),
        0xBF => Some("VK_OEM_2"@),
        0xC0 => Some("VK_OEM_3"@),
        0xDB => Some("VK_OEM_4"@),
        0xDC => Some("VK_OEM_5"@),
        0xDD => Some("VK_OEM_6"@),
        0xDE => Some("VK_OEM_7"@),
        0xDF => Some("VK_OEM_8"@),
        0xE2 => Some("VK_OEM_102"@),
        0xE5 => Some("VK_PROCESSKEY"@),
        0xF6 => Some("VK_ATTN"@),
        0xF7 => Some("VK_CRSEL"@),
        0xF8 => Some("VK_EXSEL"@),
        0xF9 => Some("VK_EREOF"@),
        0xFA => Some("VK_PLAY"@),
        0xFB => Some("VK_ZOOM"@),
        0xFC => Some("VK_NONAME"@),
        0xFD => Some("VK_PA1"@),
        0xFE => Some("VK_OEM_CLEAR"@),
        _ => None,
    }
}

/// Whether `k` is the code of a letter `A`-`Z` or a digit `0`-`9`, which
/// equals its ASCII code.
pub open spec fn is_alphanumeric_key(k: u8) -> bool {
    (65 <= k <= 90) || (48 <= k <= 57)
}

/// The ASCII digit of a value below ten.
pub open spec fn digit_char(d: nat) -> char {
    if d == 0 {
        '0'
    } else if d == 1 {
        '1'
    } else if d == 2 {
        '2'
    } else if d == 3 {
        '3'
    } else if d == 4 {
        '4'
    } else if d == 5 {
        '5'
    } else if d == 6 {
        '6'
    } else if d == 7 {
        '7'
    } else if d == 8 {
        '8'
    } else {
        '9'
    }
}

/// The decimal numeral of `n`, without leading zeros.
pub open spec fn decimal(n: nat) -> Seq<char>
    decreases n,
{
    if n < 10 {
        seq![digit_char(n)]
    } else {
        decimal(n / 10) + seq![digit_char(n % 10)]
    }
}

/// The text shown for a key code: the character itself for a letter or a
/// digit, the code's name where it has one, else `CODE_` and the code in
/// decimal.
pub open spec fn keycode_name(k: u8) -> Seq<char> {
    if is_alphanumeric_key(k) {
        seq![k as char]
    } else {
        match vk_name(k) {
            Some(n) => n,
            None => "CODE_"@ + decimal(k as nat),
        }
    }
}

fn vk_table(k: u8) -> (r: Option<&'static str>)
    ensures
        r is None <==> vk_name(k) is None,
        r matches Some(s) ==> s@ == vk_name(k)->Some_0,
{
    match k {
        0x01 => Some("Mouseclick"),
        0x02 => Some("Mouseclick"),
        0x03 => Some("VK_CANCEL"),
        0x04 => Some("Mouseclick"),
        0x05 => Some("Mouseclick"),
        0x06 => Some("Mouseclick"),
        0x08 => Some("VK_BACK"),
        0x09 => Some("VK_TAB"),
        0x0C => Some("VK_CLEAR"),
        0x0D => Some("VK_RETURN"),
        0x10 => Some("VK_SHIFT"),
        0x11 => Some("VK_CONTROL"),
        0x12 => Some("VK_MENU"),
        0x13 => Some("VK_PAUSE"),
        0x14 => Some("VK_CAPITAL"),
        0x15 => Some("VK_KANA,VK_HANGUEL,VK_HANGUL"),
        0x17 => Some("VK_JUNJA"),
        0x18 => Some("VK_FINAL"),
        0x19 => Some("VK_HANJA,VK_KANJI"),
        0x1B => Some("VK_ESCAPE"),
        0x1C => Some("VK_CONVERT"),
        0x1D => Some("VK_NONCONVERT"),
        0x1E => Some("VK_ACCEPT"),
        0x1F => Some("VK_MODECHANGE"),
        0x20 => Some("VK_SPACE"),
        0x21 => Some("VK_PRIOR"),
        0x22 => Some("VK_NEXT"),
        0x23 => Some("VK_END"),
        0x24 => Some("VK_HOME"),
        0x25 => Some("VK_LEFT"),
        0x26 => Some("VK_UP"),
        0x27 => Some("VK_RIGHT"),
        0x28 => Some("VK_DOWN"),
        0x29 => Some("VK_SELECT"),
        0x2A => Some("VK_PRINT"),
        0x2B => Some("VK_EXECUTE"),
        0x2C => Some("VK_SNAPSHOT"),
        0x2D => Some("VK_INSERT"),
        0x2E => Some("VK_DELETE"),
        0x2F => Some("VK_HELP"),
        0x5B => Some("VK_LWIN"),
        0x5C => Some("VK_RWIN"),
        0x5D => Some("VK_APPS"),
        0x5F => Some("VK_SLEEP"),
        0x60 => Some("VK_NUMPAD0"),
        0x61 => Some("VK_NUMPAD1"),
        0x62 => Some("VK_NUMPAD2"),
        0x63 => Some("VK_NUMPAD3"),
        0x64 => Some("VK_NUMPAD4"),
        0x65 => Some("VK_NUMPAD5"),
        0x66 => Some("VK_NUMPAD6"),
        0x67 => Some("VK_NUMPAD7"),
        0x68 => Some("VK_NUMPAD8"),
        0x69 => Some("VK_NUMPAD9"),
        0x6A => Some("VK_MULTIPLY"),
        0x6B => Some("VK_ADD"),
        0x6C => Some("VK_SEPARATOR"),
        0x6D => Some("VK_SUBTRACT"),
        0x6E => Some("VK_DECIMAL"),
        0x6F => Some("VK_DIVIDE"),
        0x70 => Some("VK_F1"),
        0x71 => Some("VK_F2"),
        0x72 => Some("VK_F3"),
        0x73 => Some("VK_F4"),
        0x74 => Some("VK_F5"),
        0x75 => Some("VK_F6"),
        0x76 => Some("VK_F7"),
        0x77 => Some("VK_F8"),
        0x78 => Some("VK_F9"),
        0x79 => Some("VK_F10"),
        0x7A => Some("VK_F11"),
        0x7B => Some("VK_F12"),
        0x7C => Some("VK_F13"),
        0x7D => Some("VK_F14"),
        0x7E => Some("VK_F15"),
        0x7F => Some("VK_F16"),
        0x80 => Some("VK_F17"),
        0x81 => Some("VK_F18"),
        0x82 => Some("VK_F19"),
        0x83 => Some("VK_F20"),
        0x84 => Some("VK_F21"),
        0x85 => Some("VK_F22"),
        0x86 => Some("VK_F23"),
        0x87 => Some("VK_F24"),
        0x90 => Some("VK_NUMLOCK"),
        0x91 => Some("VK_SCROLL"),
        0xA0 => Some("VK_LSHIFT"),
        0xA1 => Some("VK_RSHIFT"),
        0xA2 => Some("VK_LCONTROL"),
        0xA3 => Some("VK_RCONTROL"),
        0xA4 => Some("VK_LMENU"),
        0xA5 => Some("VK_RMENU"),
        0xA6 => Some("VK_BROWSER_BACK"),
        0xA7 => Some("VK_BROWSER_FORWARD"),
        0xA8 => Some("VK_BROWSER_REFRESH"),
        0xA9 => Some("VK_BROWSER_STOP"),
        0xAA => Some("VK_BROWSER_SEARCH"),
        0xAB => Some("VK_BROWSER_FAVORITES"),
        0xAC => Some("VK_BROWSER_HOME"),
        0xAD => Some("VK_VOLUME_MUTE"),
        0xAE => Some("VK_VOLUME_DOWN"),
        0xAF => Some("VK_VOLUME_UP"),
        0xB0 => Some("VK_MEDIA_NEXT_TRACK"),
        0xB1 => Some("VK_MEDIA_PREV_TRACK"),
        0xB2 => Some("VK_MEDIA_STOP"),
        0xB3 => Some("VK_MEDIA_PLAY_PAUSE"),
        0xB4 => Some("VK_LAUNCH_MAIL"),
        0xB5 => Some("VK_LAUNCH_MEDIA_SELECT"),
        0xB6 => Some("VK_LAUNCH_APP1"),
        0xB7 => Some("VK_LAUNCH_APP2"),
        0xBA => Some("VK_OEM_1"),
        0xBB => Some("VK_OEM_PLUS"),
        0xBC => Some("VK_OEM_COMMA"),
        0xBD => Some("VK_OEM_MINUS"),
        0xBE => Some("VK_OEM_PERIOD"),
        0xBF => Some("VK_OEM_2"),
        0xC0 => Some("VK_OEM_3"),
        0xDB => Some("VK_OEM_4"),
        0xDC => Some("VK_OEM_5"),
        0xDD => Some("VK_OEM_6"),
        0xDE => Some("VK_OEM_7"),
        0xDF => Some("VK_OEM_8"),
        0xE2 => Some("VK_OEM_102"),
        0xE5 => Some("VK_PROCESSKEY"),
        0xF6 => Some("VK_ATTN"),
        0xF7 => Some("VK_CRSEL"),
        0xF8 => Some("VK_EXSEL"),
        0xF9 => Some("VK_EREOF"),
        0xFA => Some("VK_PLAY"),
        0xFB => Some("VK_ZOOM"),
        0xFC => Some("VK_NONAME"),
        0xFD => Some("VK_PA1"),
        0xFE => Some("VK_OEM_CLEAR"),
        _ => None,
    }
}

fn digit_text(d: u8) -> (r: &'static str)
    requires
        d < 10,
    ensures
        r@ == seq![digit_char(d as nat)],
{
    proof {
        reveal_strlit("0");
        reveal_strlit("1");
        reveal_strlit("2");
        reveal_strlit("3");
        reveal_strlit("4");
        reveal_strlit("5");
        reveal_strlit("6");
        reveal_strlit("7");
        reveal_strlit("8");
        reveal_strlit("9");
    }
    match d {
        0 => "0",
        1 => "1",
        2 => "2",
        3 => "3",
        4 => "4",
        5 => "5",
        6 => "6",
        7 => "7",
        8 => "8",
        _ => "9",
    }
}

/// Appends the decimal numeral of `n` to `s`.
fn append_decimal(s: &mut String, n: u8)
    ensures
        final(s)@ == old(s)@ + decimal(n as nat),
    decreases n,
{
    if n >= 10 {
        append_decimal(s, n / 10);
    }
    s.append(digit_text(n % 10));
    assert(final(s)@ =~= old(s)@ + decimal(n as nat));
}

/// Relies on `String::from(char)`: a string holding that one character.
#[verifier::external_body]
fn char_text(c: char) -> (r: String)
    ensures
        r@ == seq![c],
{
    String::from(c)
}

/// The text shown for key code `k`: the character itself for a letter or a
/// digit, the code's name (such as `VK_RETURN`) where it has one, else
/// `CODE_` followed by the code in decimal.
pub fn keycode_to_string(k: u8) -> (r: String)
    ensures
        r@ == keycode_name(k),
{
    if (k >= 65 && k <= 90) || (k >= 48 && k <= 57) {
        return char_text(k as char);
    }
    match vk_table(k) {
        Some(name) => name.to_owned(),
        None => {
            let mut s = "CODE_".to_owned();
            append_decimal(&mut s, k);
            s
        },
    }
}

} // verus!
