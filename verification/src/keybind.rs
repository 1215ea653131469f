//! Keybind tokens: normalising what a config file holds, and a display form.
use vstd::prelude::*;

use crate::text::{
    chars_of, chars_of_all, has_prefix, is_text, join, join_with, parse_i32_spec,
    parse_i32_text, slice, starts_with, string_of, string_views, trim, trimmed, views,
};

verus! {

/// The keybind used when none is configured.
pub const DEFAULT_KEYBIND: &'static str = "KeyF";

/// The token that a legacy numeric key code stands for.
pub open spec fn legacy_token(code: i32) -> Option<Seq<char>> {
    match code {
        2 => Some("Num1"@),
        3 => Some("Num2"@),
        4 => Some("Num3"@),
        5 => Some("Num4"@),
        6 => Some("Num5"@),
        7 => Some("Num6"@),
        8 => Some("Num7"@),
        9 => Some("Num8"@),
        10 => Some("Num9"@),
        11 => Some("Num0"@),
        16 => Some("KeyQ"@),
        17 => Some("KeyW"@),
        18 => Some("KeyE"@),
        19 => Some("KeyR"@),
        20 => Some("KeyT"@),
        21 => Some("KeyY"@),
        22 => Some("KeyU"@),
        23 => Some("KeyI"@),
        24 => Some("KeyO"@),
        25 => Some("KeyP"@),
        29 => Some("ControlLeft"@),
        30 => Some("KeyA"@),
        31 => Some("KeyS"@),
        32 => Some("KeyD"@),
        33 => Some("KeyF"@),
        34 => Some("KeyG"@),
        35 => Some("KeyH"@),
        36 => Some("KeyJ"@),
        37 => Some("KeyK"@),
        38 => Some("KeyL"@),
        42 => Some("ShiftLeft"@),
        44 => Some("KeyZ"@),
        45 => Some("KeyX"@),
        46 => Some("KeyC"@),
        47 => Some("KeyV"@),
        48 => Some("KeyB"@),
        49 => Some("KeyN"@),
        50 => Some("KeyM"@),
        54 => Some("ShiftRight"@),
        56 => Some("Alt"@),
        57 => Some("Space"@),
        58 => Some("CapsLock"@),
        59 => Some("F1"@),
        60 => Some("F2"@),
        61 => Some("F3"@),
        62 => Some("F4"@),
        63 => Some("F5"@),
        64 => Some("F6"@),
        65 => Some("F7"@),
        66 => Some("F8"@),
        67 => Some("F9"@),
        68 => Some("F10"@),
        87 => Some("F11"@),
        88 => Some("F12"@),
        _ => None,
    }
}

/// What a configured token normalises to: nothing when it is blank, the token
/// for a legacy numeric code, else the token itself without surrounding
/// whitespace.
pub open spec fn normalized(raw: Seq<char>) -> Option<Seq<char>> {
    let t = trim(raw);
    if t.len() == 0 {
        None
    } else {
        match parse_i32_spec(t) {
            Some(code) => legacy_token(code),
            None => Some(t),
        }
    }
}

/// How one token is shown to the user.
pub open spec fn shown_token(t: Seq<char>) -> Seq<char> {
    if has_prefix(t, "Key"@) {
        t.subrange(3, t.len() as int)
    } else if has_prefix(t, "Num"@) {
        t.subrange(3, t.len() as int)
    } else if t == "ControlLeft"@ || t == "ControlRight"@ {
        "Ctrl"@
    } else if t == "ShiftLeft"@ || t == "ShiftRight"@ {
        "Shift"@
    } else if t == "Alt"@ || t == "AltGr"@ {
        "Alt"@
    } else if t == "Return"@ {
        "Enter"@
    } else if t == "Space"@ {
        "Space"@
    } else {
        t
    }
}

/// How a whole keybind is shown: `None` when it is empty, else its tokens
/// shown one by one and joined with ` + `.
pub open spec fn shown_keybind(tokens: Seq<Seq<char>>) -> Seq<char> {
    if tokens.len() == 0 {
        "None"@
    } else {
        join(tokens.map_values(|t: Seq<char>| shown_token(t)), " + "@)
    }
}

/// The token that a legacy numeric key code stands for, if any.
pub fn legacy_code_to_token(code: i32) -> (r: Option<&'static str>)
    ensures
        match r {
            Some(s) => legacy_token(code) == Some(s@),
            None => legacy_token(code) is None,
        },
{
    match code {
        2 => Some("Num1"),
        3 => Some("Num2"),
        4 => Some("Num3"),
        5 => Some("Num4"),
        6 => Some("Num5"),
        7 => Some("Num6"),
        8 => Some("Num7"),
        9 => Some("Num8"),
        10 => Some("Num9"),
        11 => Some("Num0"),
        16 => Some("KeyQ"),
        17 => Some("KeyW"),
        18 => Some("KeyE"),
        19 => Some("KeyR"),
        20 => Some("KeyT"),
        21 => Some("KeyY"),
        22 => Some("KeyU"),
        23 => Some("KeyI"),
        24 => Some("KeyO"),
        25 => Some("KeyP"),
        29 => Some("ControlLeft"),
        30 => Some("KeyA"),
        31 => Some("KeyS"),
        32 => Some("KeyD"),
        33 => Some("KeyF"),
        34 => Some("KeyG"),
        35 => Some("KeyH"),
        36 => Some("KeyJ"),
        37 => Some("KeyK"),
        38 => Some("KeyL"),
        42 => Some("ShiftLeft"),
        44 => Some("KeyZ"),
        45 => Some("KeyX"),
        46 => Some("KeyC"),
        47 => Some("KeyV"),
        48 => Some("KeyB"),
        49 => Some("KeyN"),
        50 => Some("KeyM"),
        54 => Some("ShiftRight"),
        56 => Some("Alt"),
        57 => Some("Space"),
        58 => Some("CapsLock"),
        59 => Some("F1"),
        60 => Some("F2"),
        61 => Some("F3"),
        62 => Some("F4"),
        63 => Some("F5"),
        64 => Some("F6"),
        65 => Some("F7"),
        66 => Some("F8"),
        67 => Some("F9"),
        68 => Some("F10"),
        87 => Some("F11"),
        88 => Some("F12"),
        _ => None,
    }
}

/// Normalises the characters of one configured token.
pub fn normalize_chars(raw: &Vec<char>) -> (r: Option<Vec<char>>)
    ensures
        match r {
            Some(t) => normalized(raw@) == Some(t@),
            None => normalized(raw@) is None,
        },
{
    let token = trimmed(raw);
    if token.len() == 0 {
        return None;
    }
    match parse_i32_text(&token) {
        Some(code) => match legacy_code_to_token(code) {
            Some(s) => Some(chars_of(s)),
            None => None,
        },
        None => Some(token),
    }
}

/// Normalises one configured token: blank gives nothing, a legacy numeric code
/// gives its token (or nothing when the code is unknown), anything else is kept
/// without its surrounding whitespace.
pub fn normalize_token(raw: &str) -> (r: Option<String>)
    ensures
        match r {
            Some(t) => normalized(raw@) == Some(t@),
            None => normalized(raw@) is None,
        },
{
    let v = chars_of(raw);
    match normalize_chars(&v) {
        Some(t) => Some(string_of(&t)),
        None => None,
    }
}

/// How one token is shown to the user.
pub fn display_chars(token: &Vec<char>) -> (out: Vec<char>)
    ensures
        out@ == shown_token(token@),
{
    proof {
        reveal_strlit("Key");
        reveal_strlit("Num");
    }
    let key = chars_of("Key");
    if starts_with(token, &key) {
        return slice(token, 3, token.len());
    }
    let num = chars_of("Num");
    if starts_with(token, &num) {
        return slice(token, 3, token.len());
    }
    if is_text(token, "ControlLeft") || is_text(token, "ControlRight") {
        chars_of("Ctrl")
    } else if is_text(token, "ShiftLeft") || is_text(token, "ShiftRight") {
        chars_of("Shift")
    } else if is_text(token, "Alt") || is_text(token, "AltGr") {
        chars_of("Alt")
    } else if is_text(token, "Return") {
        chars_of("Enter")
    } else if is_text(token, "Space") {
        chars_of("Space")
    } else {
        slice(token, 0, token.len())
    }
}

/// How one token is shown to the user (`KeyF` as `F`, `ControlLeft` as `Ctrl`, ...).
pub fn display_token(token: &str) -> (out: String)
    ensures
        out@ == shown_token(token@),
{
    let v = chars_of(token);
    let d = display_chars(&v);
    string_of(&d)
}

/// How a keybind is shown to the user: `None` when empty, else the shown tokens
/// joined with ` + `.
pub fn keybind_display(keybinds: &[String]) -> (out: String)
    ensures
        out@ == shown_keybind(string_views(keybinds@)),
{
    if keybinds.len() == 0 {
        return "None".to_owned();
    }
    let tokens = chars_of_all(keybinds);
    let mut shown: Vec<Vec<char>> = Vec::new();
    let mut i: usize = 0;
    while i < tokens.len()
        invariant
            i <= tokens.len(),
            views(shown@) == views(tokens@).take(i as int).map_values(|t: Seq<char>| shown_token(t)),
        decreases tokens.len() - i,
    {
        let d = display_chars(&tokens[i]);
        let ghost before = views(shown@);
        assert(views(tokens@).take(i + 1) =~= views(tokens@).take(i as int).push(tokens@[i as int]@));
        shown.push(d);
        assert(views(shown@) =~= before.push(shown_token(tokens@[i as int]@)));
        i = i + 1;
        assert(views(shown@) =~= views(tokens@).take(i as int).map_values(|t: Seq<char>| shown_token(t)));
    }
    assert(views(tokens@).take(tokens.len() as int) =~= views(tokens@));
    let sep = chars_of(" + ");
    let joined = join_with(&shown, &sep);
    string_of(&joined)
}

} // verus!
