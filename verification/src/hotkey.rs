//! Turning a keybind into a Win32 hotkey registration: modifier bits and a
//! virtual-key code.
use vstd::prelude::*;

use crate::text::{
    chars_of, chars_of_all, has_prefix, is_digit, is_text, parse_u32_spec, parse_u32_text, slice,
    starts_with, string_views, to_ascii_upper_char, upper_char, views,
};

verus! {

/// Hotkey modifier bit for either Alt key (Win32 `MOD_ALT`).
pub const MOD_ALT: u32 = 0x0001;

/// Hotkey modifier bit for either Ctrl key (Win32 `MOD_CONTROL`).
pub const MOD_CONTROL: u32 = 0x0002;

/// Hotkey modifier bit for either Shift key (Win32 `MOD_SHIFT`).
pub const MOD_SHIFT: u32 = 0x0004;

/// Hotkey modifier bit that keeps a held key from repeating (Win32 `MOD_NOREPEAT`).
pub const MOD_NOREPEAT: u32 = 0x4000;

/// The virtual-key code of a token that names a key outright.
pub open spec fn named_vk(t: Seq<char>) -> Option<u32> {
    if t == "Space"@ {
        Some(0x20)
    } else if t == "Tab"@ {
        Some(0x09)
    } else if t == "Backspace"@ {
        Some(0x08)
    } else if t == "Return"@ {
        Some(0x0D)
    } else if t == "Escape"@ {
        Some(0x1B)
    } else if t == "CapsLock"@ {
        Some(0x14)
    } else if t == "NumLock"@ {
        Some(0x90)
    } else if t == "ScrollLock"@ {
        Some(0x91)
    } else if t == "PrintScreen"@ {
        Some(0x2C)
    } else if t == "Pause"@ {
        Some(0x13)
    } else if t == "Menu"@ {
        Some(0x5D)
    } else if t == "MetaLeft"@ {
        Some(0x5B)
    } else if t == "MetaRight"@ {
        Some(0x5C)
    } else if t == "Command"@ {
        Some(0x5B)
    } else if t == "Super"@ {
        Some(0x5B)
    } else if t == "Win"@ {
        Some(0x5B)
    } else if t == "Insert"@ {
        Some(0x2D)
    } else if t == "Delete"@ {
        Some(0x2E)
    } else if t == "Home"@ {
        Some(0x24)
    } else if t == "End"@ {
        Some(0x23)
    } else if t == "PageUp"@ {
        Some(0x21)
    } else if t == "PageDown"@ {
        Some(0x22)
    } else if t == "UpArrow"@ {
        Some(0x26)
    } else if t == "DownArrow"@ {
        Some(0x28)
    } else if t == "LeftArrow"@ {
        Some(0x25)
    } else if t == "RightArrow"@ {
        Some(0x27)
    } else if t == "Minus"@ {
        Some(0xBD)
    } else if t == "Equal"@ {
        Some(0xBB)
    } else if t == "Comma"@ {
        Some(0xBC)
    } else if t == "Period"@ {
        Some(0xBE)
    } else if t == "Slash"@ {
        Some(0xBF)
    } else if t == "BackSlash"@ {
        Some(0xDC)
    } else if t == "Apostrophe"@ {
        Some(0xDE)
    } else if t == "Quote"@ {
        Some(0xDE)
    } else if t == "Semicolon"@ {
        Some(0xBA)
    } else if t == "Grave"@ {
        Some(0xC0)
    } else if t == "Backquote"@ {
        Some(0xC0)
    } else if t == "BracketLeft"@ {
        Some(0xDB)
    } else if t == "BracketRight"@ {
        Some(0xDD)
    } else {
        None
    }
}

/// The virtual-key code of a function-key token `F1` .. `F12`, else of a named key.
pub open spec fn vk_after_num(t: Seq<char>) -> Option<u32> {
    if has_prefix(t, "F"@) {
        match parse_u32_spec(t.subrange(1, t.len() as int)) {
            Some(n) => if 1 <= n <= 12 {
                Some((0x70 + (n - 1)) as u32)
            } else {
                named_vk(t)
            },
            None => named_vk(t),
        }
    } else {
        named_vk(t)
    }
}

/// The virtual-key code of a `Num<digit>` token, else of the tokens after it.
/// `Num` with nothing after it has none.
pub open spec fn vk_after_key(t: Seq<char>) -> Option<u32> {
    if has_prefix(t, "Num"@) {
        if t.len() == 3 {
            None
        } else if is_digit(t[3]) {
            Some(t[3] as u32)
        } else {
            vk_after_num(t)
        }
    } else {
        vk_after_num(t)
    }
}

/// The virtual-key code of a token: for `Key<c>` the uppercase letter or the
/// digit `c` (`Key` with nothing after it has none), for `Num<d>` the digit,
/// for `F1` .. `F12` the function key, else the code of a named key.
pub open spec fn vk_of(t: Seq<char>) -> Option<u32> {
    if has_prefix(t, "Key"@) {
        if t.len() == 3 {
            None
        } else if 'A' <= upper_char(t[3]) && upper_char(t[3]) <= 'Z' {
            Some(upper_char(t[3]) as u32)
        } else if is_digit(t[3]) {
            Some(t[3] as u32)
        } else {
            vk_after_key(t)
        }
    } else {
        vk_after_key(t)
    }
}

/// The modifier bits and the one key seen in `tokens` so far; nothing once a
/// token has no key code or a second key shows up.
pub open spec fn hotkey_scan(tokens: Seq<Seq<char>>) -> Option<(u32, Option<u32>)>
    decreases tokens.len(),
{
    if tokens.len() == 0 {
        Some((0u32, None))
    } else {
        match hotkey_scan(tokens.drop_last()) {
            None => None,
            Some(acc) => {
                let t = tokens.last();
                if t == "ControlLeft"@ || t == "ControlRight"@ {
                    Some((acc.0 | MOD_CONTROL, acc.1))
                } else if t == "ShiftLeft"@ || t == "ShiftRight"@ {
                    Some((acc.0 | MOD_SHIFT, acc.1))
                } else if t == "Alt"@ || t == "AltGr"@ {
                    Some((acc.0 | MOD_ALT, acc.1))
                } else {
                    match vk_of(t) {
                        None => None,
                        Some(vk) => if acc.1 is Some {
                            None
                        } else {
                            Some((acc.0, Some(vk)))
                        },
                    }
                }
            },
        }
    }
}

/// The hotkey registration for a keybind: its modifier bits with
/// `MOD_NOREPEAT` added, and the code of its one non-modifier key; nothing when
/// a token has no code or the keybind holds no key or more than one.
pub open spec fn hotkey_of(tokens: Seq<Seq<char>>) -> Option<(u32, u32)> {
    match hotkey_scan(tokens) {
        Some((mods, Some(vk))) => Some((mods | MOD_NOREPEAT, vk)),
        _ => None,
    }
}

fn named_vk_text(t: &Vec<char>) -> (r: Option<u32>)
    ensures
        r == named_vk(t@),
{
    if is_text(t, "Space") {
        Some(0x20)
    } else if is_text(t, "Tab") {
        Some(0x09)
    } else if is_text(t, "Backspace") {
        Some(0x08)
    } else if is_text(t, "Return") {
        Some(0x0D)
    } else if is_text(t, "Escape") {
        Some(0x1B)
    } else if is_text(t, "CapsLock") {
        Some(0x14)
    } else if is_text(t, "NumLock") {
        Some(0x90)
    } else if is_text(t, "ScrollLock") {
        Some(0x91)
    } else if is_text(t, "PrintScreen") {
        Some(0x2C)
    } else if is_text(t, "Pause") {
        Some(0x13)
    } else if is_text(t, "Menu") {
        Some(0x5D)
    } else if is_text(t, "MetaLeft") {
        Some(0x5B)
    } else if is_text(t, "MetaRight") {
        Some(0x5C)
    } else if is_text(t, "Command") {
        Some(0x5B)
    } else if is_text(t, "Super") {
        Some(0x5B)
    } else if is_text(t, "Win") {
        Some(0x5B)
    } else if is_text(t, "Insert") {
        Some(0x2D)
    } else if is_text(t, "Delete") {
        Some(0x2E)
    } else if is_text(t, "Home") {
        Some(0x24)
    } else if is_text(t, "End") {
        Some(0x23)
    } else if is_text(t, "PageUp") {
        Some(0x21)
    } else if is_text(t, "PageDown") {
        Some(0x22)
    } else if is_text(t, "UpArrow") {
        Some(0x26)
    } else if is_text(t, "DownArrow") {
        Some(0x28)
    } else if is_text(t, "LeftArrow") {
        Some(0x25)
    } else if is_text(t, "RightArrow") {
        Some(0x27)
    } else if is_text(t, "Minus") {
        Some(0xBD)
    } else if is_text(t, "Equal") {
        Some(0xBB)
    } else if is_text(t, "Comma") {
        Some(0xBC)
    } else if is_text(t, "Period") {
        Some(0xBE)
    } else if is_text(t, "Slash") {
        Some(0xBF)
    } else if is_text(t, "BackSlash") {
        Some(0xDC)
    } else if is_text(t, "Apostrophe") {
        Some(0xDE)
    } else if is_text(t, "Quote") {
        Some(0xDE)
    } else if is_text(t, "Semicolon") {
        Some(0xBA)
    } else if is_text(t, "Grave") {
        Some(0xC0)
    } else if is_text(t, "Backquote") {
        Some(0xC0)
    } else if is_text(t, "BracketLeft") {
        Some(0xDB)
    } else if is_text(t, "BracketRight") {
        Some(0xDD)
    } else {
        None
    }
}

fn vk_after_num_text(t: &Vec<char>) -> (r: Option<u32>)
    ensures
        r == vk_after_num(t@),
{
    proof {
        reveal_strlit("F");
    }
    let f = chars_of("F");
    if starts_with(t, &f) {
        let rest = slice(t, 1, t.len());
        match parse_u32_text(&rest) {
            Some(n) => {
                if 1 <= n && n <= 12 {
                    return Some(0x70 + (n - 1));
                }
            },
            None => {},
        }
    }
    named_vk_text(t)
}

fn vk_after_key_text(t: &Vec<char>) -> (r: Option<u32>)
    ensures
        r == vk_after_key(t@),
{
    proof {
        reveal_strlit("Num");
    }
    let num = chars_of("Num");
    if starts_with(t, &num) {
        if t.len() == 3 {
            return None;
        }
        let ch = t[3];
        if '0' <= ch && ch <= '9' {
            return Some(ch as u32);
        }
    }
    vk_after_num_text(t)
}

/// The virtual-key code of the characters of a token (see `vk_of`).
pub fn vk_of_chars(t: &Vec<char>) -> (r: Option<u32>)
    ensures
        r == vk_of(t@),
{
    proof {
        reveal_strlit("Key");
    }
    let key = chars_of("Key");
    if starts_with(t, &key) {
        if t.len() == 3 {
            return None;
        }
        let ch = t[3];
        let upper = to_ascii_upper_char(ch);
        if 'A' <= upper && upper <= 'Z' {
            return Some(upper as u32);
        }
        if '0' <= ch && ch <= '9' {
            return Some(ch as u32);
        }
    }
    vk_after_key_text(t)
}

/// The virtual-key code of a token (see `vk_of`).
pub fn token_to_vk(token: &str) -> (r: Option<u32>)
    ensures
        r == vk_of(token@),
{
    let t = chars_of(token);
    vk_of_chars(&t)
}

/// The hotkey registration for a keybind (see `hotkey_of`).
pub fn parse_hotkey(tokens: &[String]) -> (r: Option<(u32, u32)>)
    ensures
        r == hotkey_of(string_views(tokens@)),
{
    let ts = chars_of_all(tokens);
    let ghost all = views(ts@);
    let mut modifiers: u32 = 0;
    let mut key_vk: Option<u32> = None;
    let mut i: usize = 0;
    assert(all.take(0) =~= Seq::<Seq<char>>::empty());
    while i < ts.len()
        invariant
            i <= ts.len(),
            all == views(ts@),
            all == string_views(tokens@),
            hotkey_scan(all.take(i as int)) == Some((modifiers, key_vk)),
        decreases ts.len() - i,
    {
        let t = &ts[i];
        assert(all.take(i + 1).drop_last() =~= all.take(i as int));
        assert(all.take(i + 1).last() == t@);
        if is_text(t, "ControlLeft") || is_text(t, "ControlRight") {
            modifiers = modifiers | MOD_CONTROL;
        } else if is_text(t, "ShiftLeft") || is_text(t, "ShiftRight") {
            modifiers = modifiers | MOD_SHIFT;
        } else if is_text(t, "Alt") || is_text(t, "AltGr") {
            modifiers = modifiers | MOD_ALT;
        } else {
            match vk_of_chars(t) {
                None => {
                    proof {
                        lemma_scan_stays_none(all, i as int + 1);
                    }
                    return None;
                },
                Some(vk) => {
                    if key_vk.is_some() {
                        proof {
                            lemma_scan_stays_none(all, i as int + 1);
                        }
                        return None;
                    }
                    key_vk = Some(vk);
                },
            }
        }
        i = i + 1;
    }
    assert(all.take(ts.len() as int) =~= all);
    match key_vk {
        Some(vk) => Some((modifiers | MOD_NOREPEAT, vk)),
        None => None,
    }
}

/// Once the scan has failed on a prefix, it fails on every longer prefix.
proof fn lemma_scan_stays_none(all: Seq<Seq<char>>, i: int)
    requires
        0 <= i <= all.len(),
        hotkey_scan(all.take(i)) is None,
    ensures
        hotkey_scan(all) is None,
    decreases all.len() - i,
{
    if i < all.len() {
        assert(all.take(i + 1).drop_last() =~= all.take(i));
        lemma_scan_stays_none(all, i + 1);
    } else {
        assert(all.take(i) =~= all);
    }
}

/// Every hotkey registration asks for no key repeat.
pub proof fn law_hotkey_no_repeat(tokens: Seq<Seq<char>>)
    ensures
        hotkey_of(tokens) matches Some((mods, _)) ==> mods & MOD_NOREPEAT == MOD_NOREPEAT,
{
    if let Some((mods, vk)) = hotkey_scan(tokens) {
        let m = mods;
        assert((m | 0x4000u32) & 0x4000u32 == 0x4000u32) by (bit_vector);
    }
}

/// A modifier token: Ctrl, Shift or Alt on either side.
pub open spec fn is_modifier_token(t: Seq<char>) -> bool {
    t == "ControlLeft"@ || t == "ControlRight"@ || t == "ShiftLeft"@ || t == "ShiftRight"@ || t == "Alt"@
        || t == "AltGr"@
}

proof fn lemma_modifiers_only_scan(tokens: Seq<Seq<char>>)
    requires
        forall|i: int| 0 <= i < tokens.len() ==> is_modifier_token(#[trigger] tokens[i]),
    ensures
        hotkey_scan(tokens) matches Some((_, key)) && key is None,
    decreases tokens.len(),
{
    if tokens.len() > 0 {
        let d = tokens.drop_last();
        assert forall|i: int| 0 <= i < d.len() implies is_modifier_token(#[trigger] d[i]) by {
            assert(d[i] == tokens[i]);
        }
        lemma_modifiers_only_scan(d);
        assert(is_modifier_token(tokens[tokens.len() - 1]));
    }
}

/// A keybind of modifiers alone cannot be a hotkey.
pub proof fn law_modifiers_alone_no_hotkey(tokens: Seq<Seq<char>>)
    requires
        forall|i: int| 0 <= i < tokens.len() ==> is_modifier_token(#[trigger] tokens[i]),
    ensures
        hotkey_of(tokens) is None,
{
    lemma_modifiers_only_scan(tokens);
}

/// The tokens of a keybind that are not modifiers, in order.
pub open spec fn key_tokens(tokens: Seq<Seq<char>>) -> Seq<Seq<char>>
    decreases tokens.len(),
{
    if tokens.len() == 0 {
        tokens
    } else {
        let r = key_tokens(tokens.drop_last());
        if is_modifier_token(tokens.last()) {
            r
        } else {
            r.push(tokens.last())
        }
    }
}

/// The modifier bits for which modifiers are present.
pub open spec fn modifier_bits_of(ctrl: bool, shift: bool, alt: bool) -> u32 {
    (if ctrl { MOD_CONTROL } else { 0u32 }) | (if shift { MOD_SHIFT } else { 0u32 }) | (if alt { MOD_ALT } else { 0u32 })
}

/// The modifier bits of a keybind: Ctrl when either Ctrl token is in it, Shift
/// when either Shift token is, Alt when `Alt` or `AltGr` is.
pub open spec fn modifier_bits(tokens: Seq<Seq<char>>) -> u32 {
    modifier_bits_of(
        tokens.contains("ControlLeft"@) || tokens.contains("ControlRight"@),
        tokens.contains("ShiftLeft"@) || tokens.contains("ShiftRight"@),
        tokens.contains("Alt"@) || tokens.contains("AltGr"@),
    )
}

/// The hotkey of a keybind in closed form: there is one exactly when the
/// keybind holds exactly one non-modifier token and that token has a key code;
/// its modifier bits are those of the modifiers present, plus `MOD_NOREPEAT`.
pub open spec fn hotkey_closed_form(tokens: Seq<Seq<char>>) -> Option<(u32, u32)> {
    let k = key_tokens(tokens);
    if k.len() == 1 && vk_of(k[0]) is Some {
        Some((modifier_bits(tokens) | MOD_NOREPEAT, vk_of(k[0]).unwrap()))
    } else {
        None
    }
}

/// The six modifier names are pairwise distinct.
pub proof fn lemma_modifier_literals()
    ensures
        "ControlLeft"@ != "ControlRight"@,
        "ControlLeft"@ != "ShiftLeft"@,
        "ControlLeft"@ != "ShiftRight"@,
        "ControlLeft"@ != "Alt"@,
        "ControlLeft"@ != "AltGr"@,
        "ControlRight"@ != "ShiftLeft"@,
        "ControlRight"@ != "ShiftRight"@,
        "ControlRight"@ != "Alt"@,
        "ControlRight"@ != "AltGr"@,
        "ShiftLeft"@ != "ShiftRight"@,
        "ShiftLeft"@ != "Alt"@,
        "ShiftLeft"@ != "AltGr"@,
        "ShiftRight"@ != "Alt"@,
        "ShiftRight"@ != "AltGr"@,
        "Alt"@ != "AltGr"@,
{
    reveal_strlit("ControlLeft");
    reveal_strlit("ControlRight");
    reveal_strlit("ShiftLeft");
    reveal_strlit("ShiftRight");
    reveal_strlit("Alt");
    reveal_strlit("AltGr");
    assert("ControlLeft"@[0] != "ShiftLeft"@[0]);
    assert("ControlLeft"@[0] != "ShiftRight"@[0]);
    assert("ControlRight"@[0] != "ShiftLeft"@[0]);
    assert("ControlRight"@[0] != "ShiftRight"@[0]);
    assert("ShiftLeft"@[5] != "ShiftRight"@[5]);
    assert("ControlLeft"@.len() != "ControlRight"@.len());
    assert("Alt"@.len() != "AltGr"@.len());
    assert("ControlLeft"@[0] != "Alt"@[0]);
    assert("ControlRight"@[0] != "Alt"@[0]);
    assert("ShiftLeft"@[0] != "Alt"@[0]);
    assert("ShiftRight"@[0] != "Alt"@[0]);
    assert("ControlLeft"@[0] != "AltGr"@[0]);
    assert("ControlRight"@[0] != "AltGr"@[0]);
    assert("ShiftLeft"@[0] != "AltGr"@[0]);
    assert("ShiftRight"@[0] != "AltGr"@[0]);
}

proof fn lemma_bits_add(c: bool, sh: bool, a: bool)
    ensures
        modifier_bits_of(c, sh, a) | MOD_CONTROL == modifier_bits_of(true, sh, a),
        modifier_bits_of(c, sh, a) | MOD_SHIFT == modifier_bits_of(c, true, a),
        modifier_bits_of(c, sh, a) | MOD_ALT == modifier_bits_of(c, sh, true),
{
    assert(((if c { 2u32 } else { 0u32 }) | (if sh { 4u32 } else { 0u32 }) | (if a { 1u32 } else { 0u32 })) | 2u32
        == (2u32 | (if sh { 4u32 } else { 0u32 }) | (if a { 1u32 } else { 0u32 }))) by (bit_vector);
    assert(((if c { 2u32 } else { 0u32 }) | (if sh { 4u32 } else { 0u32 }) | (if a { 1u32 } else { 0u32 })) | 4u32
        == ((if c { 2u32 } else { 0u32 }) | 4u32 | (if a { 1u32 } else { 0u32 }))) by (bit_vector);
    assert(((if c { 2u32 } else { 0u32 }) | (if sh { 4u32 } else { 0u32 }) | (if a { 1u32 } else { 0u32 })) | 1u32
        == ((if c { 2u32 } else { 0u32 }) | (if sh { 4u32 } else { 0u32 }) | 1u32)) by (bit_vector);
}

proof fn lemma_contains_push(s: Seq<Seq<char>>, t: Seq<char>, x: Seq<char>)
    ensures
        s.push(t).contains(x) == (s.contains(x) || t == x),
{
    if s.push(t).contains(x) && t != x {
        let i = choose|i: int| 0 <= i < s.push(t).len() && s.push(t)[i] == x;
        assert(s[i] == x);
    }
    if s.contains(x) {
        let i = choose|i: int| 0 <= i < s.len() && s[i] == x;
        assert(s.push(t)[i] == x);
    }
    if t == x {
        assert(s.push(t)[s.len() as int] == x);
    }
}

proof fn lemma_scan_closed(tokens: Seq<Seq<char>>)
    ensures
        hotkey_scan(tokens) == ({
            let k = key_tokens(tokens);
            if k.len() == 0 {
                Some((modifier_bits(tokens), None::<u32>))
            } else if k.len() == 1 && vk_of(k[0]) is Some {
                Some((modifier_bits(tokens), vk_of(k[0])))
            } else {
                None
            }
        }),
    decreases tokens.len(),
{
    reveal_strlit("Alt");
    if tokens.len() == 0 {
        assert(!tokens.contains("ControlLeft"@) && !tokens.contains("ControlRight"@));
        assert(!tokens.contains("ShiftLeft"@) && !tokens.contains("ShiftRight"@));
        assert(!tokens.contains("Alt"@) && !tokens.contains("AltGr"@));
        assert((0u32 | 0u32 | 0u32) == 0u32) by (bit_vector);
    } else {
        let d = tokens.drop_last();
        let t = tokens.last();
        assert(d.push(t) =~= tokens);
        lemma_scan_closed(d);
        lemma_modifier_literals();
        lemma_contains_push(d, t, "ControlLeft"@);
        lemma_contains_push(d, t, "ControlRight"@);
        lemma_contains_push(d, t, "ShiftLeft"@);
        lemma_contains_push(d, t, "ShiftRight"@);
        lemma_contains_push(d, t, "Alt"@);
        lemma_contains_push(d, t, "AltGr"@);
        let c = d.contains("ControlLeft"@) || d.contains("ControlRight"@);
        let sh = d.contains("ShiftLeft"@) || d.contains("ShiftRight"@);
        let a = d.contains("Alt"@) || d.contains("AltGr"@);
        lemma_bits_add(c, sh, a);
        let k = key_tokens(d);
        if !is_modifier_token(t) {
            let k2 = k.push(t);
            assert(key_tokens(tokens) == k2);
            if k.len() == 0 {
                assert(k2[0] == t);
            } else if k.len() == 1 {
                assert(k2.len() == 2);
            }
        }
    }
}

/// A keybind has a hotkey exactly when it holds exactly one non-modifier token
/// and that token has a key code; the modifier bits are those of the modifiers
/// present, plus `MOD_NOREPEAT`.
pub proof fn law_hotkey_closed_form(tokens: Seq<Seq<char>>)
    ensures
        hotkey_of(tokens) == hotkey_closed_form(tokens),
{
    lemma_scan_closed(tokens);
}

proof fn lemma_key_tokens_count(tokens: Seq<Seq<char>>, x: Seq<char>)
    ensures
        key_tokens(tokens).to_multiset().count(x) == if is_modifier_token(x) { 0 } else { tokens.to_multiset().count(x) },
    decreases tokens.len(),
{
    broadcast use vstd::seq_lib::group_to_multiset_ensures;
    if tokens.len() == 0 {
        assert(key_tokens(tokens) =~= Seq::<Seq<char>>::empty());
    } else {
        let d = tokens.drop_last();
        assert(d.push(tokens.last()) =~= tokens);
        lemma_key_tokens_count(d, x);
    }
}

proof fn lemma_contains_by_multiset(s: Seq<Seq<char>>, p: Seq<Seq<char>>, x: Seq<char>)
    requires
        s.to_multiset() == p.to_multiset(),
    ensures
        s.contains(x) == p.contains(x),
{
    broadcast use vstd::seq_lib::group_to_multiset_ensures;
    s.to_multiset_ensures();
    p.to_multiset_ensures();
    assert(s.to_multiset().count(x) == p.to_multiset().count(x));
    assert(s.contains(x) <==> s.to_multiset().count(x) > 0);
    assert(p.contains(x) <==> p.to_multiset().count(x) > 0);
}

/// The hotkey of a keybind does not depend on the order of its tokens: any
/// reordering (the same tokens, each as often) has the same hotkey.
pub proof fn law_hotkey_order_free(tokens: Seq<Seq<char>>, reordered: Seq<Seq<char>>)
    requires
        reordered.to_multiset() == tokens.to_multiset(),
    ensures
        hotkey_of(reordered) == hotkey_of(tokens),
{
    broadcast use vstd::seq_lib::group_to_multiset_ensures;
    law_hotkey_closed_form(tokens);
    law_hotkey_closed_form(reordered);
    lemma_contains_by_multiset(tokens, reordered, "ControlLeft"@);
    lemma_contains_by_multiset(tokens, reordered, "ControlRight"@);
    lemma_contains_by_multiset(tokens, reordered, "ShiftLeft"@);
    lemma_contains_by_multiset(tokens, reordered, "ShiftRight"@);
    lemma_contains_by_multiset(tokens, reordered, "Alt"@);
    lemma_contains_by_multiset(tokens, reordered, "AltGr"@);
    let k1 = key_tokens(tokens);
    let k2 = key_tokens(reordered);
    assert forall|x: Seq<char>| k1.to_multiset().count(x) == k2.to_multiset().count(x) by {
        lemma_key_tokens_count(tokens, x);
        lemma_key_tokens_count(reordered, x);
    }
    assert(k1.to_multiset() =~= k2.to_multiset());
    assert(k1.to_multiset().len() == k2.to_multiset().len());
    assert(k1.len() == k2.len());
    if k1.len() == 1 {
        assert(k1.contains(k1[0]));
        assert(k1.to_multiset().count(k1[0]) > 0);
        assert(k2.to_multiset().count(k1[0]) > 0);
        assert(k2.contains(k1[0]));
        let i = choose|i: int| 0 <= i < k2.len() && k2[i] == k1[0];
        assert(k2[0] == k1[0]);
    }
}

} // verus!
