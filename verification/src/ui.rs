//! Capturing a keybind from the settings window: the window's keys as tokens,
//! and the keybind that the modifiers and keys pressed in one frame make.
use vstd::prelude::*;

use crate::text::{chars_of, holds_chars, string_views, strings_of_all, views};

verus! {

/// A key as the settings window reports it.
#[derive(Clone, Copy, Debug, PartialEq, Eq, Structural)]
pub enum UiKey {
    A,
    B,
    C,
    D,
    E,
    F,
    G,
    H,
    I,
    J,
    K,
    L,
    M,
    N,
    O,
    P,
    Q,
    R,
    S,
    T,
    U,
    V,
    W,
    X,
    Y,
    Z,
    Num0,
    Num1,
    Num2,
    Num3,
    Num4,
    Num5,
    Num6,
    Num7,
    Num8,
    Num9,
    ArrowDown,
    ArrowLeft,
    ArrowRight,
    ArrowUp,
    Escape,
    Tab,
    Backspace,
    Enter,
    Space,
    Insert,
    Delete,
    Home,
    End,
    PageUp,
    PageDown,
    F1,
    F2,
    F3,
    F4,
    F5,
    F6,
    F7,
    F8,
    F9,
    F10,
    F11,
    F12,
    /// Any key without a token.
    Other,
}

/// The token of a window key, in the naming the global key listener uses.
pub open spec fn ui_token(key: UiKey) -> Option<Seq<char>> {
    match key {
        UiKey::A => Some("KeyA"@),
        UiKey::B => Some("KeyB"@),
        UiKey::C => Some("KeyC"@),
        UiKey::D => Some("KeyD"@),
        UiKey::E => Some("KeyE"@),
        UiKey::F => Some("KeyF"@),
        UiKey::G => Some("KeyG"@),
        UiKey::H => Some("KeyH"@),
        UiKey::I => Some("KeyI"@),
        UiKey::J => Some("KeyJ"@),
        UiKey::K => Some("KeyK"@),
        UiKey::L => Some("KeyL"@),
        UiKey::M => Some("KeyM"@),
        UiKey::N => Some("KeyN"@),
        UiKey::O => Some("KeyO"@),
        UiKey::P => Some("KeyP"@),
        UiKey::Q => Some("KeyQ"@),
        UiKey::R => Some("KeyR"@),
        UiKey::S => Some("KeyS"@),
        UiKey::T => Some("KeyT"@),
        UiKey::U => Some("KeyU"@),
        UiKey::V => Some("KeyV"@),
        UiKey::W => Some("KeyW"@),
        UiKey::X => Some("KeyX"@),
        UiKey::Y => Some("KeyY"@),
        UiKey::Z => Some("KeyZ"@),
        UiKey::Num0 => Some("Num0"@),
        UiKey::Num1 => Some("Num1"@),
        UiKey::Num2 => Some("Num2"@),
        UiKey::Num3 => Some("Num3"@),
        UiKey::Num4 => Some("Num4"@),
        UiKey::Num5 => Some("Num5"@),
        UiKey::Num6 => Some("Num6"@),
        UiKey::Num7 => Some("Num7"@),
        UiKey::Num8 => Some("Num8"@),
        UiKey::Num9 => Some("Num9"@),
        UiKey::ArrowDown => Some("DownArrow"@),
        UiKey::ArrowLeft => Some("LeftArrow"@),
        UiKey::ArrowRight => Some("RightArrow"@),
        UiKey::ArrowUp => Some("UpArrow"@),
        UiKey::Escape => Some("Escape"@),
        UiKey::Tab => Some("Tab"@),
        UiKey::Backspace => Some("Backspace"@),
        UiKey::Enter => Some("Return"@),
        UiKey::Space => Some("Space"@),
        UiKey::Insert => Some("Insert"@),
        UiKey::Delete => Some("Delete"@),
        UiKey::Home => Some("Home"@),
        UiKey::End => Some("End"@),
        UiKey::PageUp => Some("PageUp"@),
        UiKey::PageDown => Some("PageDown"@),
        UiKey::F1 => Some("F1"@),
        UiKey::F2 => Some("F2"@),
        UiKey::F3 => Some("F3"@),
        UiKey::F4 => Some("F4"@),
        UiKey::F5 => Some("F5"@),
        UiKey::F6 => Some("F6"@),
        UiKey::F7 => Some("F7"@),
        UiKey::F8 => Some("F8"@),
        UiKey::F9 => Some("F9"@),
        UiKey::F10 => Some("F10"@),
        UiKey::F11 => Some("F11"@),
        UiKey::F12 => Some("F12"@),
        UiKey::Other => None,
    }
}

/// The token of a window key (see `ui_token`).
pub fn ui_key_token(key: UiKey) -> (r: Option<&'static str>)
    ensures
        match r {
            Some(s) => ui_token(key) == Some(s@),
            None => ui_token(key) is None,
        },
{
    match key {
        UiKey::A => Some("KeyA"),
        UiKey::B => Some("KeyB"),
        UiKey::C => Some("KeyC"),
        UiKey::D => Some("KeyD"),
        UiKey::E => Some("KeyE"),
        UiKey::F => Some("KeyF"),
        UiKey::G => Some("KeyG"),
        UiKey::H => Some("KeyH"),
        UiKey::I => Some("KeyI"),
        UiKey::J => Some("KeyJ"),
        UiKey::K => Some("KeyK"),
        UiKey::L => Some("KeyL"),
        UiKey::M => Some("KeyM"),
        UiKey::N => Some("KeyN"),
        UiKey::O => Some("KeyO"),
        UiKey::P => Some("KeyP"),
        UiKey::Q => Some("KeyQ"),
        UiKey::R => Some("KeyR"),
        UiKey::S => Some("KeyS"),
        UiKey::T => Some("KeyT"),
        UiKey::U => Some("KeyU"),
        UiKey::V => Some("KeyV"),
        UiKey::W => Some("KeyW"),
        UiKey::X => Some("KeyX"),
        UiKey::Y => Some("KeyY"),
        UiKey::Z => Some("KeyZ"),
        UiKey::Num0 => Some("Num0"),
        UiKey::Num1 => Some("Num1"),
        UiKey::Num2 => Some("Num2"),
        UiKey::Num3 => Some("Num3"),
        UiKey::Num4 => Some("Num4"),
        UiKey::Num5 => Some("Num5"),
        UiKey::Num6 => Some("Num6"),
        UiKey::Num7 => Some("Num7"),
        UiKey::Num8 => Some("Num8"),
        UiKey::Num9 => Some("Num9"),
        UiKey::ArrowDown => Some("DownArrow"),
        UiKey::ArrowLeft => Some("LeftArrow"),
        UiKey::ArrowRight => Some("RightArrow"),
        UiKey::ArrowUp => Some("UpArrow"),
        UiKey::Escape => Some("Escape"),
        UiKey::Tab => Some("Tab"),
        UiKey::Backspace => Some("Backspace"),
        UiKey::Enter => Some("Return"),
        UiKey::Space => Some("Space"),
        UiKey::Insert => Some("Insert"),
        UiKey::Delete => Some("Delete"),
        UiKey::Home => Some("Home"),
        UiKey::End => Some("End"),
        UiKey::PageUp => Some("PageUp"),
        UiKey::PageDown => Some("PageDown"),
        UiKey::F1 => Some("F1"),
        UiKey::F2 => Some("F2"),
        UiKey::F3 => Some("F3"),
        UiKey::F4 => Some("F4"),
        UiKey::F5 => Some("F5"),
        UiKey::F6 => Some("F6"),
        UiKey::F7 => Some("F7"),
        UiKey::F8 => Some("F8"),
        UiKey::F9 => Some("F9"),
        UiKey::F10 => Some("F10"),
        UiKey::F11 => Some("F11"),
        UiKey::F12 => Some("F12"),
        UiKey::Other => None,
    }
}

/// The modifier tokens held: Ctrl, then Shift, then Alt.
pub open spec fn modifier_tokens(ctrl: bool, shift: bool, alt: bool) -> Seq<Seq<char>> {
    let a = if ctrl { seq!["ControlLeft"@] } else { Seq::<Seq<char>>::empty() };
    let b = if shift { a.push("ShiftLeft"@) } else { a };
    if alt { b.push("Alt"@) } else { b }
}

/// `start` followed by the tokens of `keys`, each added only when not already
/// there; keys without a token are skipped.
pub open spec fn with_key_tokens(start: Seq<Seq<char>>, keys: Seq<UiKey>) -> Seq<Seq<char>>
    decreases keys.len(),
{
    if keys.len() == 0 {
        start
    } else {
        let acc = with_key_tokens(start, keys.drop_last());
        match ui_token(keys.last()) {
            Some(t) => if acc.contains(t) {
                acc
            } else {
                acc.push(t)
            },
            None => acc,
        }
    }
}

/// The keybind captured from one frame: the modifier tokens, then the tokens of
/// the keys pressed in it; nothing when that is empty.
pub open spec fn captured_keybind(ctrl: bool, shift: bool, alt: bool, keys: Seq<UiKey>) -> Option<Seq<Seq<char>>> {
    let tokens = with_key_tokens(modifier_tokens(ctrl, shift, alt), keys);
    if tokens.len() == 0 {
        None
    } else {
        Some(tokens)
    }
}

/// The keybind captured from one frame of the settings window: the held
/// modifiers and the keys pressed in it, in order and without repeats (see
/// `captured_keybind`).
pub fn keybind_from_ui(ctrl: bool, shift: bool, alt: bool, pressed: &Vec<UiKey>) -> (r: Option<Vec<String>>)
    ensures
        match r {
            Some(keys) => captured_keybind(ctrl, shift, alt, pressed@) == Some(string_views(keys@)),
            None => captured_keybind(ctrl, shift, alt, pressed@) is None,
        },
{
    let mut tokens: Vec<Vec<char>> = Vec::new();
    if ctrl {
        tokens.push(chars_of("ControlLeft"));
    }
    if shift {
        tokens.push(chars_of("ShiftLeft"));
    }
    if alt {
        tokens.push(chars_of("Alt"));
    }
    assert(views(tokens@) =~= modifier_tokens(ctrl, shift, alt));
    let ghost start = views(tokens@);
    let mut i: usize = 0;
    assert(pressed@.take(0) =~= Seq::<UiKey>::empty());
    while i < pressed.len()
        invariant
            i <= pressed.len(),
            views(tokens@) == with_key_tokens(start, pressed@.take(i as int)),
        decreases pressed.len() - i,
    {
        assert(pressed@.take(i + 1).drop_last() =~= pressed@.take(i as int));
        assert(pressed@.take(i + 1).last() == pressed@[i as int]);
        match ui_key_token(pressed[i]) {
            Some(s) => {
                let t = chars_of(s);
                if !holds_chars(&tokens, &t) {
                    let ghost before = views(tokens@);
                    tokens.push(t);
                    assert(views(tokens@) =~= before.push(t@));
                }
            },
            None => {},
        }
        i = i + 1;
    }
    assert(pressed@.take(pressed.len() as int) =~= pressed@);
    if tokens.len() == 0 {
        None
    } else {
        Some(strings_of_all(&tokens))
    }
}


proof fn lemma_with_key_tokens_unique(start: Seq<Seq<char>>, keys: Seq<UiKey>)
    requires
        start.no_duplicates(),
    ensures
        with_key_tokens(start, keys).no_duplicates(),
    decreases keys.len(),
{
    if keys.len() > 0 {
        lemma_with_key_tokens_unique(start, keys.drop_last());
        let acc = with_key_tokens(start, keys.drop_last());
        if let Some(t) = ui_token(keys.last()) {
            if !acc.contains(t) {
                let g = acc.push(t);
                assert forall|i: int, j: int| 0 <= i < g.len() && 0 <= j < g.len() && i != j implies g[i] != g[j] by {
                    if i < acc.len() && j < acc.len() {
                        assert(acc[i] != acc[j]);
                    } else if i < acc.len() {
                        assert(acc[i] != t);
                    } else if j < acc.len() {
                        assert(acc[j] != t);
                    }
                }
            }
        }
    }
}

/// A keybind captured from the settings window holds no token twice.
pub proof fn law_captured_keybind_unique(ctrl: bool, shift: bool, alt: bool, keys: Seq<UiKey>)
    ensures
        captured_keybind(ctrl, shift, alt, keys) matches Some(ts) ==> ts.no_duplicates(),
{
    reveal_strlit("ControlLeft");
    reveal_strlit("ShiftLeft");
    reveal_strlit("Alt");
    let m = modifier_tokens(ctrl, shift, alt);
    assert("ControlLeft"@[0] != "ShiftLeft"@[0]);
    assert("ControlLeft"@[0] != "Alt"@[0]);
    assert("ShiftLeft"@[0] != "Alt"@[0]);
    assert(m.no_duplicates());
    lemma_with_key_tokens_unique(m, keys);
}

} // verus!
