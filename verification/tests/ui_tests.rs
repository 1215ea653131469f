use vene_clicker::hotkey::token_to_vk;
use vene_clicker::keybind::normalize_token;
use vene_clicker::ui::{keybind_from_ui, ui_key_token, UiKey};

#[test]
fn ui_key_tokens() {
    assert_eq!(ui_key_token(UiKey::A), Some("KeyA"));
    assert_eq!(ui_key_token(UiKey::Num5), Some("Num5"));
    assert_eq!(ui_key_token(UiKey::Enter), Some("Return"));
    assert_eq!(ui_key_token(UiKey::ArrowUp), Some("UpArrow"));
    assert_eq!(ui_key_token(UiKey::F11), Some("F11"));
    assert_eq!(ui_key_token(UiKey::Other), None);
}

#[test]
fn captured_from_frame() {
    let keys = vec![UiKey::G, UiKey::Other, UiKey::G, UiKey::Space];
    assert_eq!(
        keybind_from_ui(true, false, true, &keys),
        Some(vec!["ControlLeft".to_string(), "Alt".to_string(), "KeyG".to_string(), "Space".to_string()])
    );
    assert_eq!(keybind_from_ui(false, true, false, &vec![]), Some(vec!["ShiftLeft".to_string()]));
    assert_eq!(keybind_from_ui(false, false, false, &vec![UiKey::Other]), None);
}

#[test]
fn every_window_key_token_has_code_and_is_normal() {
    let keys = [
        UiKey::A,
        UiKey::B,
        UiKey::C,
        UiKey::D,
        UiKey::E,
        UiKey::F,
        UiKey::G,
        UiKey::H,
        UiKey::I,
        UiKey::J,
        UiKey::K,
        UiKey::L,
        UiKey::M,
        UiKey::N,
        UiKey::O,
        UiKey::P,
        UiKey::Q,
        UiKey::R,
        UiKey::S,
        UiKey::T,
        UiKey::U,
        UiKey::V,
        UiKey::W,
        UiKey::X,
        UiKey::Y,
        UiKey::Z,
        UiKey::Num0,
        UiKey::Num1,
        UiKey::Num2,
        UiKey::Num3,
        UiKey::Num4,
        UiKey::Num5,
        UiKey::Num6,
        UiKey::Num7,
        UiKey::Num8,
        UiKey::Num9,
        UiKey::ArrowDown,
        UiKey::ArrowLeft,
        UiKey::ArrowRight,
        UiKey::ArrowUp,
        UiKey::Escape,
        UiKey::Tab,
        UiKey::Backspace,
        UiKey::Enter,
        UiKey::Space,
        UiKey::Insert,
        UiKey::Delete,
        UiKey::Home,
        UiKey::End,
        UiKey::PageUp,
        UiKey::PageDown,
        UiKey::F1,
        UiKey::F2,
        UiKey::F3,
        UiKey::F4,
        UiKey::F5,
        UiKey::F6,
        UiKey::F7,
        UiKey::F8,
        UiKey::F9,
        UiKey::F10,
        UiKey::F11,
        UiKey::F12,
    ];
    let mut seen: Vec<&str> = Vec::new();
    for k in keys {
        let t = ui_key_token(k).expect("every listed key has a token");
        assert!(token_to_vk(t).is_some(), "{} has no key code", t);
        assert_eq!(normalize_token(t), Some(t.to_string()));
        assert!(!seen.contains(&t), "{} given twice", t);
        seen.push(t);
    }
    assert_eq!(seen.len(), 63);
    assert_eq!(ui_key_token(UiKey::Other), None);
}
