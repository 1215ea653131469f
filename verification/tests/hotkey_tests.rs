use vene_clicker::hotkey::{parse_hotkey, token_to_vk, MOD_ALT, MOD_CONTROL, MOD_NOREPEAT, MOD_SHIFT};

fn v(xs: &[&str]) -> Vec<String> {
    xs.iter().map(|s| s.to_string()).collect()
}

#[test]
fn vk_of_letters_and_digits() {
    assert_eq!(token_to_vk("KeyA"), Some(65));
    assert_eq!(token_to_vk("Keyz"), Some(90));
    assert_eq!(token_to_vk("Key5"), Some(0x35));
    assert_eq!(token_to_vk("Num0"), Some(0x30));
    assert_eq!(token_to_vk("Key"), None);
    assert_eq!(token_to_vk("Num"), None);
}

#[test]
fn vk_of_function_keys() {
    assert_eq!(token_to_vk("F1"), Some(0x70));
    assert_eq!(token_to_vk("F12"), Some(0x7B));
    assert_eq!(token_to_vk("F13"), None);
    assert_eq!(token_to_vk("F0"), None);
}

#[test]
fn vk_of_named_keys() {
    assert_eq!(token_to_vk("Space"), Some(0x20));
    assert_eq!(token_to_vk("NumLock"), Some(0x90));
    assert_eq!(token_to_vk("Win"), Some(0x5B));
    assert_eq!(token_to_vk("BracketRight"), Some(0xDD));
    assert_eq!(token_to_vk("Unknown"), None);
}

#[test]
fn hotkey_with_modifiers() {
    assert_eq!(
        parse_hotkey(&v(&["ControlLeft", "ShiftRight", "KeyG"])),
        Some((MOD_CONTROL | MOD_SHIFT | MOD_NOREPEAT, 0x47))
    );
    assert_eq!(parse_hotkey(&v(&["AltGr", "F4"])), Some((MOD_ALT | MOD_NOREPEAT, 0x73)));
    assert_eq!(parse_hotkey(&v(&["KeyF"])), Some((MOD_NOREPEAT, 0x46)));
}

#[test]
fn hotkey_rejections() {
    assert_eq!(parse_hotkey(&v(&["KeyA", "KeyB"])), None);
    assert_eq!(parse_hotkey(&v(&["ControlLeft"])), None);
    assert_eq!(parse_hotkey(&v(&["Bogus"])), None);
    assert_eq!(parse_hotkey(&[]), None);
}

#[test]
fn hotkey_always_no_repeat() {
    let (mods, _) = parse_hotkey(&v(&["ShiftLeft", "Space"])).unwrap();
    assert_eq!(mods & MOD_NOREPEAT, MOD_NOREPEAT);
}

#[test]
fn hotkey_ignores_token_order() {
    let orders: [[&str; 4]; 4] = [
        ["ControlLeft", "Alt", "ShiftLeft", "KeyQ"],
        ["KeyQ", "ShiftLeft", "Alt", "ControlLeft"],
        ["Alt", "KeyQ", "ControlLeft", "ShiftLeft"],
        ["ShiftLeft", "ControlLeft", "KeyQ", "Alt"],
    ];
    for o in orders.iter() {
        assert_eq!(
            parse_hotkey(&v(o)),
            Some((MOD_CONTROL | MOD_SHIFT | MOD_ALT | MOD_NOREPEAT, 0x51))
        );
    }
}

#[test]
fn no_code_lies_outside_its_range() {
    let names = [
        "Space", "Tab", "Backspace", "Return", "Escape", "CapsLock", "NumLock", "Win",
        "BracketRight", "Quote", "Home", "End", "F1", "F12", "KeyA", "Num9",
    ];
    for n in names.iter() {
        let c = token_to_vk(n).unwrap();
        assert!((0x08..=0xDE).contains(&c), "{} -> {:#x}", n, c);
        assert!(!(0x10..=0x12).contains(&c), "{} -> {:#x}", n, c);
    }
    for m in ["ControlLeft", "ControlRight", "ShiftLeft", "ShiftRight", "Alt", "AltGr"].iter() {
        assert_eq!(token_to_vk(m), None);
    }
}
