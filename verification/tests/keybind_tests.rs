use vene_clicker::keybind::{
    display_token, keybind_display, legacy_code_to_token, normalize_token, DEFAULT_KEYBIND,
};

#[test]
fn default_keybind_is_key_f() {
    assert_eq!(DEFAULT_KEYBIND, "KeyF");
}

#[test]
fn normalize_trims_and_keeps_names() {
    assert_eq!(normalize_token("  KeyA \t"), Some("KeyA".to_string()));
    assert_eq!(normalize_token("   "), None);
    assert_eq!(normalize_token(""), None);
}

#[test]
fn normalize_maps_legacy_codes() {
    assert_eq!(normalize_token("33"), Some("KeyF".to_string()));
    assert_eq!(normalize_token(" +29 "), Some("ControlLeft".to_string()));
    assert_eq!(normalize_token("1"), None);
    assert_eq!(normalize_token("-5"), None);
    assert_eq!(normalize_token("99999999999"), Some("99999999999".to_string()));
}

#[test]
fn normalize_is_idempotent() {
    for raw in ["  KeyA ", "56", "Space", "x y"] {
        let once = normalize_token(raw).unwrap();
        assert_eq!(normalize_token(&once), Some(once.clone()));
    }
}

#[test]
fn legacy_codes_exact() {
    assert_eq!(legacy_code_to_token(2), Some("Num1"));
    assert_eq!(legacy_code_to_token(11), Some("Num0"));
    assert_eq!(legacy_code_to_token(57), Some("Space"));
    assert_eq!(legacy_code_to_token(88), Some("F12"));
    assert_eq!(legacy_code_to_token(12), None);
    assert_eq!(legacy_code_to_token(-1), None);
}

#[test]
fn display_tokens() {
    assert_eq!(display_token("KeyF"), "F");
    assert_eq!(display_token("Num7"), "7");
    assert_eq!(display_token("ControlRight"), "Ctrl");
    assert_eq!(display_token("ShiftLeft"), "Shift");
    assert_eq!(display_token("AltGr"), "Alt");
    assert_eq!(display_token("Return"), "Enter");
    assert_eq!(display_token("Space"), "Space");
    assert_eq!(display_token("F5"), "F5");
    assert_eq!(display_token("Key"), "");
}

#[test]
fn keybind_display_joins() {
    let ks = vec!["ControlLeft".to_string(), "ShiftLeft".to_string(), "KeyG".to_string()];
    assert_eq!(keybind_display(&ks), "Ctrl + Shift + G");
    assert_eq!(keybind_display(&["Num3".to_string()]), "3");
    assert_eq!(keybind_display(&[]), "None");
}

#[test]
fn legacy_table_has_fifty_four_distinct_codes() {
    let mut tokens: Vec<&str> = Vec::new();
    for code in -10i32..=200 {
        if let Some(t) = legacy_code_to_token(code) {
            assert!((2..=88).contains(&code), "code {} out of range", code);
            assert_eq!(normalize_token(t), Some(t.to_string()));
            assert!(!tokens.contains(&t), "{} given twice", t);
            tokens.push(t);
        }
    }
    assert_eq!(tokens.len(), 54);
    assert_eq!(legacy_code_to_token(i32::MIN), None);
    assert_eq!(legacy_code_to_token(i32::MAX), None);
}
