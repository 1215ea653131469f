use vene_clicker::input::{
    capture_release, on_key_press, on_key_release, PressedKeys, ReleaseOutcome, MAX_HELD_KEYS,
};

fn v(xs: &[&str]) -> Vec<String> {
    xs.iter().map(|s| s.to_string()).collect()
}

fn chars(s: &str) -> Vec<char> {
    s.chars().collect()
}

#[test]
fn combo_toggles_once_when_complete() {
    let binds = v(&["ControlLeft", "KeyG"]);
    let mut pressed = PressedKeys::new();
    let mut captured = Vec::new();
    assert!(!on_key_press(&mut pressed, &mut captured, false, false, &binds, "ControlLeft".into()));
    assert!(on_key_press(&mut pressed, &mut captured, false, false, &binds, "KeyG".into()));
    // held key repeating does not toggle again
    assert!(!on_key_press(&mut pressed, &mut captured, false, false, &binds, "KeyG".into()));
    assert!(!on_key_press(&mut pressed, &mut captured, false, false, &binds, "ControlLeft".into()));
    on_key_release(&mut pressed, &mut captured, false, "KeyG".into());
    assert!(on_key_press(&mut pressed, &mut captured, false, false, &binds, "KeyG".into()));
}

#[test]
fn key_outside_keybind_never_toggles() {
    let binds = v(&["KeyF"]);
    let mut pressed = PressedKeys::new();
    let mut captured = Vec::new();
    assert!(!on_key_press(&mut pressed, &mut captured, false, false, &binds, "KeyA".into()));
    assert!(on_key_press(&mut pressed, &mut captured, false, false, &binds, "KeyF".into()));
}

#[test]
fn hotkey_or_empty_keybind_ignores_presses() {
    let mut pressed = PressedKeys::new();
    let mut captured = Vec::new();
    assert!(!on_key_press(&mut pressed, &mut captured, false, true, &v(&["KeyF"]), "KeyF".into()));
    assert!(!on_key_press(&mut pressed, &mut captured, false, false, &[], "KeyF".into()));
    assert_eq!(pressed.len(), 0);
}

#[test]
fn release_undoes_press() {
    let binds = v(&["KeyF"]);
    let mut pressed = PressedKeys::new();
    let mut captured = Vec::new();
    on_key_press(&mut pressed, &mut captured, false, false, &binds, "KeyA".into());
    on_key_press(&mut pressed, &mut captured, false, false, &binds, "KeyB".into());
    assert_eq!(pressed.len(), 2);
    match on_key_release(&mut pressed, &mut captured, false, "KeyB".into()) {
        ReleaseOutcome::Released => {}
        _ => panic!("expected a plain release"),
    }
    assert_eq!(pressed.len(), 1);
    assert!(pressed.contains(&chars("KeyA")));
    assert!(!pressed.contains(&chars("KeyB")));
}

#[test]
fn held_record_cleared_past_limit() {
    let binds = v(&["KeyF"]);
    let mut pressed = PressedKeys::new();
    let mut captured = Vec::new();
    for i in 0..=MAX_HELD_KEYS {
        on_key_press(&mut pressed, &mut captured, false, false, &binds, format!("K{i}"));
    }
    assert_eq!(pressed.len(), MAX_HELD_KEYS + 1);
    on_key_press(&mut pressed, &mut captured, false, false, &binds, "KeyX".into());
    assert_eq!(pressed.len(), 1);
}

#[test]
fn capture_records_and_ends() {
    let binds = v(&["KeyF"]);
    let mut pressed = PressedKeys::new();
    let mut captured = Vec::new();
    assert!(!on_key_press(&mut pressed, &mut captured, true, false, &binds, "ShiftLeft".into()));
    assert!(!on_key_press(&mut pressed, &mut captured, true, false, &binds, "KeyQ".into()));
    assert!(!on_key_press(&mut pressed, &mut captured, true, false, &binds, "ShiftLeft".into()));
    assert_eq!(captured, v(&["ShiftLeft", "KeyQ"]));
    assert_eq!(pressed.len(), 0);
    match on_key_release(&mut pressed, &mut captured, true, "KeyQ".into()) {
        ReleaseOutcome::CaptureEnded(Some(keys)) => assert_eq!(keys, v(&["ShiftLeft", "KeyQ"])),
        _ => panic!("expected a captured keybind"),
    }
    assert!(captured.is_empty());
}

#[test]
fn capture_release_drops_repeats_and_empty() {
    let mut c = v(&["KeyA", "KeyB", "KeyA"]);
    assert_eq!(capture_release(&mut c), Some(v(&["KeyA", "KeyB"])));
    assert!(c.is_empty());
    let mut empty: Vec<String> = Vec::new();
    assert_eq!(capture_release(&mut empty), None);
}
