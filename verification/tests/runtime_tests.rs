use vene_clicker::config::AppConfig;
use vene_clicker::runtime::{toggle_allowed, ClickerConfigSnapshot, ToggleState};

#[test]
fn snapshot_copies_worker_settings() {
    let mut c = AppConfig::default();
    c.right_click_enabled = true;
    let s = ClickerConfigSnapshot::of(&c);
    assert_eq!((s.min_cps, s.max_cps, s.min_right_cps, s.max_right_cps), (9, 12, 10, 14));
    assert!(s.right_click_enabled && s.cps_drops_enabled && !s.only_in_minecraft);
}

#[test]
fn debounce_rule() {
    assert!(toggle_allowed(1000, 0, 80));
    assert!(toggle_allowed(1080, 1000, 80));
    assert!(!toggle_allowed(1079, 1000, 80));
    assert!(!toggle_allowed(500, 1000, 80));
    assert!(toggle_allowed(500, 1000, 0));
}

#[test]
fn toggles_debounced() {
    let mut t = ToggleState::new();
    assert!(!t.active);
    assert!(t.toggle_debounced(100, 80));
    assert!(t.toggle_debounced(150, 80));
    assert_eq!(t.last_toggle_ms, 100);
    assert!(!t.toggle_debounced(180, 80));
    assert_eq!(t.last_toggle_ms, 180);
    assert!(t.toggle());
    assert!(!t.toggle());
}

#[test]
fn debounce_over_a_sequence_of_presses() {
    let gap = 80u64;
    let mut t = ToggleState::new();
    let times = [10u64, 50, 90, 95, 169, 170, 171, 400, 479, 480];
    let mut accepted: Vec<u64> = Vec::new();
    for &now in times.iter() {
        let before = t.active;
        let after = t.toggle_debounced(now, gap);
        if after != before {
            accepted.push(now);
            assert_eq!(t.last_toggle_ms, now);
        }
    }
    assert_eq!(accepted, vec![90, 170, 400, 480]);
    for w in accepted.windows(2) {
        assert!(w[1] >= w[0] + gap);
    }
    assert_eq!(t.active, accepted.len() % 2 == 1);
    assert_eq!(t.last_toggle_ms, 480);
}
