use vene_clicker::clicker::{
    click_running, cps_range, round_presses, fatigue_step, is_game_window_title, order_range, sleep_step,
    title_names_game, Fatigue, MouseButton, SleepStep, FATIGUE_MAX_TICKS, FATIGUE_MIN_TICKS,
};
use vene_clicker::runtime::ClickerConfigSnapshot;

fn snap() -> ClickerConfigSnapshot {
    ClickerConfigSnapshot {
        min_cps: 14,
        max_cps: 9,
        min_right_cps: 0,
        max_right_cps: 0,
        right_click_enabled: true,
        cps_drops_enabled: true,
        only_in_minecraft: false,
    }
}

#[test]
fn running_rules() {
    assert!(click_running(MouseButton::Left, true, true, false));
    assert!(!click_running(MouseButton::Left, false, true, true));
    assert!(!click_running(MouseButton::Left, true, false, true));
    assert!(!click_running(MouseButton::Right, true, true, false));
    assert!(click_running(MouseButton::Right, true, true, true));
}

#[test]
fn ranges_are_ordered_and_positive() {
    assert_eq!(cps_range(MouseButton::Left, &snap()), (9, 14));
    assert_eq!(cps_range(MouseButton::Right, &snap()), (1, 1));
    assert_eq!(order_range(0, 7), (1, 7));
    assert_eq!(order_range(12, 12), (12, 12));
}

#[test]
fn fatigue_steps_exact() {
    assert_eq!(fatigue_step(0, true, true, 5), (4, true, true));
    assert_eq!(fatigue_step(0, true, false, 5), (0, false, false));
    assert_eq!(fatigue_step(3, true, true, 9), (2, true, false));
    assert_eq!(fatigue_step(1, true, false, 9), (0, true, false));
    assert_eq!(fatigue_step(4, false, true, 9), (4, false, false));
}

#[test]
fn fatigue_dip_length_is_drawn_in_range() {
    let mut rng = rand::thread_rng();
    for _ in 0..200 {
        let mut f = Fatigue::new();
        let r = f.advance(true, true, &mut rng);
        assert!(r.started && r.scaled);
        assert!(f.ticks >= FATIGUE_MIN_TICKS - 1 && f.ticks <= FATIGUE_MAX_TICKS - 1);
        let mut rounds = 1;
        while f.ticks > 0 {
            let r = f.advance(true, true, &mut rng);
            assert!(r.scaled && !r.started);
            rounds += 1;
        }
        assert!(rounds >= FATIGUE_MIN_TICKS && rounds <= FATIGUE_MAX_TICKS);
        f.reset();
        assert_eq!(f.ticks, 0);
    }
}

#[test]
fn sleep_plan() {
    assert!(matches!(sleep_step(true, 10_000_000), SleepStep::Done));
    assert!(matches!(sleep_step(false, 0), SleepStep::Done));
    assert!(matches!(sleep_step(false, 10_000_000), SleepStep::Sleep(9_000_000)));
    assert!(matches!(sleep_step(false, 3_000_000), SleepStep::Yield));
    assert!(matches!(sleep_step(false, 200_001), SleepStep::Yield));
    assert!(matches!(sleep_step(false, 200_000), SleepStep::Spin));
    assert!(matches!(sleep_step(false, 1), SleepStep::Spin));
}

#[test]
fn game_titles() {
    assert!(title_names_game("minecraft 1.8.9"));
    assert!(title_names_game("lunar client"));
    assert!(!title_names_game("Minecraft"));
    assert!(!title_names_game("notepad"));
    // the title is lowercased first
    assert!(is_game_window_title("MINECRAFT 1.20"));
    assert!(is_game_window_title("Badlion Client"));
    assert!(is_game_window_title("CheatBreaker"));
    assert!(!is_game_window_title("Visual Studio Code"));
}

#[test]
fn round_press_decision() {
    let mut cfg = snap();
    assert!(round_presses(MouseButton::Left, true, true, &cfg, ""));
    assert!(!round_presses(MouseButton::Left, false, true, &cfg, "Minecraft"));
    cfg.only_in_minecraft = true;
    assert!(round_presses(MouseButton::Left, true, true, &cfg, "Minecraft 1.8.9"));
    assert!(!round_presses(MouseButton::Left, true, true, &cfg, "Notepad"));
    cfg.right_click_enabled = false;
    assert!(!round_presses(MouseButton::Right, true, true, &cfg, "Minecraft"));
}
