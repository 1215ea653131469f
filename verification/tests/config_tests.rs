use vene_clicker::config::{
    config_text, parse_bool, parse_config, parse_keybinds, parse_u32, AppConfig, MAX_CPS, MAX_JITTER,
    MIN_CPS,
};

fn sample() -> AppConfig {
    AppConfig {
        min_cps: 11,
        max_cps: 15,
        min_right_cps: 7,
        max_right_cps: 20,
        right_click_enabled: true,
        cps_drops_enabled: false,
        only_in_minecraft: true,
        jitter_intensity: 42,
        keybinds: vec!["ControlLeft".to_string(), "KeyG".to_string()],
    }
}

fn same(a: &AppConfig, b: &AppConfig) -> bool {
    a.min_cps == b.min_cps
        && a.max_cps == b.max_cps
        && a.min_right_cps == b.min_right_cps
        && a.max_right_cps == b.max_right_cps
        && a.right_click_enabled == b.right_click_enabled
        && a.cps_drops_enabled == b.cps_drops_enabled
        && a.only_in_minecraft == b.only_in_minecraft
        && a.jitter_intensity == b.jitter_intensity
        && a.keybinds == b.keybinds
}

#[test]
fn default_config_values() {
    let d = AppConfig::default();
    assert_eq!(d.min_cps, 9);
    assert_eq!(d.max_cps, 12);
    assert_eq!(d.min_right_cps, 10);
    assert_eq!(d.max_right_cps, 14);
    assert!(!d.right_click_enabled);
    assert!(d.cps_drops_enabled);
    assert!(!d.only_in_minecraft);
    assert_eq!(d.jitter_intensity, 0);
    assert_eq!(d.keybinds, vec!["KeyF".to_string()]);
}

#[test]
fn sanitize_clamps_and_orders() {
    let mut c = AppConfig {
        min_cps: 40,
        max_cps: 1,
        min_right_cps: 0,
        max_right_cps: 99,
        right_click_enabled: false,
        cps_drops_enabled: true,
        only_in_minecraft: false,
        jitter_intensity: 500,
        keybinds: vec![],
    };
    c.sanitize();
    assert_eq!(c.min_cps, MIN_CPS);
    assert_eq!(c.max_cps, MAX_CPS);
    assert_eq!(c.min_right_cps, 5);
    assert_eq!(c.max_right_cps, 25);
    assert_eq!(c.jitter_intensity, MAX_JITTER);
    assert_eq!(c.keybinds, vec!["KeyF".to_string()]);
}

#[test]
fn sanitize_swaps_reversed_range() {
    let mut c = sample();
    c.min_cps = 20;
    c.max_cps = 8;
    c.sanitize();
    assert_eq!((c.min_cps, c.max_cps), (8, 20));
}

#[test]
fn sanitize_is_idempotent_on_values() {
    let mut c = sample();
    c.min_cps = 3;
    c.sanitize();
    let once = c.clone();
    c.sanitize();
    assert!(same(&once, &c));
}

#[test]
fn sanitize_keeps_in_range_config() {
    let mut c = sample();
    let before = c.clone();
    c.sanitize();
    assert!(same(&before, &c));
}

#[test]
fn parse_u32_reads_like_std() {
    let s = |x: &str| x.to_string();
    assert_eq!(parse_u32(Some(&s("17")), 9), 17);
    assert_eq!(parse_u32(Some(&s("+17")), 9), 17);
    assert_eq!(parse_u32(Some(&s("007")), 9), 7);
    assert_eq!(parse_u32(Some(&s("4294967295")), 9), 4294967295);
    assert_eq!(parse_u32(Some(&s("4294967296")), 9), 9);
    assert_eq!(parse_u32(Some(&s("-1")), 9), 9);
    assert_eq!(parse_u32(Some(&s("+")), 9), 9);
    assert_eq!(parse_u32(Some(&s("")), 9), 9);
    assert_eq!(parse_u32(Some(&s("1 2")), 9), 9);
    assert_eq!(parse_u32(None, 12), 12);
}

#[test]
fn parse_bool_reads_like_std() {
    let s = |x: &str| x.to_string();
    assert!(parse_bool(Some(&s("true")), false));
    assert!(!parse_bool(Some(&s("false")), true));
    assert!(parse_bool(Some(&s("TRUE")), true));
    assert!(!parse_bool(Some(&s("yes")), false));
    assert!(parse_bool(None, true));
}

#[test]
fn parse_keybinds_normalizes_and_dedups() {
    assert_eq!(parse_keybinds("ControlLeft: KeyG :ControlLeft"), vec!["ControlLeft", "KeyG"]);
    assert_eq!(parse_keybinds("29:34"), vec!["ControlLeft", "KeyG"]);
    assert_eq!(parse_keybinds("999:KeyA"), vec!["KeyA"]);
    assert_eq!(parse_keybinds(""), vec!["KeyF"]);
    assert_eq!(parse_keybinds(" : :999"), vec!["KeyF"]);
}

#[test]
fn parse_config_reads_settings() {
    let text = "# comment\n! also a comment\nminCps = 10\nmaxCps=20\r\nkeybinds=KeyA:ShiftLeft\nrightClickEnabled=true\njunk line\nminCps=11\njitterIntensity=300\n";
    let c = parse_config(text);
    assert_eq!(c.min_cps, 11);
    assert_eq!(c.max_cps, 20);
    assert_eq!(c.min_right_cps, 10);
    assert_eq!(c.max_right_cps, 14);
    assert!(c.right_click_enabled);
    assert!(c.cps_drops_enabled);
    assert!(!c.only_in_minecraft);
    assert_eq!(c.jitter_intensity, 100);
    assert_eq!(c.keybinds, vec!["KeyA", "ShiftLeft"]);
}

#[test]
fn parse_config_of_empty_text_is_default() {
    let c = parse_config("");
    assert!(same(&c, &AppConfig::default()));
}

#[test]
fn parse_config_bad_values_fall_back() {
    let c = parse_config("minCps=abc\nmaxCps=-3\ncpsDropsEnabled=nope\nkeybinds=\n");
    assert_eq!(c.min_cps, 9);
    assert_eq!(c.max_cps, 12);
    assert!(c.cps_drops_enabled);
    assert_eq!(c.keybinds, vec!["KeyF"]);
}

#[test]
fn config_text_exact() {
    let text = config_text(&sample(), true);
    assert_eq!(
        text,
        "# Vene Clicker Configuration\nkeybinds=ControlLeft:KeyG\nminCps=11\nmaxCps=15\nminRightCps=7\nmaxRightCps=20\nrightClickEnabled=true\ncpsDropsEnabled=false\nonlyInMinecraft=true\njitterIntensity=42\nenabled=true\n"
    );
}

#[test]
fn config_text_sanitizes_first() {
    let mut c = sample();
    c.min_cps = 30;
    c.max_cps = 2;
    c.keybinds.clear();
    let text = config_text(&c, false);
    assert!(text.contains("\nminCps=5\nmaxCps=25\n"));
    assert!(text.contains("\nkeybinds=KeyF\n"));
    assert!(text.ends_with("enabled=false\n"));
}

#[test]
fn save_then_load_round_trip() {
    let c = sample();
    let loaded = parse_config(&config_text(&c, true));
    assert!(same(&loaded, &c));
}

#[test]
fn load_save_load_is_stable() {
    let first = parse_config("keybinds= 29 : KeyQ:KeyQ\nmaxCps=100\nonlyInMinecraft=true\n");
    let again = parse_config(&config_text(&first, false));
    assert!(same(&first, &again));
    assert_eq!(first.keybinds, vec!["ControlLeft", "KeyQ"]);
}
