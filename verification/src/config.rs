//! The clicker's configuration: its value ranges, the `key=value` text it is
//! stored as, and how that text is read back.
use vstd::prelude::*;

use crate::keybind::{normalize_chars, normalized, DEFAULT_KEYBIND};
use crate::text::{
    chars_of, chars_of_all, decimal, decimal_text, find_char, holds_chars, is_text, join, join_with,
    parse_u32_spec, parse_u32_text, position_of, slice, split, split_on, string_of, string_views,
    strings_of_all, trim, trimmed, views,
};

verus! {

/// Lowest clicks per second a range may hold.
pub const MIN_CPS: u32 = 5;

/// Highest clicks per second a range may hold.
pub const MAX_CPS: u32 = 25;

/// Lowest jitter intensity.
pub const MIN_JITTER: u32 = 0;

/// Highest jitter intensity.
pub const MAX_JITTER: u32 = 100;

/// The clicker's settings.
#[derive(Clone, Debug)]
pub struct AppConfig {
    pub min_cps: u32,
    pub max_cps: u32,
    pub min_right_cps: u32,
    pub max_right_cps: u32,
    pub right_click_enabled: bool,
    pub cps_drops_enabled: bool,
    pub only_in_minecraft: bool,
    pub jitter_intensity: u32,
    pub keybinds: Vec<String>,
}

/// The settings as plain values, the keybind tokens as character sequences.
pub struct ConfigModel {
    pub min_cps: u32,
    pub max_cps: u32,
    pub min_right_cps: u32,
    pub max_right_cps: u32,
    pub right_click_enabled: bool,
    pub cps_drops_enabled: bool,
    pub only_in_minecraft: bool,
    pub jitter_intensity: u32,
    pub keybinds: Seq<Seq<char>>,
}

impl View for AppConfig {
    type V = ConfigModel;

    open spec fn view(&self) -> ConfigModel {
        ConfigModel {
            min_cps: self.min_cps,
            max_cps: self.max_cps,
            min_right_cps: self.min_right_cps,
            max_right_cps: self.max_right_cps,
            right_click_enabled: self.right_click_enabled,
            cps_drops_enabled: self.cps_drops_enabled,
            only_in_minecraft: self.only_in_minecraft,
            jitter_intensity: self.jitter_intensity,
            keybinds: string_views(self.keybinds@),
        }
    }
}

/// `v` brought into `lo..=hi` (`Ord::clamp`).
pub open spec fn clamped(v: u32, lo: u32, hi: u32) -> u32 {
    if v < lo {
        lo
    } else if v > hi {
        hi
    } else {
        v
    }
}

/// The settings a fresh install starts with.
pub open spec fn default_model() -> ConfigModel {
    ConfigModel {
        min_cps: 9,
        max_cps: 12,
        min_right_cps: 10,
        max_right_cps: 14,
        right_click_enabled: false,
        cps_drops_enabled: true,
        only_in_minecraft: false,
        jitter_intensity: 0,
        keybinds: seq![DEFAULT_KEYBIND@],
    }
}

/// The settings brought into range: both click ranges clamped to
/// `MIN_CPS..=MAX_CPS` and put in order, the jitter clamped to
/// `MIN_JITTER..=MAX_JITTER`, and the default keybind where none is set.
pub open spec fn sanitized(m: ConfigModel) -> ConfigModel {
    let a = clamped(m.min_cps, MIN_CPS, MAX_CPS);
    let b = clamped(m.max_cps, MIN_CPS, MAX_CPS);
    let c = clamped(m.min_right_cps, MIN_CPS, MAX_CPS);
    let d = clamped(m.max_right_cps, MIN_CPS, MAX_CPS);
    ConfigModel {
        min_cps: if a > b { b } else { a },
        max_cps: if a > b { a } else { b },
        min_right_cps: if c > d { d } else { c },
        max_right_cps: if c > d { c } else { d },
        right_click_enabled: m.right_click_enabled,
        cps_drops_enabled: m.cps_drops_enabled,
        only_in_minecraft: m.only_in_minecraft,
        jitter_intensity: clamped(m.jitter_intensity, MIN_JITTER, MAX_JITTER),
        keybinds: if m.keybinds.len() == 0 { seq![DEFAULT_KEYBIND@] } else { m.keybinds },
    }
}

/// Settings that are within every range and hold a keybind.
pub open spec fn in_range(m: ConfigModel) -> bool {
    &&& MIN_CPS <= m.min_cps <= m.max_cps <= MAX_CPS
    &&& MIN_CPS <= m.min_right_cps <= m.max_right_cps <= MAX_CPS
    &&& MIN_JITTER <= m.jitter_intensity <= MAX_JITTER
    &&& m.keybinds.len() > 0
}

fn clamp_u32(v: u32, lo: u32, hi: u32) -> (r: u32)
    ensures
        r == clamped(v, lo, hi),
{
    if v < lo {
        lo
    } else if v > hi {
        hi
    } else {
        v
    }
}

impl Default for AppConfig {
    fn default() -> (r: AppConfig)
        ensures
            r@ == default_model(),
    {
        let r = AppConfig {
            min_cps: 9,
            max_cps: 12,
            min_right_cps: 10,
            max_right_cps: 14,
            right_click_enabled: false,
            cps_drops_enabled: true,
            only_in_minecraft: false,
            jitter_intensity: 0,
            keybinds: vec![DEFAULT_KEYBIND.to_owned()],
        };
        assert(r@.keybinds =~= seq![DEFAULT_KEYBIND@]);
        r
    }
}

impl AppConfig {
    /// Brings every setting into range (see `sanitized`).
    pub fn sanitize(&mut self)
        ensures
            final(self)@ == sanitized(old(self)@),
    {
        self.min_cps = clamp_u32(self.min_cps, MIN_CPS, MAX_CPS);
        self.max_cps = clamp_u32(self.max_cps, MIN_CPS, MAX_CPS);
        if self.min_cps > self.max_cps {
            let t = self.min_cps;
            self.min_cps = self.max_cps;
            self.max_cps = t;
        }
        self.min_right_cps = clamp_u32(self.min_right_cps, MIN_CPS, MAX_CPS);
        self.max_right_cps = clamp_u32(self.max_right_cps, MIN_CPS, MAX_CPS);
        if self.min_right_cps > self.max_right_cps {
            let t = self.min_right_cps;
            self.min_right_cps = self.max_right_cps;
            self.max_right_cps = t;
        }
        self.jitter_intensity = clamp_u32(self.jitter_intensity, MIN_JITTER, MAX_JITTER);
        if self.keybinds.len() == 0 {
            self.keybinds.push(DEFAULT_KEYBIND.to_owned());
        }
        assert(self@.keybinds =~= sanitized(old(self)@).keybinds);
    }
}


/// `s` read as a `bool` the way `str::parse::<bool>` reads it.
pub open spec fn parse_bool_spec(s: Seq<char>) -> Option<bool> {
    if s == "true"@ {
        Some(true)
    } else if s == "false"@ {
        Some(false)
    } else {
        None
    }
}

/// A number setting: the stored text read as a `u32`, else `default`.
pub open spec fn u32_or(raw: Option<Seq<char>>, default: u32) -> u32 {
    match raw {
        Some(s) => match parse_u32_spec(s) {
            Some(n) => n,
            None => default,
        },
        None => default,
    }
}

/// A switch setting: the stored text read as a `bool`, else `default`.
pub open spec fn bool_or(raw: Option<Seq<char>>, default: bool) -> bool {
    match raw {
        Some(s) => match parse_bool_spec(s) {
            Some(b) => b,
            None => default,
        },
        None => default,
    }
}

/// The normalised tokens of `pieces`, each kept once, in the order in which
/// they first appear.
pub open spec fn gathered_tokens(pieces: Seq<Seq<char>>) -> Seq<Seq<char>>
    decreases pieces.len(),
{
    if pieces.len() == 0 {
        Seq::<Seq<char>>::empty()
    } else {
        let acc = gathered_tokens(pieces.drop_last());
        match normalized(pieces.last()) {
            Some(t) => if acc.contains(t) {
                acc
            } else {
                acc.push(t)
            },
            None => acc,
        }
    }
}

/// The keybind a stored `a:b:c` list stands for: its normalised tokens without
/// repeats, or the default keybind when none is left.
pub open spec fn keybinds_from(raw: Seq<char>) -> Seq<Seq<char>> {
    let g = gathered_tokens(split(raw, ':'));
    if g.len() == 0 {
        seq![DEFAULT_KEYBIND@]
    } else {
        g
    }
}

/// A number setting read from its stored text, or `default` when it is absent
/// or not a `u32`.
pub fn parse_u32(raw: Option<&String>, default: u32) -> (r: u32)
    ensures
        r == u32_or(
            match raw {
                Some(s) => Some(s@),
                None => None,
            },
            default,
        ),
{
    match raw {
        Some(s) => {
            let v = chars_of(s.as_str());
            match parse_u32_text(&v) {
                Some(n) => n,
                None => default,
            }
        },
        None => default,
    }
}

fn parse_bool_text(v: &Vec<char>) -> (r: Option<bool>)
    ensures
        r == parse_bool_spec(v@),
{
    if is_text(v, "true") {
        Some(true)
    } else if is_text(v, "false") {
        Some(false)
    } else {
        None
    }
}

/// A switch setting read from its stored text, or `default` when it is absent
/// or neither `true` nor `false`.
pub fn parse_bool(raw: Option<&String>, default: bool) -> (r: bool)
    ensures
        r == bool_or(
            match raw {
                Some(s) => Some(s@),
                None => None,
            },
            default,
        ),
{
    match raw {
        Some(s) => {
            let v = chars_of(s.as_str());
            match parse_bool_text(&v) {
                Some(b) => b,
                None => default,
            }
        },
        None => default,
    }
}

fn keybind_chars(raw: &Vec<char>) -> (out: Vec<Vec<char>>)
    ensures
        views(out@) == keybinds_from(raw@),
{
    let pieces = split_on(raw, ':');
    let mut out: Vec<Vec<char>> = Vec::new();
    let mut i: usize = 0;
    assert(views(pieces@).take(0) =~= Seq::<Seq<char>>::empty());
    while i < pieces.len()
        invariant
            i <= pieces.len(),
            views(out@) == gathered_tokens(views(pieces@).take(i as int)),
        decreases pieces.len() - i,
    {
        assert(views(pieces@).take(i + 1).drop_last() =~= views(pieces@).take(i as int));
        assert(views(pieces@).take(i + 1).last() == pieces@[i as int]@);
        match normalize_chars(&pieces[i]) {
            Some(t) => {
                if !holds_chars(&out, &t) {
                    let ghost before = views(out@);
                    out.push(t);
                    assert(views(out@) =~= before.push(t@));
                }
            },
            None => {},
        }
        i = i + 1;
    }
    assert(views(pieces@).take(pieces.len() as int) =~= views(pieces@));
    if out.len() == 0 {
        let d = chars_of(DEFAULT_KEYBIND);
        out.push(d);
        assert(views(out@) =~= seq![DEFAULT_KEYBIND@]);
    }
    out
}

/// The keybind a stored `a:b:c` list stands for (see `keybinds_from`).
pub fn parse_keybinds(raw: &str) -> (out: Vec<String>)
    ensures
        string_views(out@) == keybinds_from(raw@),
{
    let v = chars_of(raw);
    let k = keybind_chars(&v);
    strings_of_all(&k)
}


/// The `key=value` pair a line of the stored text holds: none for a blank line
/// or one that starts with `#` or `!`, nor for a line without `=`; else the text
/// before the first `=` and the text after it, each without surrounding
/// whitespace.
pub open spec fn line_entry(line: Seq<char>) -> Option<(Seq<char>, Seq<char>)> {
    let t = trim(line);
    if t.len() == 0 || t[0] == '#' || t[0] == '!' {
        None
    } else {
        match find_char(t, '=') {
            Some(i) => Some((trim(t.subrange(0, i)), trim(t.subrange(i + 1, t.len() as int)))),
            None => None,
        }
    }
}

/// The pairs of a sequence of lines, in order.
pub open spec fn entries(lines: Seq<Seq<char>>) -> Seq<(Seq<char>, Seq<char>)>
    decreases lines.len(),
{
    if lines.len() == 0 {
        Seq::<(Seq<char>, Seq<char>)>::empty()
    } else {
        let e = entries(lines.drop_last());
        match line_entry(lines.last()) {
            Some(p) => e.push(p),
            None => e,
        }
    }
}

/// The value of the last pair whose key is `key`: a later line overrides an
/// earlier one.
pub open spec fn lookup(es: Seq<(Seq<char>, Seq<char>)>, key: Seq<char>) -> Option<Seq<char>>
    decreases es.len(),
{
    if es.len() == 0 {
        None
    } else if es.last().0 == key {
        Some(es.last().1)
    } else {
        lookup(es.drop_last(), key)
    }
}

/// The value that the stored text `content` gives `key`. Lines end at `\n`
/// (a `\r` before it is whitespace, which the trim of each line takes away).
pub open spec fn setting(content: Seq<char>, key: Seq<char>) -> Option<Seq<char>> {
    lookup(entries(split(content, '\n')), key)
}

/// The settings that the stored text `content` holds, each one that is absent
/// or unreadable at its default, then brought into range.
pub open spec fn parsed_config(content: Seq<char>) -> ConfigModel {
    sanitized(ConfigModel {
        min_cps: u32_or(setting(content, "minCps"@), 9),
        max_cps: u32_or(setting(content, "maxCps"@), 12),
        min_right_cps: u32_or(setting(content, "minRightCps"@), 10),
        max_right_cps: u32_or(setting(content, "maxRightCps"@), 14),
        right_click_enabled: bool_or(setting(content, "rightClickEnabled"@), false),
        cps_drops_enabled: bool_or(setting(content, "cpsDropsEnabled"@), true),
        only_in_minecraft: bool_or(setting(content, "onlyInMinecraft"@), false),
        jitter_intensity: u32_or(setting(content, "jitterIntensity"@), 0),
        keybinds: keybinds_from(
            match setting(content, "keybinds"@) {
                Some(v) => v,
                None => Seq::<char>::empty(),
            },
        ),
    })
}

/// The keys that the stored text is read for, by position.
pub open spec fn setting_key(k: int) -> Seq<char> {
    if k == 0 {
        "keybinds"@
    } else if k == 1 {
        "minCps"@
    } else if k == 2 {
        "maxCps"@
    } else if k == 3 {
        "minRightCps"@
    } else if k == 4 {
        "maxRightCps"@
    } else if k == 5 {
        "rightClickEnabled"@
    } else if k == 6 {
        "cpsDropsEnabled"@
    } else if k == 7 {
        "onlyInMinecraft"@
    } else {
        "jitterIntensity"@
    }
}

/// How many keys the stored text is read for.
pub const SETTING_COUNT: usize = 9;

fn setting_key_text(k: usize) -> (r: &'static str)
    requires
        k < SETTING_COUNT,
    ensures
        r@ == setting_key(k as int),
{
    if k == 0 {
        "keybinds"
    } else if k == 1 {
        "minCps"
    } else if k == 2 {
        "maxCps"
    } else if k == 3 {
        "minRightCps"
    } else if k == 4 {
        "maxRightCps"
    } else if k == 5 {
        "rightClickEnabled"
    } else if k == 6 {
        "cpsDropsEnabled"
    } else if k == 7 {
        "onlyInMinecraft"
    } else {
        "jitterIntensity"
    }
}

/// The character sequence an optional vector holds.
pub open spec fn opt_view(o: Option<Vec<char>>) -> Option<Seq<char>> {
    match o {
        Some(v) => Some(v@),
        None => None,
    }
}

/// The `key=value` pair of one line (see `line_entry`).
pub fn line_setting(line: &Vec<char>) -> (r: Option<(Vec<char>, Vec<char>)>)
    ensures
        match r {
            Some(p) => line_entry(line@) == Some((p.0@, p.1@)),
            None => line_entry(line@) is None,
        },
{
    let t = trimmed(line);
    if t.len() == 0 || t[0] == '#' || t[0] == '!' {
        return None;
    }
    match position_of(&t, '=') {
        Some(i) => {
            let before = slice(&t, 0, i);
            let after = slice(&t, i + 1, t.len());
            let k = trimmed(&before);
            let v = trimmed(&after);
            Some((k, v))
        },
        None => None,
    }
}

proof fn lemma_lookup_push(es: Seq<(Seq<char>, Seq<char>)>, p: (Seq<char>, Seq<char>), key: Seq<char>)
    ensures
        lookup(es.push(p), key) == (if p.0 == key { Some(p.1) } else { lookup(es, key) }),
{
    assert(es.push(p).drop_last() =~= es);
}

/// For each key that the stored text is read for, the value `content` gives it.
pub fn settings_of(content: &Vec<char>) -> (slots: Vec<Option<Vec<char>>>)
    ensures
        slots.len() == SETTING_COUNT,
        forall|k: int| 0 <= k < SETTING_COUNT ==> opt_view(#[trigger] slots@[k]) == setting(content@, setting_key(k)),
{
    let lines = split_on(content, '\n');
    let mut slots: Vec<Option<Vec<char>>> = Vec::new();
    let mut k: usize = 0;
    while k < SETTING_COUNT
        invariant
            k <= SETTING_COUNT,
            slots.len() == k,
            forall|j: int| 0 <= j < k ==> #[trigger] slots@[j] is None,
        decreases SETTING_COUNT - k,
    {
        slots.push(None);
        k = k + 1;
    }
    let mut i: usize = 0;
    assert(views(lines@).take(0) =~= Seq::<Seq<char>>::empty());
    while i < lines.len()
        invariant
            i <= lines.len(),
            slots.len() == SETTING_COUNT,
            forall|j: int| 0 <= j < SETTING_COUNT ==> opt_view(#[trigger] slots@[j]) == lookup(entries(views(lines@).take(i as int)), setting_key(j)),
        decreases lines.len() - i,
    {
        let ghost es = entries(views(lines@).take(i as int));
        assert(views(lines@).take(i + 1).drop_last() =~= views(lines@).take(i as int));
        assert(views(lines@).take(i + 1).last() == lines@[i as int]@);
        match line_setting(&lines[i]) {
            Some(p) => {
                let ghost pv = (p.0@, p.1@);
                let ghost next = es.push(pv);
                let mut k: usize = 0;
                while k < SETTING_COUNT
                    invariant
                        k <= SETTING_COUNT,
                        slots.len() == SETTING_COUNT,
                        next == es.push(pv),
                        pv == (p.0@, p.1@),
                        forall|j: int| 0 <= j < k ==> opt_view(#[trigger] slots@[j]) == lookup(next, setting_key(j)),
                        forall|j: int| k <= j < SETTING_COUNT ==> opt_view(#[trigger] slots@[j]) == lookup(es, setting_key(j)),
                    decreases SETTING_COUNT - k,
                {
                    proof {
                        lemma_lookup_push(es, pv, setting_key(k as int));
                    }
                    if is_text(&p.0, setting_key_text(k)) {
                        let v = slice(&p.1, 0, p.1.len());
                        assert(v@ =~= p.1@);
                        slots.set(k, Some(v));
                    }
                    k = k + 1;
                }
            },
            None => {},
        }
        i = i + 1;
    }
    assert(views(lines@).take(lines.len() as int) =~= views(lines@));
    slots
}


fn slot_u32(slots: &Vec<Option<Vec<char>>>, k: usize, default: u32) -> (r: u32)
    requires
        k < slots.len(),
    ensures
        r == u32_or(opt_view(slots@[k as int]), default),
{
    match &slots[k] {
        Some(v) => match parse_u32_text(v) {
            Some(n) => n,
            None => default,
        },
        None => default,
    }
}

fn slot_bool(slots: &Vec<Option<Vec<char>>>, k: usize, default: bool) -> (r: bool)
    requires
        k < slots.len(),
    ensures
        r == bool_or(opt_view(slots@[k as int]), default),
{
    match &slots[k] {
        Some(v) => match parse_bool_text(v) {
            Some(b) => b,
            None => default,
        },
        None => default,
    }
}

/// The settings that the stored text `content` holds (see `parsed_config`).
pub fn parse_config(content: &str) -> (cfg: AppConfig)
    ensures
        cfg@ == parsed_config(content@),
{
    let text = chars_of(content);
    let slots = settings_of(&text);
    let ghost c = content@;
    assert(opt_view(slots@[0]) == setting(c, "keybinds"@));
    assert(opt_view(slots@[1]) == setting(c, "minCps"@));
    assert(opt_view(slots@[2]) == setting(c, "maxCps"@));
    assert(opt_view(slots@[3]) == setting(c, "minRightCps"@));
    assert(opt_view(slots@[4]) == setting(c, "maxRightCps"@));
    assert(opt_view(slots@[5]) == setting(c, "rightClickEnabled"@));
    assert(opt_view(slots@[6]) == setting(c, "cpsDropsEnabled"@));
    assert(opt_view(slots@[7]) == setting(c, "onlyInMinecraft"@));
    assert(opt_view(slots@[8]) == setting(c, "jitterIntensity"@));
    let raw_keys = match &slots[0] {
        Some(v) => slice(v, 0, v.len()),
        None => Vec::new(),
    };
    assert(raw_keys@ =~= match setting(c, "keybinds"@) {
        Some(v) => v,
        None => Seq::<char>::empty(),
    });
    let keys = keybind_chars(&raw_keys);
    let mut cfg = AppConfig {
        min_cps: slot_u32(&slots, 1, 9),
        max_cps: slot_u32(&slots, 2, 12),
        min_right_cps: slot_u32(&slots, 3, 10),
        max_right_cps: slot_u32(&slots, 4, 14),
        right_click_enabled: slot_bool(&slots, 5, false),
        cps_drops_enabled: slot_bool(&slots, 6, true),
        only_in_minecraft: slot_bool(&slots, 7, false),
        jitter_intensity: slot_u32(&slots, 8, 0),
        keybinds: strings_of_all(&keys),
    };
    cfg.sanitize();
    cfg
}

/// The text for a switch (`Display` for `bool`).
pub open spec fn bool_text(b: bool) -> Seq<char> {
    if b {
        "true"@
    } else {
        "false"@
    }
}

/// One stored setting: `key=value`.
pub open spec fn setting_line(key: Seq<char>, value: Seq<char>) -> Seq<char> {
    key + "="@ + value
}

/// The first line of the stored text.
pub open spec fn header_line() -> Seq<char> {
    "# Vene Clicker Configuration"@
}

/// The lines of the stored text for settings `m` and the clicker's on/off
/// state `active`: a comment, then one `key=value` line per setting (the
/// keybind as its tokens joined with `:`), then one for the state.
pub open spec fn config_lines(m: ConfigModel, active: bool) -> Seq<Seq<char>> {
    seq![
        header_line(),
        setting_line("keybinds"@, join(m.keybinds, ":"@)),
        setting_line("minCps"@, decimal(m.min_cps as nat)),
        setting_line("maxCps"@, decimal(m.max_cps as nat)),
        setting_line("minRightCps"@, decimal(m.min_right_cps as nat)),
        setting_line("maxRightCps"@, decimal(m.max_right_cps as nat)),
        setting_line("rightClickEnabled"@, bool_text(m.right_click_enabled)),
        setting_line("cpsDropsEnabled"@, bool_text(m.cps_drops_enabled)),
        setting_line("onlyInMinecraft"@, bool_text(m.only_in_minecraft)),
        setting_line("jitterIntensity"@, decimal(m.jitter_intensity as nat)),
        setting_line("enabled"@, bool_text(active)),
    ]
}

/// Lines, each one ended by `\n`.
pub open spec fn line_block(lines: Seq<Seq<char>>) -> Seq<char>
    decreases lines.len(),
{
    if lines.len() == 0 {
        Seq::<char>::empty()
    } else {
        line_block(lines.drop_last()) + lines.last() + "\n"@
    }
}

/// The stored text for settings `m` and the on/off state `active`.
pub open spec fn rendered(m: ConfigModel, active: bool) -> Seq<char> {
    line_block(config_lines(m, active))
}

fn put(out: &mut Vec<char>, s: &Vec<char>)
    ensures
        final(out)@ == old(out)@ + s@,
{
    let ghost base = out@;
    let mut i: usize = 0;
    while i < s.len()
        invariant
            i <= s.len(),
            out@ == base + s@.take(i as int),
        decreases s.len() - i,
    {
        out.push(s[i]);
        i = i + 1;
        assert(out@ =~= base + s@.take(i as int));
    }
    assert(s@.take(s.len() as int) =~= s@);
}

fn line_text(key: &str, value: &Vec<char>) -> (out: Vec<char>)
    ensures
        out@ == setting_line(key@, value@),
{
    let mut out = chars_of(key);
    let eq = chars_of("=");
    put(&mut out, &eq);
    put(&mut out, value);
    out
}

fn bool_chars(b: bool) -> (out: Vec<char>)
    ensures
        out@ == bool_text(b),
{
    if b {
        chars_of("true")
    } else {
        chars_of("false")
    }
}

fn block_text(lines: &Vec<Vec<char>>) -> (out: Vec<char>)
    ensures
        out@ == line_block(views(lines@)),
{
    let mut out: Vec<char> = Vec::new();
    let nl = chars_of("\n");
    let mut i: usize = 0;
    assert(views(lines@).take(0) =~= Seq::<Seq<char>>::empty());
    while i < lines.len()
        invariant
            i <= lines.len(),
            nl@ == "\n"@,
            out@ == line_block(views(lines@).take(i as int)),
        decreases lines.len() - i,
    {
        assert(views(lines@).take(i + 1).drop_last() =~= views(lines@).take(i as int));
        assert(views(lines@).take(i + 1).last() == lines@[i as int]@);
        put(&mut out, &lines[i]);
        put(&mut out, &nl);
        i = i + 1;
    }
    assert(views(lines@).take(lines.len() as int) =~= views(lines@));
    out
}

/// The stored text for `cfg`, brought into range first, and the on/off state
/// `active` (see `rendered`).
pub fn config_text(cfg: &AppConfig, active: bool) -> (out: String)
    ensures
        out@ == rendered(sanitized(cfg@), active),
{
    let a = clamp_u32(cfg.min_cps, MIN_CPS, MAX_CPS);
    let b = clamp_u32(cfg.max_cps, MIN_CPS, MAX_CPS);
    let c = clamp_u32(cfg.min_right_cps, MIN_CPS, MAX_CPS);
    let d = clamp_u32(cfg.max_right_cps, MIN_CPS, MAX_CPS);
    let keys = if cfg.keybinds.len() == 0 {
        let mut k: Vec<Vec<char>> = Vec::new();
        k.push(chars_of(DEFAULT_KEYBIND));
        assert(views(k@) =~= seq![DEFAULT_KEYBIND@]);
        k
    } else {
        chars_of_all(cfg.keybinds.as_slice())
    };
    let ghost m = sanitized(cfg@);
    assert(views(keys@) == m.keybinds);
    let colon = chars_of(":");
    let joined = join_with(&keys, &colon);
    let mut lines: Vec<Vec<char>> = Vec::new();
    lines.push(chars_of("# Vene Clicker Configuration"));
    lines.push(line_text("keybinds", &joined));
    lines.push(line_text("minCps", &decimal_text(if a > b { b } else { a })));
    lines.push(line_text("maxCps", &decimal_text(if a > b { a } else { b })));
    lines.push(line_text("minRightCps", &decimal_text(if c > d { d } else { c })));
    lines.push(line_text("maxRightCps", &decimal_text(if c > d { c } else { d })));
    lines.push(line_text("rightClickEnabled", &bool_chars(cfg.right_click_enabled)));
    lines.push(line_text("cpsDropsEnabled", &bool_chars(cfg.cps_drops_enabled)));
    lines.push(line_text("onlyInMinecraft", &bool_chars(cfg.only_in_minecraft)));
    lines.push(line_text("jitterIntensity", &decimal_text(clamp_u32(cfg.jitter_intensity, MIN_JITTER, MAX_JITTER))));
    lines.push(line_text("enabled", &bool_chars(active)));
    assert(views(lines@) =~= config_lines(m, active));
    let out = block_text(&lines);
    string_of(&out)
}

} // verus!
