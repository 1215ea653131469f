//! The decisions of a click worker: whether it clicks, at which range of
//! clicks per second, when a fatigue dip starts and ends, how it waits, and
//! which window titles count as the game.
use rand::Rng;
use vstd::prelude::*;

use crate::runtime::ClickerConfigSnapshot;
use crate::text::{chars_of, contains_text, occurs_in};

verus! {

/// The mouse button a worker clicks.
#[derive(Clone, Copy, Debug, PartialEq, Eq, Structural)]
pub enum MouseButton {
    Left,
    Right,
}

/// The random generator of the calling thread (`rand::rngs::ThreadRng`).
#[verifier::external_type_specification]
#[verifier::external_body]
pub struct ExThreadRng(rand::rngs::ThreadRng);

/// `Rng::gen_range(lo..=hi)` of rand: a value drawn uniformly from `lo..=hi`.
/// The contract claims only that the value lies in that range; which value
/// comes out depends on the generator's state. `lo <= hi` is required because
/// rand panics on an empty range. The thread generator also panics when the
/// operating system fails to give it seed material (on first use or on a
/// periodic reseed); that is a failure of the environment, which no
/// precondition can exclude.
#[verifier::external_body]
fn random_between(rng: &mut rand::rngs::ThreadRng, lo: i32, hi: i32) -> (r: i32)
    requires
        lo <= hi,
    ensures
        lo <= r <= hi,
{
    rng.gen_range(lo..=hi)
}

/// Whether the worker for `button` clicks: the clicker is on and the button is
/// held, and for the right button right clicking is enabled too.
pub open spec fn running_spec(button: MouseButton, active: bool, pressed: bool, right_click_enabled: bool) -> bool {
    match button {
        MouseButton::Left => active && pressed,
        MouseButton::Right => active && pressed && right_click_enabled,
    }
}

/// Whether the worker for `button` clicks (see `running_spec`).
pub fn click_running(button: MouseButton, active: bool, pressed: bool, right_click_enabled: bool) -> (r: bool)
    ensures
        r == running_spec(button, active, pressed, right_click_enabled),
{
    match button {
        MouseButton::Left => active && pressed,
        MouseButton::Right => active && pressed && right_click_enabled,
    }
}

/// A range in order and at least one click per second at each end.
pub open spec fn ordered_range(a: u32, b: u32) -> (u32, u32) {
    let lo = if a > b { b } else { a };
    let hi = if a > b { a } else { b };
    (if lo < 1 { 1 } else { lo }, if hi < 1 { 1 } else { hi })
}

/// Puts a range in order and lifts each end to at least one.
pub fn order_range(a: u32, b: u32) -> (r: (u32, u32))
    ensures
        r == ordered_range(a, b),
        1 <= r.0 <= r.1,
{
    let (mut lo, mut hi) = if a > b { (b, a) } else { (a, b) };
    if lo < 1 {
        lo = 1;
    }
    if hi < 1 {
        hi = 1;
    }
    (lo, hi)
}

/// The range of clicks per second that the worker for `button` uses.
pub open spec fn button_range(button: MouseButton, cfg: ClickerConfigSnapshot) -> (u32, u32) {
    match button {
        MouseButton::Left => ordered_range(cfg.min_cps, cfg.max_cps),
        MouseButton::Right => ordered_range(cfg.min_right_cps, cfg.max_right_cps),
    }
}

/// The range of clicks per second that the worker for `button` uses: the
/// button's configured range, in order, each end at least one.
pub fn cps_range(button: MouseButton, cfg: &ClickerConfigSnapshot) -> (r: (u32, u32))
    ensures
        r == button_range(button, *cfg),
        1 <= r.0 <= r.1,
{
    match button {
        MouseButton::Left => order_range(cfg.min_cps, cfg.max_cps),
        MouseButton::Right => order_range(cfg.min_right_cps, cfg.max_right_cps),
    }
}

/// Fewest rounds a fatigue dip lasts.
pub const FATIGUE_MIN_TICKS: i32 = 3;

/// Most rounds a fatigue dip lasts.
pub const FATIGUE_MAX_TICKS: i32 = 10;

/// One clicking round of the fatigue counter, as `(ticks after, scaled,
/// started)`. With drops enabled, a round without a dip under way starts one of
/// `drawn` rounds when `triggered`; a round under a dip scales the range and
/// counts the dip down.
pub open spec fn fatigue_next(ticks: i32, drops_enabled: bool, triggered: bool, drawn: i32) -> (i32, bool, bool) {
    if !drops_enabled {
        (ticks, false, false)
    } else {
        let started = ticks <= 0 && triggered;
        let t = if started { drawn } else { ticks };
        if t > 0 {
            ((t - 1) as i32, true, started)
        } else {
            (t, false, started)
        }
    }
}

/// One clicking round of the fatigue counter (see `fatigue_next`).
pub fn fatigue_step(ticks: i32, drops_enabled: bool, triggered: bool, drawn: i32) -> (r: (i32, bool, bool))
    ensures
        r == fatigue_next(ticks, drops_enabled, triggered, drawn),
{
    if !drops_enabled {
        return (ticks, false, false);
    }
    let started = ticks <= 0 && triggered;
    let t = if started { drawn } else { ticks };
    if t > 0 {
        (t - 1, true, started)
    } else {
        (t, false, started)
    }
}

/// The outcome of one fatigue round for the worker.
pub struct FatigueRound {
    /// The click range is scaled down this round.
    pub scaled: bool,
    /// A new dip started this round, so its depth is to be drawn.
    pub started: bool,
}

/// The fatigue counter of one click worker.
pub struct Fatigue {
    pub ticks: i32,
}

impl Fatigue {
    /// No dip under way.
    pub fn new() -> (f: Fatigue)
        ensures
            f.ticks == 0,
    {
        Fatigue { ticks: 0 }
    }

    /// Ends any dip (the button was let go).
    pub fn reset(&mut self)
        ensures
            final(self).ticks == 0,
    {
        self.ticks = 0;
    }

    /// One clicking round: when a dip starts its length is drawn from
    /// `FATIGUE_MIN_TICKS..=FATIGUE_MAX_TICKS`.
    pub fn advance(&mut self, drops_enabled: bool, triggered: bool, rng: &mut rand::rngs::ThreadRng) -> (r: FatigueRound)
        ensures
            exists|d: i32| FATIGUE_MIN_TICKS <= d <= FATIGUE_MAX_TICKS
                && (final(self).ticks, r.scaled, r.started) == #[trigger] fatigue_next(old(self).ticks, drops_enabled, triggered, d),
    {
        let drawn = if drops_enabled && self.ticks <= 0 && triggered {
            random_between(rng, FATIGUE_MIN_TICKS, FATIGUE_MAX_TICKS)
        } else {
            FATIGUE_MIN_TICKS
        };
        let (t, scaled, started) = fatigue_step(self.ticks, drops_enabled, triggered, drawn);
        self.ticks = t;
        FatigueRound { scaled, started }
    }
}

/// What a precise wait does next.
pub enum SleepStep {
    /// The wait is over.
    Done,
    /// Sleep for this many nanoseconds.
    Sleep(u64),
    /// Give up the time slice.
    Yield,
    /// Spin until the deadline.
    Spin,
}

/// Above this many nanoseconds left, a precise wait sleeps.
pub const SLEEP_ABOVE_NANOS: u64 = 3_000_000;

/// How much of the time left a sleeping wait leaves to finish by yielding.
pub const SLEEP_MARGIN_NANOS: u64 = 1_000_000;

/// Above this many nanoseconds left (and up to `SLEEP_ABOVE_NANOS`), a precise
/// wait yields; at or below it, it spins.
pub const SPIN_GUARD_NANOS: u64 = 200_000;

/// The next step of a precise wait with `remaining` nanoseconds to go: done at
/// shutdown or at the deadline; else sleep all but a millisecond when more than
/// three are left, yield when more than 200 microseconds are left, else spin.
pub open spec fn sleep_step_spec(shutdown: bool, remaining: u64) -> SleepStep {
    if shutdown || remaining == 0 {
        SleepStep::Done
    } else if remaining > SLEEP_ABOVE_NANOS {
        SleepStep::Sleep((remaining - SLEEP_MARGIN_NANOS) as u64)
    } else if remaining > SPIN_GUARD_NANOS {
        SleepStep::Yield
    } else {
        SleepStep::Spin
    }
}

/// The next step of a precise wait (see `sleep_step_spec`).
pub fn sleep_step(shutdown: bool, remaining: u64) -> (r: SleepStep)
    ensures
        r == sleep_step_spec(shutdown, remaining),
{
    if shutdown || remaining == 0 {
        SleepStep::Done
    } else if remaining > SLEEP_ABOVE_NANOS {
        SleepStep::Sleep(remaining - SLEEP_MARGIN_NANOS)
    } else if remaining > SPIN_GUARD_NANOS {
        SleepStep::Yield
    } else {
        SleepStep::Spin
    }
}

/// Whether a lowercase window title names the game or one of its launchers.
pub open spec fn names_game(lowered: Seq<char>) -> bool {
    ||| occurs_in(lowered, "minecraft"@)
    ||| occurs_in(lowered, "javaw"@)
    ||| occurs_in(lowered, "lunar"@)
    ||| occurs_in(lowered, "badlion"@)
    ||| occurs_in(lowered, "feather"@)
    ||| occurs_in(lowered, "cheatbreaker"@)
}

/// What `str::to_lowercase` returns for `s` (full Unicode lowercase mapping).
pub uninterp spec fn lowercase_of(s: Seq<char>) -> Seq<char>;

/// `str::to_lowercase` of std: the Unicode lowercase of `s`. Its result is a
/// function of `s` alone and is named `lowercase_of`; the mapping itself (which
/// takes the Unicode tables) is not stated.
#[verifier::external_body]
fn to_lowercase(s: &str) -> (r: String)
    ensures
        r@ == lowercase_of(s@),
{
    s.to_lowercase()
}

/// Whether an already lowercase title names the game (see `names_game`).
pub fn title_names_game(lowered: &str) -> (r: bool)
    ensures
        r == names_game(lowered@),
{
    let t = chars_of(lowered);
    contains_text(&t, &chars_of("minecraft")) || contains_text(&t, &chars_of("javaw"))
        || contains_text(&t, &chars_of("lunar")) || contains_text(&t, &chars_of("badlion"))
        || contains_text(&t, &chars_of("feather")) || contains_text(&t, &chars_of("cheatbreaker"))
}

/// Whether a window title, lowercased, names the game or one of its launchers.
pub fn is_game_window_title(title: &str) -> (r: bool)
    ensures
        r == names_game(lowercase_of(title@)),
{
    let lowered = to_lowercase(title);
    title_names_game(lowered.as_str())
}


/// With drops enabled, the fatigue counter stays within its bounds: from
/// `0..=FATIGUE_MAX_TICKS`, with a dip length drawn from
/// `FATIGUE_MIN_TICKS..=FATIGUE_MAX_TICKS`, the next count is in
/// `0..FATIGUE_MAX_TICKS`; a dip that starts scales its first round.
pub proof fn law_fatigue_bounded(ticks: i32, triggered: bool, drawn: i32)
    requires
        0 <= ticks <= FATIGUE_MAX_TICKS,
        FATIGUE_MIN_TICKS <= drawn <= FATIGUE_MAX_TICKS,
    ensures
        0 <= fatigue_next(ticks, true, triggered, drawn).0 < FATIGUE_MAX_TICKS,
        fatigue_next(ticks, true, triggered, drawn).2 ==> fatigue_next(ticks, true, triggered, drawn).1,
        fatigue_next(ticks, true, triggered, drawn).2 ==> fatigue_next(ticks, true, triggered, drawn).0 == drawn - 1,
{
}

/// A dip under way scales the round and counts down by one, whatever the draw.
pub proof fn law_fatigue_counts_down(ticks: i32, triggered: bool, drawn: i32)
    requires
        ticks > 0,
    ensures
        fatigue_next(ticks, true, triggered, drawn) == ((ticks - 1) as i32, true, false),
{
}

/// Without drops the counter never moves and no round is scaled.
pub proof fn law_no_drops_no_fatigue(ticks: i32, triggered: bool, drawn: i32)
    ensures
        fatigue_next(ticks, false, triggered, drawn) == (ticks, false, false),
{
}

/// A sleeping wait stops exactly one margin before the deadline.
pub proof fn law_sleep_leaves_margin(remaining: u64)
    requires
        remaining > SLEEP_ABOVE_NANOS,
    ensures
        sleep_step_spec(false, remaining) == SleepStep::Sleep((remaining - SLEEP_MARGIN_NANOS) as u64),
        remaining - SLEEP_MARGIN_NANOS > SLEEP_MARGIN_NANOS,
{
}


/// Whether a worker round that reached the window check clicks: the worker is
/// running, and when clicks are limited to the game, the foreground window's
/// title (lowercased) names it.
pub open spec fn round_presses_spec(
    button: MouseButton,
    active: bool,
    pressed: bool,
    cfg: ClickerConfigSnapshot,
    title: Seq<char>,
) -> bool {
    running_spec(button, active, pressed, cfg.right_click_enabled) && (!cfg.only_in_minecraft || names_game(
        lowercase_of(title),
    ))
}

/// Whether this round clicks (see `round_presses_spec`). `title` is only read
/// when clicks are limited to the game.
pub fn round_presses(
    button: MouseButton,
    active: bool,
    pressed: bool,
    cfg: &ClickerConfigSnapshot,
    title: &str,
) -> (r: bool)
    ensures
        r == round_presses_spec(button, active, pressed, *cfg, title@),
{
    if !click_running(button, active, pressed, cfg.right_click_enabled) {
        return false;
    }
    !cfg.only_in_minecraft || is_game_window_title(title)
}

/// A round clicks only while the clicker is on and the button is held (for
/// the right button, only with right clicking enabled), and, for either
/// button, with clicks limited to the game, only when the window title
/// (lowercased) names the game. Without that limit the title plays no part.
pub proof fn law_round_needs_game_window(
    button: MouseButton,
    active: bool,
    pressed: bool,
    cfg: ClickerConfigSnapshot,
    title: Seq<char>,
    other_title: Seq<char>,
)
    ensures
        round_presses_spec(button, active, pressed, cfg, title) ==> active && pressed,
        round_presses_spec(button, active, pressed, cfg, title) && button == MouseButton::Right
            ==> cfg.right_click_enabled,
        round_presses_spec(button, active, pressed, cfg, title) && cfg.only_in_minecraft ==> names_game(
            lowercase_of(title),
        ),
        !cfg.only_in_minecraft ==> round_presses_spec(button, active, pressed, cfg, title)
            == round_presses_spec(button, active, pressed, cfg, other_title),
        !cfg.only_in_minecraft ==> round_presses_spec(button, active, pressed, cfg, title)
            == running_spec(button, active, pressed, cfg.right_click_enabled),
{
}

/// Putting a range in order does not depend on the order of its ends: the
/// lower end is the smaller end and the upper the larger, each lifted to at
/// least one.
pub proof fn law_ordered_range(a: u32, b: u32)
    ensures
        ordered_range(a, b) == ordered_range(b, a),
        ordered_range(a, b).0 <= ordered_range(a, b).1,
        ordered_range(a, b).0 == (if a <= b { if a < 1 { 1 } else { a } } else { if b < 1 { 1 } else { b } }),
        ordered_range(a, b).1 == (if a <= b { if b < 1 { 1 } else { b } } else { if a < 1 { 1 } else { a } }),
{
}

/// Each button's worker reads its own settings: the left button's range
/// depends only on `min_cps` and `max_cps`, the right button's only on
/// `min_right_cps` and `max_right_cps`; and right clicking being enabled
/// matters to the right button's worker alone.
pub proof fn law_buttons_use_own_settings(
    cfg: ClickerConfigSnapshot,
    other: ClickerConfigSnapshot,
    active: bool,
    pressed: bool,
    enabled: bool,
)
    ensures
        cfg.min_cps == other.min_cps && cfg.max_cps == other.max_cps ==> button_range(MouseButton::Left, cfg)
            == button_range(MouseButton::Left, other),
        cfg.min_right_cps == other.min_right_cps && cfg.max_right_cps == other.max_right_cps ==> button_range(
            MouseButton::Right,
            cfg,
        ) == button_range(MouseButton::Right, other),
        running_spec(MouseButton::Left, active, pressed, enabled) == running_spec(
            MouseButton::Left,
            active,
            pressed,
            !enabled,
        ),
        !running_spec(MouseButton::Right, active, pressed, false),
{
}

} // verus!
