//! What the click workers read from the shared settings, and the debounce rule
//! of the on/off toggle.
use vstd::prelude::*;

use crate::config::AppConfig;

verus! {

/// The settings a click worker reads on each round.
#[derive(Clone, Copy, Debug)]
pub struct ClickerConfigSnapshot {
    pub min_cps: u32,
    pub max_cps: u32,
    pub min_right_cps: u32,
    pub max_right_cps: u32,
    pub right_click_enabled: bool,
    pub cps_drops_enabled: bool,
    pub only_in_minecraft: bool,
}

impl ClickerConfigSnapshot {
    /// The worker's part of `cfg`.
    pub fn of(cfg: &AppConfig) -> (s: ClickerConfigSnapshot)
        ensures
            s.min_cps == cfg.min_cps,
            s.max_cps == cfg.max_cps,
            s.min_right_cps == cfg.min_right_cps,
            s.max_right_cps == cfg.max_right_cps,
            s.right_click_enabled == cfg.right_click_enabled,
            s.cps_drops_enabled == cfg.cps_drops_enabled,
            s.only_in_minecraft == cfg.only_in_minecraft,
    {
        ClickerConfigSnapshot {
            min_cps: cfg.min_cps,
            max_cps: cfg.max_cps,
            min_right_cps: cfg.min_right_cps,
            max_right_cps: cfg.max_right_cps,
            right_click_enabled: cfg.right_click_enabled,
            cps_drops_enabled: cfg.cps_drops_enabled,
            only_in_minecraft: cfg.only_in_minecraft,
        }
    }
}

/// Whether a toggle at time `now` (milliseconds) may go ahead after the last one
/// at `last`: at least `min_gap_ms` have passed (a clock that went back counts
/// as no time passed).
pub open spec fn toggle_allowed_spec(now: u64, last: u64, min_gap_ms: u64) -> bool {
    (if now >= last { now - last } else { 0 }) >= min_gap_ms
}

/// Whether a toggle at `now` may go ahead after the last one at `last`.
pub fn toggle_allowed(now: u64, last: u64, min_gap_ms: u64) -> (r: bool)
    ensures
        r == toggle_allowed_spec(now, last, min_gap_ms),
{
    !(now.saturating_sub(last) < min_gap_ms)
}

/// The on/off state of the clicker with the time of its last toggle.
pub struct ToggleState {
    pub active: bool,
    pub last_toggle_ms: u64,
}

/// The state after a debounced toggle at `now`: flipped and stamped with
/// `now` when allowed, else unchanged.
pub open spec fn after_toggle(s: ToggleState, now: u64, min_gap_ms: u64) -> ToggleState {
    if toggle_allowed_spec(now, s.last_toggle_ms, min_gap_ms) {
        ToggleState { active: !s.active, last_toggle_ms: now }
    } else {
        s
    }
}

impl ToggleState {
    /// Off, never toggled.
    pub fn new() -> (s: ToggleState)
        ensures
            !s.active,
            s.last_toggle_ms == 0,
    {
        ToggleState { active: false, last_toggle_ms: 0 }
    }

    /// Flips the state; returns the new one.
    pub fn toggle(&mut self) -> (now_active: bool)
        ensures
            final(self).active == !old(self).active,
            final(self).last_toggle_ms == old(self).last_toggle_ms,
            now_active == final(self).active,
    {
        self.active = !self.active;
        self.active
    }

    /// Flips the state at time `now` unless the last toggle was less than
    /// `min_gap_ms` ago; returns the state afterwards.
    pub fn toggle_debounced(&mut self, now: u64, min_gap_ms: u64) -> (now_active: bool)
        ensures
            *final(self) == after_toggle(*old(self), now, min_gap_ms),
            now_active == final(self).active,
    {
        if !toggle_allowed(now, self.last_toggle_ms, min_gap_ms) {
            return self.active;
        }
        self.last_toggle_ms = now;
        self.toggle()
    }
}

/// A second toggle less than `min_gap_ms` after one that went ahead is
/// ignored.
pub proof fn law_debounce_ignores_quick_repeat(s: ToggleState, t1: u64, t2: u64, min_gap_ms: u64)
    requires
        toggle_allowed_spec(t1, s.last_toggle_ms, min_gap_ms),
        t1 <= t2,
        t2 - t1 < min_gap_ms,
    ensures
        after_toggle(after_toggle(s, t1, min_gap_ms), t2, min_gap_ms) == after_toggle(s, t1, min_gap_ms),
{
}

/// Two toggles that both go ahead leave the clicker as it was.
pub proof fn law_two_toggles_restore(s: ToggleState, t1: u64, t2: u64, min_gap_ms: u64)
    requires
        toggle_allowed_spec(t1, s.last_toggle_ms, min_gap_ms),
        toggle_allowed_spec(t2, t1, min_gap_ms),
    ensures
        after_toggle(after_toggle(s, t1, min_gap_ms), t2, min_gap_ms).active == s.active,
{
}


/// The state after debounced toggles at the times `times`, one after another.
pub open spec fn after_toggles(s: ToggleState, times: Seq<u64>, min_gap_ms: u64) -> ToggleState
    decreases times.len(),
{
    if times.len() == 0 {
        s
    } else {
        after_toggle(after_toggles(s, times.drop_last(), min_gap_ms), times.last(), min_gap_ms)
    }
}

/// The times among `times` at which a debounced toggle went ahead, in order.
pub open spec fn accepted_toggles(s: ToggleState, times: Seq<u64>, min_gap_ms: u64) -> Seq<u64>
    decreases times.len(),
{
    if times.len() == 0 {
        Seq::<u64>::empty()
    } else {
        let before = after_toggles(s, times.drop_last(), min_gap_ms);
        let a = accepted_toggles(s, times.drop_last(), min_gap_ms);
        if toggle_allowed_spec(times.last(), before.last_toggle_ms, min_gap_ms) {
            a.push(times.last())
        } else {
            a
        }
    }
}

/// Over any sequence of debounced toggles (as the callers make them, one at a
/// time) with a positive gap: each toggle that goes ahead comes at least
/// `min_gap_ms` after the one before it (the first one at least that long
/// after the starting stamp); the clicker is flipped exactly once per toggle
/// that goes ahead, so it ends on when the starting state and the parity of
/// their number say so; and the stamp is the time of the last one.
pub proof fn law_debounce_sequence(s: ToggleState, times: Seq<u64>, min_gap_ms: u64)
    requires
        min_gap_ms > 0,
    ensures
        ({
            let a = accepted_toggles(s, times, min_gap_ms);
            let e = after_toggles(s, times, min_gap_ms);
            &&& a.len() > 0 ==> a[0] >= s.last_toggle_ms + min_gap_ms
            &&& forall|i: int| 0 <= i < a.len() - 1 ==> #[trigger] a[i + 1] >= a[i] + min_gap_ms
            &&& e.active == (s.active != (a.len() % 2 == 1))
            &&& e.last_toggle_ms == if a.len() == 0 { s.last_toggle_ms } else { a.last() }
        }),
    decreases times.len(),
{
    if times.len() > 0 {
        let d = times.drop_last();
        law_debounce_sequence(s, d, min_gap_ms);
        let a0 = accepted_toggles(s, d, min_gap_ms);
        let a = accepted_toggles(s, times, min_gap_ms);
        if a.len() > a0.len() {
            assert(a == a0.push(times.last()));
            assert forall|i: int| 0 <= i < a.len() - 1 implies #[trigger] a[i + 1] >= a[i] + min_gap_ms by {
                if i < a0.len() - 1 {
                    assert(a[i + 1] == a0[i + 1] && a[i] == a0[i]);
                } else {
                    assert(a[i] == a0.last());
                }
            }
            if a0.len() == 0 {
                assert(a[0] == times.last());
            } else {
                assert(a[0] == a0[0]);
            }
        }
    }
}

} // verus!
