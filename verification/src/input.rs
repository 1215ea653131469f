//! What a global key press or release does: track the keys held down, fire the
//! toggle when the keybind becomes complete, and record a new keybind while one
//! is being captured.
use vstd::prelude::*;

use crate::text::{chars_of, chars_of_all, holds_chars, same_chars, string_views, strings_of_all, views};

verus! {

/// How many held keys are remembered before the record is cleared.
pub const MAX_HELD_KEYS: usize = 20;

/// The keys that are held down, each once.
pub struct PressedKeys {
    keys: Vec<Vec<char>>,
}

impl View for PressedKeys {
    type V = Set<Seq<char>>;

    closed spec fn view(&self) -> Set<Seq<char>> {
        views(self.keys@).to_set()
    }
}

/// `s` with every repeat left out, first occurrences kept in order.
pub open spec fn without_repeats(s: Seq<Seq<char>>) -> Seq<Seq<char>>
    decreases s.len(),
{
    if s.len() == 0 {
        s
    } else {
        let acc = without_repeats(s.drop_last());
        if acc.contains(s.last()) {
            acc
        } else {
            acc.push(s.last())
        }
    }
}

/// The held keys after `key` goes down: the record is first cleared when it
/// holds more than `MAX_HELD_KEYS` keys.
pub open spec fn held_after_press(held: Set<Seq<char>>, key: Seq<char>) -> Set<Seq<char>> {
    let base = if held.len() > MAX_HELD_KEYS { Set::<Seq<char>>::empty() } else { held };
    base.insert(key)
}

/// Whether `key` going down completes the keybind `keybinds`: the key belongs to
/// it, was not already held, and every key of the keybind is held afterwards.
pub open spec fn press_toggles(held: Set<Seq<char>>, keybinds: Seq<Seq<char>>, key: Seq<char>) -> bool {
    let base = if held.len() > MAX_HELD_KEYS { Set::<Seq<char>>::empty() } else { held };
    &&& keybinds.len() > 0
    &&& keybinds.contains(key)
    &&& !base.contains(key)
    &&& forall|i: int| 0 <= i < keybinds.len() ==> held_after_press(held, key).contains(#[trigger] keybinds[i])
}

/// What a key release means.
pub enum ReleaseOutcome {
    /// The key is no longer held.
    Released,
    /// A capture ended; it holds the new keybind when any key was captured.
    CaptureEnded(Option<Vec<String>>),
}

impl PressedKeys {
    #[verifier::type_invariant]
    closed spec fn inv(self) -> bool {
        views(self.keys@).no_duplicates()
    }

    /// No key held.
    pub fn new() -> (r: PressedKeys)
        ensures
            r@ == Set::<Seq<char>>::empty(),
    {
        let r = PressedKeys { keys: Vec::new() };
        assert(views(r.keys@).to_set() =~= Set::<Seq<char>>::empty());
        r
    }

    /// How many keys are held.
    pub fn len(&self) -> (n: usize)
        ensures
            n == self@.len(),
            self@.finite(),
    {
        proof {
            use_type_invariant(self);
            views(self.keys@).unique_seq_to_set();
        }
        self.keys.len()
    }

    /// Whether `key` is held.
    pub fn contains(&self, key: &Vec<char>) -> (r: bool)
        ensures
            r == self@.contains(key@),
    {
        let mut i: usize = 0;
        while i < self.keys.len()
            invariant
                i <= self.keys.len(),
                forall|k: int| 0 <= k < i ==> self.keys@[k]@ != key@,
            decreases self.keys.len() - i,
        {
            if same_chars(&self.keys[i], key) {
                assert(views(self.keys@)[i as int] == key@);
                return true;
            }
            i = i + 1;
        }
        assert(!views(self.keys@).contains(key@)) by {
            assert forall|k: int| 0 <= k < views(self.keys@).len() implies views(self.keys@)[k] != key@ by {
                assert(views(self.keys@)[k] == self.keys@[k]@);
            }
        }
        false
    }

    /// Forgets every held key.
    pub fn clear(&mut self)
        ensures
            final(self)@ == Set::<Seq<char>>::empty(),
    {
        self.keys = Vec::new();
        assert(views(self.keys@).to_set() =~= Set::<Seq<char>>::empty());
    }

    /// Records `key` as held.
    pub fn insert(&mut self, key: Vec<char>)
        ensures
            final(self)@ == old(self)@.insert(key@),
    {
        proof {
            use_type_invariant(&*self);
        }
        if !self.contains(&key) {
            let ghost before = views(self.keys@);
            let mut keys = Vec::new();
            std::mem::swap(&mut keys, &mut self.keys);
            keys.push(key);
            assert(views(keys@) =~= before.push(key@));
            proof {
                before.lemma_push_to_set_commute(key@);
                lemma_push_keeps_unique(before, key@);
            }
            self.keys = keys;
        }
        assert(old(self)@.insert(key@) =~= final(self)@);
    }

    /// Records `key` as no longer held.
    pub fn remove(&mut self, key: &Vec<char>)
        ensures
            final(self)@ == old(self)@.remove(key@),
    {
        proof {
            use_type_invariant(&*self);
        }
        let mut i: usize = 0;
        while i < self.keys.len()
            invariant
                i <= self.keys.len(),
                self.keys@ == old(self).keys@,
                views(self.keys@).no_duplicates(),
                forall|k: int| 0 <= k < i ==> self.keys@[k]@ != key@,
            decreases self.keys.len() - i,
        {
            if same_chars(&self.keys[i], key) {
                let ghost before = views(self.keys@);
                let mut keys = Vec::new();
                std::mem::swap(&mut keys, &mut self.keys);
                keys.remove(i);
                assert(views(keys@) =~= before.remove(i as int));
                assert(before[i as int] == key@);
                proof {
                    lemma_remove_at_set(before, i as int);
                }
                self.keys = keys;
                return;
            }
            i = i + 1;
        }
        assert(!views(self.keys@).contains(key@)) by {
            assert forall|k: int| 0 <= k < views(self.keys@).len() implies views(self.keys@)[k] != key@ by {
                assert(views(self.keys@)[k] == self.keys@[k]@);
            }
        }
        assert(old(self)@.remove(key@) =~= final(self)@);
    }
}

proof fn lemma_push_keeps_unique(s: Seq<Seq<char>>, x: Seq<char>)
    requires
        s.no_duplicates(),
        !s.contains(x),
    ensures
        s.push(x).no_duplicates(),
{
    assert forall|i: int, j: int| 0 <= i < s.push(x).len() && 0 <= j < s.push(x).len() && i != j implies s.push(x)[i] != s.push(x)[j] by {
        if i < s.len() && j < s.len() {
            assert(s[i] != s[j]);
        } else if i < s.len() {
            assert(s[i] != x);
        } else if j < s.len() {
            assert(s[j] != x);
        }
    }
}

proof fn lemma_remove_at_set(s: Seq<Seq<char>>, i: int)
    requires
        s.no_duplicates(),
        0 <= i < s.len(),
    ensures
        s.remove(i).to_set() =~= s.to_set().remove(s[i]),
        s.remove(i).no_duplicates(),
{
    let r = s.remove(i);
    assert forall|x: Seq<char>| r.contains(x) implies s.to_set().remove(s[i]).contains(x) by {
        let j = choose|j: int| 0 <= j < r.len() && r[j] == x;
        if j < i {
            assert(s[j] == x);
            assert(s[j] != s[i]);
        } else {
            assert(s[j + 1] == x);
            assert(s[j + 1] != s[i]);
        }
    }
    assert forall|x: Seq<char>| s.to_set().remove(s[i]).contains(x) implies r.contains(x) by {
        let j = choose|j: int| 0 <= j < s.len() && s[j] == x;
        if j < i {
            assert(r[j] == x);
        } else {
            assert(j != i);
            assert(r[j - 1] == x);
        }
    }
    assert forall|a: int, b: int| 0 <= a < r.len() && 0 <= b < r.len() && a != b implies r[a] != r[b] by {
        let a2 = if a < i { a } else { a + 1 };
        let b2 = if b < i { b } else { b + 1 };
        assert(r[a] == s[a2]);
        assert(r[b] == s[b2]);
    }
}

/// Whether every token of `keybinds` is held.
fn all_held(pressed: &PressedKeys, keybinds: &Vec<Vec<char>>) -> (r: bool)
    ensures
        r == (forall|i: int| 0 <= i < keybinds.len() ==> pressed@.contains(#[trigger] views(keybinds@)[i])),
{
    let mut i: usize = 0;
    while i < keybinds.len()
        invariant
            i <= keybinds.len(),
            forall|k: int| 0 <= k < i ==> pressed@.contains(#[trigger] views(keybinds@)[k]),
        decreases keybinds.len() - i,
    {
        if !pressed.contains(&keybinds[i]) {
            assert(views(keybinds@)[i as int] == keybinds@[i as int]@);
            return false;
        }
        i = i + 1;
    }
    true
}

/// Records a key pressed during a capture: added at the end unless already there.
pub fn capture_press(captured: &mut Vec<String>, key: String)
    ensures
        string_views(final(captured)@) == if string_views(old(captured)@).contains(key@) {
            string_views(old(captured)@)
        } else {
            string_views(old(captured)@).push(key@)
        },
{
    let mut i: usize = 0;
    let k = chars_of(key.as_str());
    while i < captured.len()
        invariant
            i <= captured.len(),
            captured@ == old(captured)@,
            k@ == key@,
            forall|j: int| 0 <= j < i ==> captured@[j]@ != key@,
        decreases captured.len() - i,
    {
        let c = chars_of(captured[i].as_str());
        if same_chars(&c, &k) {
            assert(string_views(captured@)[i as int] == key@);
            return;
        }
        i = i + 1;
    }
    assert(!string_views(captured@).contains(key@)) by {
        assert forall|j: int| 0 <= j < string_views(captured@).len() implies string_views(captured@)[j] != key@ by {
            assert(string_views(captured@)[j] == captured@[j]@);
        }
    }
    let ghost before = string_views(captured@);
    captured.push(key);
    assert(string_views(captured@) =~= before.push(key@));
}

/// Ends a capture: the captured keys, each once in the order first pressed,
/// become the new keybind when there are any; the capture record is emptied.
pub fn capture_release(captured: &mut Vec<String>) -> (r: Option<Vec<String>>)
    ensures
        final(captured)@.len() == 0,
        match r {
            Some(keys) => without_repeats(string_views(old(captured)@)).len() > 0
                && string_views(keys@) == without_repeats(string_views(old(captured)@)),
            None => without_repeats(string_views(old(captured)@)).len() == 0,
        },
{
    let mut unique: Vec<Vec<char>> = Vec::new();
    let mut i: usize = 0;
    let ghost all = string_views(captured@);
    assert(all.take(0) =~= Seq::<Seq<char>>::empty());
    while i < captured.len()
        invariant
            i <= captured.len(),
            all == string_views(captured@),
            views(unique@) == without_repeats(all.take(i as int)),
        decreases captured.len() - i,
    {
        let c = chars_of(captured[i].as_str());
        assert(all.take(i + 1).drop_last() =~= all.take(i as int));
        assert(all.take(i + 1).last() == c@);
        if !holds_chars(&unique, &c) {
            let ghost before = views(unique@);
            unique.push(c);
            assert(views(unique@) =~= before.push(c@));
        }
        i = i + 1;
    }
    assert(all.take(captured.len() as int) =~= all);
    captured.clear();
    if unique.len() == 0 {
        None
    } else {
        Some(strings_of_all(&unique))
    }
}

/// A key went down. During a capture it is recorded for the new keybind. Else,
/// unless a system hotkey already handles the keybind or no keybind is set, it
/// is recorded as held (the record first cleared when it holds more than
/// `MAX_HELD_KEYS` keys), and the result says whether the keybind toggle fires
/// (see `press_toggles`).
pub fn on_key_press(
    pressed: &mut PressedKeys,
    captured: &mut Vec<String>,
    capture_mode: bool,
    hotkey_registered: bool,
    keybinds: &[String],
    key: String,
) -> (toggle: bool)
    ensures
        capture_mode ==> {
            &&& !toggle
            &&& final(pressed)@ == old(pressed)@
            &&& string_views(final(captured)@) == if string_views(old(captured)@).contains(key@) {
                string_views(old(captured)@)
            } else {
                string_views(old(captured)@).push(key@)
            }
        },
        !capture_mode ==> final(captured)@ == old(captured)@,
        !capture_mode && (hotkey_registered || keybinds@.len() == 0) ==> {
            &&& !toggle
            &&& final(pressed)@ == old(pressed)@
        },
        !capture_mode && !hotkey_registered && keybinds@.len() > 0 ==> {
            &&& final(pressed)@ == held_after_press(old(pressed)@, key@)
            &&& toggle == press_toggles(old(pressed)@, string_views(keybinds@), key@)
        },
{
    if capture_mode {
        capture_press(captured, key);
        return false;
    }
    if hotkey_registered {
        return false;
    }
    if keybinds.len() == 0 {
        return false;
    }
    let binds = chars_of_all(keybinds);
    let k = chars_of(key.as_str());
    let n = pressed.len();
    if n > MAX_HELD_KEYS {
        pressed.clear();
    }
    let ghost base = pressed@;
    let in_bind = holds_chars(&binds, &k);
    let already_pressed = pressed.contains(&k) && in_bind;
    pressed.insert(k);
    let complete = all_held(pressed, &binds);
    let ghost kb = string_views(keybinds@);
    assert(views(binds@) == kb);
    assert(complete == (forall|i: int| 0 <= i < kb.len() ==> held_after_press(old(pressed)@, key@).contains(#[trigger] kb[i])));
    complete && in_bind && !already_pressed
}

/// A key went up. During a capture this ends it (see `capture_release`);
/// else the key is no longer held.
pub fn on_key_release(
    pressed: &mut PressedKeys,
    captured: &mut Vec<String>,
    capture_mode: bool,
    key: String,
) -> (r: ReleaseOutcome)
    ensures
        capture_mode ==> {
            &&& final(pressed)@ == old(pressed)@
            &&& final(captured)@.len() == 0
            &&& match r {
                ReleaseOutcome::CaptureEnded(Some(keys)) => without_repeats(string_views(old(captured)@)).len() > 0
                    && string_views(keys@) == without_repeats(string_views(old(captured)@)),
                ReleaseOutcome::CaptureEnded(None) => without_repeats(string_views(old(captured)@)).len() == 0,
                ReleaseOutcome::Released => false,
            }
        },
        !capture_mode ==> {
            &&& r is Released
            &&& final(captured)@ == old(captured)@
            &&& final(pressed)@ == old(pressed)@.remove(key@)
        },
{
    if capture_mode {
        let keys = capture_release(captured);
        return ReleaseOutcome::CaptureEnded(keys);
    }
    let k = chars_of(key.as_str());
    pressed.remove(&k);
    ReleaseOutcome::Released
}


/// Holding a key down (its press repeating) does not fire the toggle again,
/// as long as the record of held keys is not cleared in between.
pub proof fn law_repeat_press_no_toggle(held: Set<Seq<char>>, keybinds: Seq<Seq<char>>, key: Seq<char>)
    requires
        held_after_press(held, key).len() <= MAX_HELD_KEYS,
    ensures
        !press_toggles(held_after_press(held, key), keybinds, key),
{
}

/// Releasing a key that was not held before its press leaves the held keys as
/// they were.
pub proof fn law_release_undoes_press(held: Set<Seq<char>>, key: Seq<char>)
    requires
        held.len() <= MAX_HELD_KEYS,
        !held.contains(key),
    ensures
        held_after_press(held, key).remove(key) == held,
{
    assert(held.insert(key).remove(key) =~= held);
}

/// A captured keybind holds no key twice, and holds every captured key.
pub proof fn law_capture_without_repeats(s: Seq<Seq<char>>)
    ensures
        without_repeats(s).no_duplicates(),
        forall|i: int| 0 <= i < s.len() ==> without_repeats(s).contains(#[trigger] s[i]),
        forall|i: int| 0 <= i < without_repeats(s).len() ==> s.contains(#[trigger] without_repeats(s)[i]),
    decreases s.len(),
{
    if s.len() > 0 {
        let d = s.drop_last();
        law_capture_without_repeats(d);
        let acc = without_repeats(d);
        let x = s[s.len() - 1];
        if !acc.contains(x) {
            let g = acc.push(x);
            assert forall|i: int, j: int| 0 <= i < g.len() && 0 <= j < g.len() && i != j implies g[i] != g[j] by {
                if i < acc.len() && j < acc.len() {
                    assert(acc[i] != acc[j]);
                } else if i < acc.len() {
                    assert(acc[i] != x);
                } else if j < acc.len() {
                    assert(acc[j] != x);
                }
            }
            assert forall|i: int| 0 <= i < s.len() implies g.contains(#[trigger] s[i]) by {
                if i < d.len() {
                    assert(d[i] == s[i]);
                    assert(acc.contains(d[i]));
                    let k = choose|k: int| 0 <= k < acc.len() && acc[k] == d[i];
                    assert(g[k] == s[i]);
                } else {
                    assert(g[acc.len() as int] == x);
                }
            }
            assert forall|i: int| 0 <= i < g.len() implies s.contains(#[trigger] g[i]) by {
                if i < acc.len() {
                    assert(g[i] == acc[i]);
                    assert(d.contains(acc[i]));
                    let k = choose|k: int| 0 <= k < d.len() && d[k] == acc[i];
                    assert(s[k] == g[i]);
                } else {
                    assert(s[s.len() - 1] == g[i]);
                }
            }
        } else {
            assert forall|i: int| 0 <= i < s.len() implies acc.contains(#[trigger] s[i]) by {
                if i < d.len() {
                    assert(d[i] == s[i]);
                }
            }
            assert forall|i: int| 0 <= i < acc.len() implies s.contains(#[trigger] acc[i]) by {
                assert(d.contains(acc[i]));
                let k = choose|k: int| 0 <= k < d.len() && d[k] == acc[i];
                assert(s[k] == acc[i]);
            }
        }
    }
}

/// A key press fires the toggle only for a key of the keybind that was not
/// already held, and only when every key of the keybind is held afterwards: a
/// key outside the keybind never fires it, even while the keybind is held.
pub proof fn law_press_toggles_only_bind_keys(held: Set<Seq<char>>, keybinds: Seq<Seq<char>>, key: Seq<char>)
    ensures
        press_toggles(held, keybinds, key) ==> keybinds.contains(key),
        press_toggles(held, keybinds, key) ==> forall|i: int|
            0 <= i < keybinds.len() ==> held_after_press(held, key).contains(#[trigger] keybinds[i]),
        press_toggles(held, keybinds, key) && held.len() <= MAX_HELD_KEYS ==> !held.contains(key),
        !keybinds.contains(key) ==> !press_toggles(held, keybinds, key),
{
}

} // verus!
