//! Laws of the configuration: the ranges it is kept in, and that reading back
//! the stored text gives the settings that were stored.
use vstd::prelude::*;

use crate::config::{
    bool_or, bool_text, config_lines, default_model, entries, gathered_tokens, header_line, in_range,
    keybinds_from, line_block, line_entry, lookup, parse_bool_spec, parsed_config, rendered, sanitized,
    setting, setting_line, u32_or, ConfigModel,
};
use crate::keybind::{normalized, DEFAULT_KEYBIND};
use crate::text::{
    decimal, find_char, is_digit, is_ws, join, lemma_concat_avoids, lemma_decimal_parses,
    lemma_find_char_at, lemma_join_avoids, lemma_join_ends, lemma_split_extend, lemma_split_join,
    lemma_split_len, lemma_split_pieces_avoid, lemma_split_sep, lemma_subrange_avoids,
    lemma_trim_avoids, lemma_trim_fixed, lemma_trim_idempotent, lemma_trim_shape, parse_i32_spec,
    parse_u32_spec, split, trim, trim_end, trim_start,
};
use crate::config::{clamped, MAX_CPS, MAX_JITTER, MIN_CPS, MIN_JITTER};

verus! {

/// Splitting a block of lines at `\n` gives the lines back, and one empty piece
/// after the last line end.
pub proof fn lemma_split_block(ls: Seq<Seq<char>>)
    requires
        forall|i: int| 0 <= i < ls.len() ==> !(#[trigger] ls[i]).contains('\n'),
    ensures
        split(line_block(ls), '\n') == ls.push(Seq::<char>::empty()),
    decreases ls.len(),
{
    reveal_strlit("\n");
    if ls.len() == 0 {
        assert(split(Seq::<char>::empty(), '\n') =~= ls.push(Seq::<char>::empty()));
    } else {
        let d = ls.drop_last();
        assert forall|i: int| 0 <= i < d.len() implies !(#[trigger] d[i]).contains('\n') by {
            assert(d[i] == ls[i]);
        }
        lemma_split_block(d);
        let x = line_block(d);
        assert(!ls[ls.len() - 1].contains('\n'));
        lemma_split_extend(x, ls.last(), '\n');
        assert(Seq::<char>::empty() + ls.last() =~= ls.last());
        assert(split(x + ls.last(), '\n') =~= ls);
        assert(x + ls.last() + "\n"@ =~= (x + ls.last()).push('\n'));
        lemma_split_sep(x + ls.last(), '\n');
    }
}


/// A key that a `key=value` line can be read back for: non-empty, without
/// `=`, and neither starting nor ending with whitespace, and not starting a
/// comment.
pub open spec fn plain_key(key: Seq<char>) -> bool {
    &&& key.len() > 0
    &&& !is_ws(key[0])
    &&& !is_ws(key.last())
    &&& key[0] != '#'
    &&& key[0] != '!'
    &&& !key.contains('=')
}

/// A value that a `key=value` line can be read back for: non-empty and neither
/// starting nor ending with whitespace.
pub open spec fn plain_value(v: Seq<char>) -> bool {
    &&& v.len() > 0
    &&& !is_ws(v[0])
    &&& !is_ws(v.last())
}

/// A `key=value` line reads back as its key and value.
pub proof fn lemma_line_entry_kv(key: Seq<char>, v: Seq<char>)
    requires
        plain_key(key),
        plain_value(v),
    ensures
        line_entry(setting_line(key, v)) == Some((key, v)),
{
    reveal_strlit("=");
    let l = setting_line(key, v);
    assert(l[0] == key[0]);
    assert(l.last() == v.last());
    lemma_trim_fixed(l);
    assert forall|k: int| 0 <= k < key.len() implies l[k] != '=' by {
        assert(l[k] == key[k]);
        if key[k] == '=' {
            assert(key.contains('='));
        }
    }
    assert(l[key.len() as int] == '=');
    lemma_find_char_at(l, '=', key.len() as int);
    assert(l.subrange(0, key.len() as int) =~= key);
    assert(l.subrange(key.len() as int + 1, l.len() as int) =~= v);
    lemma_trim_fixed(key);
    lemma_trim_fixed(v);
}

/// The comment line and an empty line hold no pair.
pub proof fn lemma_no_entry_lines()
    ensures
        line_entry(header_line()) is None,
        line_entry(Seq::<char>::empty()) is None,
{
    reveal_strlit("# Vene Clicker Configuration");
    lemma_trim_fixed(header_line());
}

/// The pairs of lines that all hold one, after a first line that holds none.
pub proof fn lemma_entries_after_first(ls: Seq<Seq<char>>)
    requires
        ls.len() > 0,
        line_entry(ls[0]) is None,
        forall|i: int| 1 <= i < ls.len() ==> (#[trigger] line_entry(ls[i])) is Some,
    ensures
        entries(ls) == Seq::new((ls.len() - 1) as nat, |i: int| line_entry(ls[i + 1]).unwrap()),
    decreases ls.len(),
{
    if ls.len() == 1 {
        assert(ls.drop_last() =~= Seq::<Seq<char>>::empty());
        assert(ls.last() == ls[0]);
        assert(entries(ls) == entries(ls.drop_last()));
        assert(entries(ls) =~= Seq::new((ls.len() - 1) as nat, |i: int| line_entry(ls[i + 1]).unwrap()));
    } else {
        let d = ls.drop_last();
        assert forall|i: int| 1 <= i < d.len() implies (#[trigger] line_entry(d[i])) is Some by {
            assert(d[i] == ls[i]);
            assert(line_entry(ls[i]) is Some);
        }
        assert(d[0] == ls[0]);
        lemma_entries_after_first(d);
        assert(line_entry(ls[ls.len() - 1]) is Some);
        assert(entries(ls) =~= Seq::new((ls.len() - 1) as nat, |i: int| line_entry(ls[i + 1]).unwrap()));
    }
}

/// An empty last line adds no pair.
pub proof fn lemma_entries_trailing_empty(ls: Seq<Seq<char>>)
    ensures
        entries(ls.push(Seq::<char>::empty())) == entries(ls),
{
    lemma_no_entry_lines();
    assert(ls.push(Seq::<char>::empty()).drop_last() =~= ls);
}

/// The value of the last pair with the key.
pub proof fn lemma_lookup_at(es: Seq<(Seq<char>, Seq<char>)>, i: int, key: Seq<char>)
    requires
        0 <= i < es.len(),
        es[i].0 == key,
        forall|j: int| i < j < es.len() ==> (#[trigger] es[j]).0 != key,
    ensures
        lookup(es, key) == Some(es[i].1),
    decreases es.len(),
{
    if i < es.len() - 1 {
        let d = es.drop_last();
        assert(es[es.len() - 1].0 != key);
        assert forall|j: int| i < j < d.len() implies (#[trigger] d[j]).0 != key by {
            assert(d[j] == es[j]);
        }
        lemma_lookup_at(d, i, key);
    }
}


/// A keybind token that survives being stored and read back: non-empty,
/// neither starting nor ending with whitespace, without `:` or a line break,
/// and not a number (numbers are read as legacy key codes).
pub open spec fn storable_token(t: Seq<char>) -> bool {
    &&& t.len() > 0
    &&& !is_ws(t[0])
    &&& !is_ws(t.last())
    &&& !t.contains(':')
    &&& !t.contains('\n')
    &&& parse_i32_spec(t) is None
}

/// A keybind whose tokens are all storable and none repeated.
pub open spec fn storable_keybind(ks: Seq<Seq<char>>) -> bool {
    &&& forall|i: int| 0 <= i < ks.len() ==> storable_token(#[trigger] ks[i])
    &&& ks.no_duplicates()
}

/// A storable token normalises to itself.
pub proof fn lemma_normalized_storable(t: Seq<char>)
    requires
        storable_token(t),
    ensures
        normalized(t) == Some(t),
{
    lemma_trim_fixed(t);
}

/// Gathering tokens that normalise to themselves, none repeated, keeps them all.
pub proof fn lemma_gathered_fixed(ks: Seq<Seq<char>>)
    requires
        forall|i: int| 0 <= i < ks.len() ==> normalized(#[trigger] ks[i]) == Some(ks[i]),
        ks.no_duplicates(),
    ensures
        gathered_tokens(ks) == ks,
    decreases ks.len(),
{
    if ks.len() > 0 {
        let d = ks.drop_last();
        assert forall|i: int| 0 <= i < d.len() implies normalized(#[trigger] d[i]) == Some(d[i]) by {
            assert(d[i] == ks[i]);
        }
        assert(d.no_duplicates()) by {
            assert forall|i: int, j: int| 0 <= i < d.len() && 0 <= j < d.len() && i != j implies d[i] != d[j] by {
                assert(d[i] == ks[i] && d[j] == ks[j]);
            }
        }
        lemma_gathered_fixed(d);
        assert(normalized(ks[ks.len() - 1]) == Some(ks.last()));
        assert(!d.contains(ks.last())) by {
            if d.contains(ks.last()) {
                let i = choose|i: int| 0 <= i < d.len() && d[i] == ks.last();
                assert(ks[i] == ks[ks.len() - 1]);
            }
        }
        assert(d.push(ks.last()) =~= ks);
    }
}

/// The default keybind is storable.
pub proof fn lemma_default_storable()
    ensures
        storable_keybind(seq![DEFAULT_KEYBIND@]),
{
    reveal_strlit("KeyF");
    let t = DEFAULT_KEYBIND@;
    assert(!t.contains(':')) by {
        if t.contains(':') {
            let i = choose|i: int| 0 <= i < t.len() && t[i] == ':';
        }
    }
    assert(!t.contains('\n')) by {
        if t.contains('\n') {
            let i = choose|i: int| 0 <= i < t.len() && t[i] == '\n';
        }
    }
    assert(!is_digit(t[0]));
    let ks = seq![t];
    assert(storable_token(ks[0]));
}

/// A storable keybind, joined with `:`, reads back as itself.
pub proof fn lemma_keybinds_round_trip(ks: Seq<Seq<char>>)
    requires
        ks.len() > 0,
        storable_keybind(ks),
    ensures
        keybinds_from(join(ks, ":"@)) == ks,
{
    reveal_strlit(":");
    assert(":"@ =~= seq![':']);
    assert forall|i: int| 0 <= i < ks.len() implies !(#[trigger] ks[i]).contains(':') by {
        assert(storable_token(ks[i]));
    }
    lemma_split_join(ks, ':');
    assert forall|i: int| 0 <= i < ks.len() implies normalized(#[trigger] ks[i]) == Some(ks[i]) by {
        assert(storable_token(ks[i]));
        lemma_normalized_storable(ks[i]);
    }
    lemma_gathered_fixed(ks);
}

/// Bringing settings into range twice is bringing them into range once.
pub proof fn law_sanitize_idempotent(m: ConfigModel)
    ensures
        sanitized(sanitized(m)) == sanitized(m),
        in_range(sanitized(m)),
{
    assert(sanitized(sanitized(m)).keybinds =~= sanitized(m).keybinds);
}

/// Settings already in range are left as they are.
pub proof fn law_sanitize_keeps_in_range(m: ConfigModel)
    requires
        in_range(m),
    ensures
        sanitized(m) == m,
{
    assert(sanitized(m).keybinds =~= m.keybinds);
}

/// The default settings are in range.
pub proof fn law_default_in_range()
    ensures
        in_range(default_model()),
        sanitized(default_model()) == default_model(),
{
    law_sanitize_keeps_in_range(default_model());
}

/// Whatever the stored text holds, the settings read from it are in range.
pub proof fn law_parsed_in_range(content: Seq<char>)
    ensures
        in_range(parsed_config(content)),
{
    let p = parsed_config(content);
    reveal_strlit("KeyF");
    assert(keybinds_from(match setting(content, "keybinds"@) {
        Some(v) => v,
        None => Seq::<char>::empty(),
    }).len() > 0);
}


proof fn lemma_no_newline_literal(t: Seq<char>)
    requires
        forall|i: int| 0 <= i < t.len() ==> t[i] != '\n',
    ensures
        !t.contains('\n'),
{
}

proof fn lemma_no_eq_literal(t: Seq<char>)
    requires
        forall|i: int| 0 <= i < t.len() ==> t[i] != '=',
    ensures
        !t.contains('='),
{
}

/// The keys of the stored text are plain, hold no line break, and differ.
proof fn lemma_setting_keys()
    ensures
        plain_key("keybinds"@),
        plain_key("minCps"@),
        plain_key("maxCps"@),
        plain_key("minRightCps"@),
        plain_key("maxRightCps"@),
        plain_key("rightClickEnabled"@),
        plain_key("cpsDropsEnabled"@),
        plain_key("onlyInMinecraft"@),
        plain_key("jitterIntensity"@),
        plain_key("enabled"@),
        !"keybinds"@.contains('\n'),
        !"minCps"@.contains('\n'),
        !"maxCps"@.contains('\n'),
        !"minRightCps"@.contains('\n'),
        !"maxRightCps"@.contains('\n'),
        !"rightClickEnabled"@.contains('\n'),
        !"cpsDropsEnabled"@.contains('\n'),
        !"onlyInMinecraft"@.contains('\n'),
        !"jitterIntensity"@.contains('\n'),
        !"enabled"@.contains('\n'),
        !"="@.contains('\n'),
        "keybinds"@ != "minCps"@,
        "keybinds"@ != "maxCps"@,
        "keybinds"@ != "minRightCps"@,
        "keybinds"@ != "maxRightCps"@,
        "keybinds"@ != "rightClickEnabled"@,
        "keybinds"@ != "cpsDropsEnabled"@,
        "keybinds"@ != "onlyInMinecraft"@,
        "keybinds"@ != "jitterIntensity"@,
        "keybinds"@ != "enabled"@,
        "minCps"@ != "maxCps"@,
        "minCps"@ != "minRightCps"@,
        "minCps"@ != "maxRightCps"@,
        "minCps"@ != "rightClickEnabled"@,
        "minCps"@ != "cpsDropsEnabled"@,
        "minCps"@ != "onlyInMinecraft"@,
        "minCps"@ != "jitterIntensity"@,
        "minCps"@ != "enabled"@,
        "maxCps"@ != "minRightCps"@,
        "maxCps"@ != "maxRightCps"@,
        "maxCps"@ != "rightClickEnabled"@,
        "maxCps"@ != "cpsDropsEnabled"@,
        "maxCps"@ != "onlyInMinecraft"@,
        "maxCps"@ != "jitterIntensity"@,
        "maxCps"@ != "enabled"@,
        "minRightCps"@ != "maxRightCps"@,
        "minRightCps"@ != "rightClickEnabled"@,
        "minRightCps"@ != "cpsDropsEnabled"@,
        "minRightCps"@ != "onlyInMinecraft"@,
        "minRightCps"@ != "jitterIntensity"@,
        "minRightCps"@ != "enabled"@,
        "maxRightCps"@ != "rightClickEnabled"@,
        "maxRightCps"@ != "cpsDropsEnabled"@,
        "maxRightCps"@ != "onlyInMinecraft"@,
        "maxRightCps"@ != "jitterIntensity"@,
        "maxRightCps"@ != "enabled"@,
        "rightClickEnabled"@ != "cpsDropsEnabled"@,
        "rightClickEnabled"@ != "onlyInMinecraft"@,
        "rightClickEnabled"@ != "jitterIntensity"@,
        "rightClickEnabled"@ != "enabled"@,
        "cpsDropsEnabled"@ != "onlyInMinecraft"@,
        "cpsDropsEnabled"@ != "jitterIntensity"@,
        "cpsDropsEnabled"@ != "enabled"@,
        "onlyInMinecraft"@ != "jitterIntensity"@,
        "onlyInMinecraft"@ != "enabled"@,
        "jitterIntensity"@ != "enabled"@,
{
    reveal_strlit("keybinds");
    reveal_strlit("minCps");
    reveal_strlit("maxCps");
    reveal_strlit("minRightCps");
    reveal_strlit("maxRightCps");
    reveal_strlit("rightClickEnabled");
    reveal_strlit("cpsDropsEnabled");
    reveal_strlit("onlyInMinecraft");
    reveal_strlit("jitterIntensity");
    reveal_strlit("enabled");
    reveal_strlit("=");
    lemma_no_newline_literal("keybinds"@);
    lemma_no_eq_literal("keybinds"@);
    lemma_no_newline_literal("minCps"@);
    lemma_no_eq_literal("minCps"@);
    lemma_no_newline_literal("maxCps"@);
    lemma_no_eq_literal("maxCps"@);
    lemma_no_newline_literal("minRightCps"@);
    lemma_no_eq_literal("minRightCps"@);
    lemma_no_newline_literal("maxRightCps"@);
    lemma_no_eq_literal("maxRightCps"@);
    lemma_no_newline_literal("rightClickEnabled"@);
    lemma_no_eq_literal("rightClickEnabled"@);
    lemma_no_newline_literal("cpsDropsEnabled"@);
    lemma_no_eq_literal("cpsDropsEnabled"@);
    lemma_no_newline_literal("onlyInMinecraft"@);
    lemma_no_eq_literal("onlyInMinecraft"@);
    lemma_no_newline_literal("jitterIntensity"@);
    lemma_no_eq_literal("jitterIntensity"@);
    lemma_no_newline_literal("enabled"@);
    lemma_no_eq_literal("enabled"@);
    lemma_no_newline_literal("="@);
    assert("minCps"@[1] != "maxCps"@[1]);
    assert("minRightCps"@[1] != "maxRightCps"@[1]);
    assert("cpsDropsEnabled"@[0] != "onlyInMinecraft"@[0]);
    assert("rightClickEnabled"@[0] != "jitterIntensity"@[0]);
}

/// Digits are no whitespace.
proof fn lemma_digits_plain(n: u32)
    ensures
        plain_value(decimal(n as nat)),
        !decimal(n as nat).contains('\n'),
        parse_u32_spec(decimal(n as nat)) == Some(n),
{
    lemma_decimal_parses(n);
    let d = decimal(n as nat);
    assert(is_digit(d[0]));
    assert(is_digit(d[d.len() - 1]));
    assert(!d.contains('\n')) by {
        if d.contains('\n') {
            let i = choose|i: int| 0 <= i < d.len() && d[i] == '\n';
            assert(is_digit(d[i]));
        }
    }
}

/// The switch texts are plain and read back as the switch.
proof fn lemma_bool_plain(b: bool)
    ensures
        plain_value(bool_text(b)),
        !bool_text(b).contains('\n'),
        parse_bool_spec(bool_text(b)) == Some(b),
{
    reveal_strlit("true");
    reveal_strlit("false");
    lemma_no_newline_literal("true"@);
    lemma_no_newline_literal("false"@);
}

/// A storable keybind joined with `:` is a plain value without line breaks.
proof fn lemma_joined_plain(ks: Seq<Seq<char>>)
    requires
        ks.len() > 0,
        storable_keybind(ks),
    ensures
        plain_value(join(ks, ":"@)),
        !join(ks, ":"@).contains('\n'),
{
    reveal_strlit(":");
    assert forall|i: int| 0 <= i < ks.len() implies (#[trigger] ks[i]).len() > 0 by {
        assert(storable_token(ks[i]));
    }
    lemma_join_ends(ks, ":"@);
    assert(storable_token(ks[0]));
    assert(storable_token(ks[ks.len() - 1]));
    lemma_no_newline_literal(":"@);
    assert forall|i: int| 0 <= i < ks.len() implies !(#[trigger] ks[i]).contains('\n') by {
        assert(storable_token(ks[i]));
    }
    lemma_join_avoids(ks, ":"@, '\n');
}

/// A `key=value` line of a plain key and a value without line breaks holds none.
proof fn lemma_line_no_newline(key: Seq<char>, v: Seq<char>)
    requires
        !key.contains('\n'),
        !"="@.contains('\n'),
        !v.contains('\n'),
    ensures
        !setting_line(key, v).contains('\n'),
{
    lemma_concat_avoids(key, "="@, '\n');
    lemma_concat_avoids(key + "="@, v, '\n');
}


/// The pairs the stored text of settings in range holds, by line.
proof fn lemma_rendered_entries(s: ConfigModel, active: bool)
    requires
        s.keybinds.len() > 0,
        storable_keybind(s.keybinds),
    ensures
        ({
            let es = entries(split(rendered(s, active), '\n'));
            &&& es.len() == 10
            &&& es[0] == ("keybinds"@, join(s.keybinds, ":"@))
            &&& es[1] == ("minCps"@, decimal(s.min_cps as nat))
            &&& es[2] == ("maxCps"@, decimal(s.max_cps as nat))
            &&& es[3] == ("minRightCps"@, decimal(s.min_right_cps as nat))
            &&& es[4] == ("maxRightCps"@, decimal(s.max_right_cps as nat))
            &&& es[5] == ("rightClickEnabled"@, bool_text(s.right_click_enabled))
            &&& es[6] == ("cpsDropsEnabled"@, bool_text(s.cps_drops_enabled))
            &&& es[7] == ("onlyInMinecraft"@, bool_text(s.only_in_minecraft))
            &&& es[8] == ("jitterIntensity"@, decimal(s.jitter_intensity as nat))
            &&& es[9] == ("enabled"@, bool_text(active))
        }),
{
    let ls = config_lines(s, active);
    let j = join(s.keybinds, ":"@);
    lemma_setting_keys();
    lemma_joined_plain(s.keybinds);
    lemma_digits_plain(s.min_cps);
    lemma_digits_plain(s.max_cps);
    lemma_digits_plain(s.min_right_cps);
    lemma_digits_plain(s.max_right_cps);
    lemma_digits_plain(s.jitter_intensity);
    lemma_bool_plain(s.right_click_enabled);
    lemma_bool_plain(s.cps_drops_enabled);
    lemma_bool_plain(s.only_in_minecraft);
    lemma_bool_plain(active);
    lemma_line_no_newline("keybinds"@, j);
    lemma_line_no_newline("minCps"@, decimal(s.min_cps as nat));
    lemma_line_no_newline("maxCps"@, decimal(s.max_cps as nat));
    lemma_line_no_newline("minRightCps"@, decimal(s.min_right_cps as nat));
    lemma_line_no_newline("maxRightCps"@, decimal(s.max_right_cps as nat));
    lemma_line_no_newline("rightClickEnabled"@, bool_text(s.right_click_enabled));
    lemma_line_no_newline("cpsDropsEnabled"@, bool_text(s.cps_drops_enabled));
    lemma_line_no_newline("onlyInMinecraft"@, bool_text(s.only_in_minecraft));
    lemma_line_no_newline("jitterIntensity"@, decimal(s.jitter_intensity as nat));
    lemma_line_no_newline("enabled"@, bool_text(active));
    reveal_strlit("# Vene Clicker Configuration");
    lemma_no_newline_literal(header_line());
    assert forall|i: int| 0 <= i < ls.len() implies !(#[trigger] ls[i]).contains('\n') by {
        if i == 0 {
            assert(ls[i] == header_line());
        }
    }
    lemma_split_block(ls);
    lemma_entries_trailing_empty(ls);
    lemma_no_entry_lines();
    lemma_line_entry_kv("keybinds"@, j);
    lemma_line_entry_kv("minCps"@, decimal(s.min_cps as nat));
    lemma_line_entry_kv("maxCps"@, decimal(s.max_cps as nat));
    lemma_line_entry_kv("minRightCps"@, decimal(s.min_right_cps as nat));
    lemma_line_entry_kv("maxRightCps"@, decimal(s.max_right_cps as nat));
    lemma_line_entry_kv("rightClickEnabled"@, bool_text(s.right_click_enabled));
    lemma_line_entry_kv("cpsDropsEnabled"@, bool_text(s.cps_drops_enabled));
    lemma_line_entry_kv("onlyInMinecraft"@, bool_text(s.only_in_minecraft));
    lemma_line_entry_kv("jitterIntensity"@, decimal(s.jitter_intensity as nat));
    lemma_line_entry_kv("enabled"@, bool_text(active));
    assert(line_entry(ls[0]) is None);
    assert forall|i: int| 1 <= i < ls.len() implies (#[trigger] line_entry(ls[i])) is Some by {
    }
    lemma_entries_after_first(ls);
}

/// Reading back the stored text of any settings whose keybind is storable
/// gives those settings brought into range: what is saved is what is loaded.
pub proof fn law_config_round_trip(m: ConfigModel, active: bool)
    requires
        storable_keybind(m.keybinds),
    ensures
        parsed_config(rendered(sanitized(m), active)) == sanitized(m),
{
    let s = sanitized(m);
    law_sanitize_idempotent(m);
    if m.keybinds.len() == 0 {
        lemma_default_storable();
    }
    assert(storable_keybind(s.keybinds));
    let text = rendered(s, active);
    lemma_rendered_entries(s, active);
    let es = entries(split(text, '\n'));
    lemma_setting_keys();
    lemma_lookup_at(es, 0, "keybinds"@);
    lemma_lookup_at(es, 1, "minCps"@);
    lemma_lookup_at(es, 2, "maxCps"@);
    lemma_lookup_at(es, 3, "minRightCps"@);
    lemma_lookup_at(es, 4, "maxRightCps"@);
    lemma_lookup_at(es, 5, "rightClickEnabled"@);
    lemma_lookup_at(es, 6, "cpsDropsEnabled"@);
    lemma_lookup_at(es, 7, "onlyInMinecraft"@);
    lemma_lookup_at(es, 8, "jitterIntensity"@);
    lemma_digits_plain(s.min_cps);
    lemma_digits_plain(s.max_cps);
    lemma_digits_plain(s.min_right_cps);
    lemma_digits_plain(s.max_right_cps);
    lemma_digits_plain(s.jitter_intensity);
    lemma_bool_plain(s.right_click_enabled);
    lemma_bool_plain(s.cps_drops_enabled);
    lemma_bool_plain(s.only_in_minecraft);
    lemma_keybinds_round_trip(s.keybinds);
    let raw = ConfigModel {
        min_cps: u32_or(setting(text, "minCps"@), 9),
        max_cps: u32_or(setting(text, "maxCps"@), 12),
        min_right_cps: u32_or(setting(text, "minRightCps"@), 10),
        max_right_cps: u32_or(setting(text, "maxRightCps"@), 14),
        right_click_enabled: bool_or(setting(text, "rightClickEnabled"@), false),
        cps_drops_enabled: bool_or(setting(text, "cpsDropsEnabled"@), true),
        only_in_minecraft: bool_or(setting(text, "onlyInMinecraft"@), false),
        jitter_intensity: u32_or(setting(text, "jitterIntensity"@), 0),
        keybinds: keybinds_from(
            match setting(text, "keybinds"@) {
                Some(v) => v,
                None => Seq::<char>::empty(),
            },
        ),
    };
    assert(raw == s);
}


/// A token of letters and digits that starts with a letter is storable.
pub proof fn lemma_plain_token(t: Seq<char>)
    requires
        t.len() > 0,
        ('A' <= t[0] && t[0] <= 'Z'),
        forall|i: int| 0 <= i < t.len() ==> ('A' <= #[trigger] t[i] <= 'Z' || 'a' <= t[i] <= 'z' || '0' <= t[i] <= '9'),
    ensures
        storable_token(t),
{
    assert(!is_ws(t[t.len() - 1]));
    assert(!t.contains(':')) by {
        if t.contains(':') {
            let i = choose|i: int| 0 <= i < t.len() && t[i] == ':';
        }
    }
    assert(!t.contains('\n')) by {
        if t.contains('\n') {
            let i = choose|i: int| 0 <= i < t.len() && t[i] == '\n';
        }
    }
    assert(!is_digit(t[0]));
}

/// Every legacy key token is storable.
pub proof fn lemma_legacy_storable(code: i32)
    ensures
        match crate::keybind::legacy_token(code) {
            Some(t) => storable_token(t),
            None => true,
        },
{
    match code {
        2 => {
            reveal_strlit("Num1");
            lemma_plain_token("Num1"@);
        },
        3 => {
            reveal_strlit("Num2");
            lemma_plain_token("Num2"@);
        },
        4 => {
            reveal_strlit("Num3");
            lemma_plain_token("Num3"@);
        },
        5 => {
            reveal_strlit("Num4");
            lemma_plain_token("Num4"@);
        },
        6 => {
            reveal_strlit("Num5");
            lemma_plain_token("Num5"@);
        },
        7 => {
            reveal_strlit("Num6");
            lemma_plain_token("Num6"@);
        },
        8 => {
            reveal_strlit("Num7");
            lemma_plain_token("Num7"@);
        },
        9 => {
            reveal_strlit("Num8");
            lemma_plain_token("Num8"@);
        },
        10 => {
            reveal_strlit("Num9");
            lemma_plain_token("Num9"@);
        },
        11 => {
            reveal_strlit("Num0");
            lemma_plain_token("Num0"@);
        },
        16 => {
            reveal_strlit("KeyQ");
            lemma_plain_token("KeyQ"@);
        },
        17 => {
            reveal_strlit("KeyW");
            lemma_plain_token("KeyW"@);
        },
        18 => {
            reveal_strlit("KeyE");
            lemma_plain_token("KeyE"@);
        },
        19 => {
            reveal_strlit("KeyR");
            lemma_plain_token("KeyR"@);
        },
        20 => {
            reveal_strlit("KeyT");
            lemma_plain_token("KeyT"@);
        },
        21 => {
            reveal_strlit("KeyY");
            lemma_plain_token("KeyY"@);
        },
        22 => {
            reveal_strlit("KeyU");
            lemma_plain_token("KeyU"@);
        },
        23 => {
            reveal_strlit("KeyI");
            lemma_plain_token("KeyI"@);
        },
        24 => {
            reveal_strlit("KeyO");
            lemma_plain_token("KeyO"@);
        },
        25 => {
            reveal_strlit("KeyP");
            lemma_plain_token("KeyP"@);
        },
        29 => {
            reveal_strlit("ControlLeft");
            lemma_plain_token("ControlLeft"@);
        },
        30 => {
            reveal_strlit("KeyA");
            lemma_plain_token("KeyA"@);
        },
        31 => {
            reveal_strlit("KeyS");
            lemma_plain_token("KeyS"@);
        },
        32 => {
            reveal_strlit("KeyD");
            lemma_plain_token("KeyD"@);
        },
        33 => {
            reveal_strlit("KeyF");
            lemma_plain_token("KeyF"@);
        },
        34 => {
            reveal_strlit("KeyG");
            lemma_plain_token("KeyG"@);
        },
        35 => {
            reveal_strlit("KeyH");
            lemma_plain_token("KeyH"@);
        },
        36 => {
            reveal_strlit("KeyJ");
            lemma_plain_token("KeyJ"@);
        },
        37 => {
            reveal_strlit("KeyK");
            lemma_plain_token("KeyK"@);
        },
        38 => {
            reveal_strlit("KeyL");
            lemma_plain_token("KeyL"@);
        },
        42 => {
            reveal_strlit("ShiftLeft");
            lemma_plain_token("ShiftLeft"@);
        },
        44 => {
            reveal_strlit("KeyZ");
            lemma_plain_token("KeyZ"@);
        },
        45 => {
            reveal_strlit("KeyX");
            lemma_plain_token("KeyX"@);
        },
        46 => {
            reveal_strlit("KeyC");
            lemma_plain_token("KeyC"@);
        },
        47 => {
            reveal_strlit("KeyV");
            lemma_plain_token("KeyV"@);
        },
        48 => {
            reveal_strlit("KeyB");
            lemma_plain_token("KeyB"@);
        },
        49 => {
            reveal_strlit("KeyN");
            lemma_plain_token("KeyN"@);
        },
        50 => {
            reveal_strlit("KeyM");
            lemma_plain_token("KeyM"@);
        },
        54 => {
            reveal_strlit("ShiftRight");
            lemma_plain_token("ShiftRight"@);
        },
        56 => {
            reveal_strlit("Alt");
            lemma_plain_token("Alt"@);
        },
        57 => {
            reveal_strlit("Space");
            lemma_plain_token("Space"@);
        },
        58 => {
            reveal_strlit("CapsLock");
            lemma_plain_token("CapsLock"@);
        },
        59 => {
            reveal_strlit("F1");
            lemma_plain_token("F1"@);
        },
        60 => {
            reveal_strlit("F2");
            lemma_plain_token("F2"@);
        },
        61 => {
            reveal_strlit("F3");
            lemma_plain_token("F3"@);
        },
        62 => {
            reveal_strlit("F4");
            lemma_plain_token("F4"@);
        },
        63 => {
            reveal_strlit("F5");
            lemma_plain_token("F5"@);
        },
        64 => {
            reveal_strlit("F6");
            lemma_plain_token("F6"@);
        },
        65 => {
            reveal_strlit("F7");
            lemma_plain_token("F7"@);
        },
        66 => {
            reveal_strlit("F8");
            lemma_plain_token("F8"@);
        },
        67 => {
            reveal_strlit("F9");
            lemma_plain_token("F9"@);
        },
        68 => {
            reveal_strlit("F10");
            lemma_plain_token("F10"@);
        },
        87 => {
            reveal_strlit("F11");
            lemma_plain_token("F11"@);
        },
        88 => {
            reveal_strlit("F12");
            lemma_plain_token("F12"@);
        },
        _ => {},
    }
}


/// What a token normalises to is storable, when the token holds neither `:`
/// nor a line break.
proof fn lemma_normalized_is_storable(raw: Seq<char>)
    requires
        !raw.contains(':'),
        !raw.contains('\n'),
        normalized(raw) is Some,
    ensures
        storable_token(normalized(raw).unwrap()),
{
    let t = trim(raw);
    match parse_i32_spec(t) {
        Some(code) => {
            lemma_legacy_storable(code);
        },
        None => {
            lemma_trim_shape(raw);
            lemma_trim_avoids(raw, ':');
            lemma_trim_avoids(raw, '\n');
        },
    }
}

/// A normalised token normalises to itself.
pub proof fn law_normalize_idempotent(raw: Seq<char>)
    requires
        normalized(raw) is Some,
    ensures
        normalized(normalized(raw).unwrap()) == normalized(raw),
{
    let t = trim(raw);
    match parse_i32_spec(t) {
        Some(code) => {
            lemma_legacy_storable(code);
            lemma_normalized_storable(normalized(raw).unwrap());
        },
        None => {
            lemma_trim_idempotent(raw);
        },
    }
}

/// The gathered tokens of pieces without `:` or line breaks form a storable
/// keybind.
proof fn lemma_gathered_storable(pieces: Seq<Seq<char>>)
    requires
        forall|k: int| 0 <= k < pieces.len() ==> !(#[trigger] pieces[k]).contains(':') && !pieces[k].contains('\n'),
    ensures
        storable_keybind(gathered_tokens(pieces)),
    decreases pieces.len(),
{
    if pieces.len() > 0 {
        let d = pieces.drop_last();
        assert forall|k: int| 0 <= k < d.len() implies !(#[trigger] d[k]).contains(':') && !d[k].contains('\n') by {
            assert(d[k] == pieces[k]);
        }
        lemma_gathered_storable(d);
        let acc = gathered_tokens(d);
        let last = pieces[pieces.len() - 1];
        if normalized(last) is Some {
            lemma_normalized_is_storable(last);
            let t = normalized(last).unwrap();
            if !acc.contains(t) {
                let g = acc.push(t);
                assert forall|i: int| 0 <= i < g.len() implies storable_token(#[trigger] g[i]) by {
                    if i < acc.len() {
                        assert(g[i] == acc[i]);
                    }
                }
                assert forall|i: int, j: int| 0 <= i < g.len() && 0 <= j < g.len() && i != j implies g[i] != g[j] by {
                    if i < acc.len() && j < acc.len() {
                        assert(acc[i] != acc[j]);
                    } else if i < acc.len() {
                        assert(acc[i] != t);
                    } else if j < acc.len() {
                        assert(acc[j] != t);
                    }
                }
            }
        }
    }
}

/// The keybind read from a stored value without line breaks is storable.
proof fn lemma_keybinds_from_storable(raw: Seq<char>)
    requires
        !raw.contains('\n'),
    ensures
        storable_keybind(keybinds_from(raw)),
        keybinds_from(raw).len() > 0,
{
    let pieces = split(raw, ':');
    lemma_split_pieces_avoid(raw, ':');
    lemma_split_pieces_of_avoid(raw, ':', '\n');
    lemma_gathered_storable(pieces);
    reveal_strlit("KeyF");
    if gathered_tokens(pieces).len() == 0 {
        lemma_default_storable();
    }
}

/// No piece of a split holds a character that the whole does not hold.
proof fn lemma_split_pieces_of_avoid(s: Seq<char>, sep: char, c: char)
    requires
        !s.contains(c),
    ensures
        forall|k: int| 0 <= k < split(s, sep).len() ==> !(#[trigger] split(s, sep)[k]).contains(c),
    decreases s.len(),
{
    if s.len() > 0 {
        let d = s.drop_last();
        assert(!d.contains(c)) by {
            if d.contains(c) {
                let i = choose|i: int| 0 <= i < d.len() && d[i] == c;
                assert(s[i] == c);
            }
        }
        lemma_split_pieces_of_avoid(d, sep, c);
        lemma_split_len(d, sep);
        let p = split(d, sep);
        assert(s[s.len() - 1] != c);
        assert forall|k: int| 0 <= k < split(s, sep).len() implies !(#[trigger] split(s, sep)[k]).contains(c) by {
            if k < p.len() - 1 {
                assert(split(s, sep)[k] == p[k]);
            } else if k == p.len() - 1 {
                if s.last() == sep {
                    assert(split(s, sep)[k] == p[k]);
                } else {
                    let q = p.last().push(s.last());
                    assert(!p[p.len() - 1].contains(c));
                    if q.contains(c) {
                        let i = choose|i: int| 0 <= i < q.len() && q[i] == c;
                        if i < p.last().len() {
                            assert(p.last()[i] == c);
                        }
                    }
                }
            }
        }
    }
}

/// The pairs of lines without line breaks hold no line break in their values.
proof fn lemma_entry_values_avoid(ls: Seq<Seq<char>>)
    requires
        forall|k: int| 0 <= k < ls.len() ==> !(#[trigger] ls[k]).contains('\n'),
    ensures
        forall|k: int| 0 <= k < entries(ls).len() ==> !(#[trigger] entries(ls)[k]).1.contains('\n'),
    decreases ls.len(),
{
    if ls.len() > 0 {
        let d = ls.drop_last();
        assert forall|k: int| 0 <= k < d.len() implies !(#[trigger] d[k]).contains('\n') by {
            assert(d[k] == ls[k]);
        }
        lemma_entry_values_avoid(d);
        let line = ls[ls.len() - 1];
        let t = trim(line);
        if line_entry(line) is Some {
            lemma_trim_avoids(line, '\n');
            let i = find_char(t, '=').unwrap();
            lemma_find_char_bounds(t, '=');
            lemma_subrange_avoids(t, i + 1, t.len() as int, '\n');
            lemma_trim_avoids(t.subrange(i + 1, t.len() as int), '\n');
        }
        assert forall|k: int| 0 <= k < entries(ls).len() implies !(#[trigger] entries(ls)[k]).1.contains('\n') by {
            if k < entries(d).len() {
                assert(entries(ls)[k] == entries(d)[k]);
            }
        }
    }
}

/// `find_char` gives a position inside the sequence.
proof fn lemma_find_char_bounds(s: Seq<char>, c: char)
    ensures
        find_char(s, c) matches Some(i) ==> 0 <= i < s.len(),
    decreases s.len(),
{
    if s.len() > 0 && s[0] != c {
        lemma_find_char_bounds(s.subrange(1, s.len() as int), c);
    }
}

/// A looked-up value is the value of one of the pairs.
proof fn lemma_lookup_member(es: Seq<(Seq<char>, Seq<char>)>, key: Seq<char>)
    ensures
        lookup(es, key) matches Some(v) ==> exists|k: int| 0 <= k < es.len() && (#[trigger] es[k]).1 == v,
    decreases es.len(),
{
    if es.len() > 0 {
        let d = es.drop_last();
        lemma_lookup_member(d, key);
        if es.last().0 != key {
            if lookup(d, key) is Some {
                let k = choose|k: int| 0 <= k < d.len() && (#[trigger] d[k]).1 == lookup(d, key).unwrap();
                assert(es[k] == d[k]);
            }
        } else {
            assert(es[es.len() - 1].1 == lookup(es, key).unwrap());
        }
    }
}

/// A stored value read from text never holds a line break.
proof fn lemma_setting_no_newline(content: Seq<char>, key: Seq<char>)
    ensures
        setting(content, key) matches Some(v) ==> !v.contains('\n'),
{
    let ls = split(content, '\n');
    lemma_split_pieces_avoid(content, '\n');
    lemma_entry_values_avoid(ls);
    lemma_lookup_member(entries(ls), key);
}

/// Settings read from any stored text, stored again and read back, are the
/// same settings: loading what was saved after a load changes nothing.
pub proof fn law_load_save_load(content: Seq<char>, active: bool)
    ensures
        parsed_config(rendered(parsed_config(content), active)) == parsed_config(content),
{
    let p = parsed_config(content);
    lemma_setting_no_newline(content, "keybinds"@);
    let raw = match setting(content, "keybinds"@) {
        Some(v) => v,
        None => Seq::<char>::empty(),
    };
    assert(!raw.contains('\n'));
    lemma_keybinds_from_storable(raw);
    assert(p.keybinds == keybinds_from(raw));
    law_parsed_in_range(content);
    law_sanitize_keeps_in_range(p);
    law_config_round_trip(p, active);
}


/// The keybind read from any stored text is non-empty, holds no token twice,
/// and every token of it can be stored again.
pub proof fn law_parsed_keybind_storable(content: Seq<char>)
    ensures
        storable_keybind(parsed_config(content).keybinds),
        parsed_config(content).keybinds.len() > 0,
{
    lemma_setting_no_newline(content, "keybinds"@);
    let raw = match setting(content, "keybinds"@) {
        Some(v) => v,
        None => Seq::<char>::empty(),
    };
    lemma_keybinds_from_storable(raw);
}

/// Text made of whitespace only.
pub open spec fn all_ws(w: Seq<char>) -> bool {
    forall|i: int| 0 <= i < w.len() ==> is_ws(#[trigger] w[i])
}

/// Whitespace in front of a text is taken away by the start trim.
proof fn lemma_trim_start_skip(w: Seq<char>, x: Seq<char>)
    requires
        all_ws(w),
    ensures
        trim_start(w + x) == trim_start(x),
    decreases w.len(),
{
    if w.len() == 0 {
        assert(w + x =~= x);
    } else {
        let r = w.subrange(1, w.len() as int);
        assert((w + x)[0] == w[0]);
        assert((w + x).subrange(1, (w + x).len() as int) =~= r + x);
        assert forall|i: int| 0 <= i < r.len() implies is_ws(#[trigger] r[i]) by {
            assert(r[i] == w[i + 1]);
        }
        lemma_trim_start_skip(r, x);
    }
}

/// Whitespace behind a text is taken away by the end trim.
proof fn lemma_trim_end_skip(x: Seq<char>, w: Seq<char>)
    requires
        all_ws(w),
    ensures
        trim_end(x + w) == trim_end(x),
    decreases w.len(),
{
    if w.len() == 0 {
        assert(x + w =~= x);
    } else {
        let r = w.subrange(0, w.len() - 1);
        assert((x + w)[(x + w).len() - 1] == w[w.len() - 1]);
        assert((x + w).subrange(0, (x + w).len() - 1) =~= x + r);
        assert forall|i: int| 0 <= i < r.len() implies is_ws(#[trigger] r[i]) by {
            assert(r[i] == w[i]);
        }
        lemma_trim_end_skip(x, r);
    }
}

/// The end trim of a text that starts with something other than whitespace
/// keeps that first character.
proof fn lemma_trim_end_keeps_first(s: Seq<char>)
    requires
        s.len() > 0,
        !is_ws(s[0]),
    ensures
        trim_end(s).len() > 0,
        trim_end(s)[0] == s[0],
    decreases s.len(),
{
    if is_ws(s[s.len() - 1]) {
        let r = s.subrange(0, s.len() - 1);
        assert(r[0] == s[0]);
        lemma_trim_end_keeps_first(r);
    }
}

/// A text that neither starts nor ends with whitespace is its own trim, with
/// whitespace of any length around it taken away.
proof fn lemma_trim_spaced(w0: Seq<char>, x: Seq<char>, w1: Seq<char>)
    requires
        all_ws(w0),
        all_ws(w1),
        x.len() > 0,
        !is_ws(x[0]),
        !is_ws(x.last()),
    ensures
        trim(w0 + x + w1) == x,
{
    assert(w0 + x + w1 =~= w0 + (x + w1));
    lemma_trim_start_skip(w0, x + w1);
    assert((x + w1)[0] == x[0]);
    assert(trim_start(x + w1) == x + w1);
    lemma_trim_end_skip(x, w1);
    assert(x[x.len() - 1] == x.last());
    assert(trim_end(x) == x);
}

/// A `key = value` line reads as its key and its value, whatever whitespace
/// stands before the key, around the `=` and after the value.
pub proof fn law_line_entry_spaced(
    key: Seq<char>,
    v: Seq<char>,
    w0: Seq<char>,
    w1: Seq<char>,
    w2: Seq<char>,
    w3: Seq<char>,
)
    requires
        plain_key(key),
        plain_value(v),
        all_ws(w0),
        all_ws(w1),
        all_ws(w2),
        all_ws(w3),
    ensures
        line_entry(w0 + key + w1 + "="@ + w2 + v + w3) == Some((key, v)),
{
    reveal_strlit("=");
    let m = key + w1 + "="@ + w2 + v;
    let l = w0 + key + w1 + "="@ + w2 + v + w3;
    assert(l =~= w0 + m + w3);
    assert(m[0] == key[0]);
    assert(m[m.len() - 1] == v[v.len() - 1]);
    lemma_trim_spaced(w0, m, w3);
    let i: int = key.len() + w1.len() as int;
    assert(m[i] == '=');
    assert forall|k: int| 0 <= k < i implies m[k] != '=' by {
        if k < key.len() {
            assert(m[k] == key[k]);
            if key[k] == '=' {
                assert(key.contains('='));
            }
        } else {
            assert(m[k] == w1[k - key.len()]);
            assert(is_ws(w1[k - key.len()]));
        }
    }
    lemma_find_char_at(m, '=', i);
    let e = Seq::<char>::empty();
    assert(m.subrange(0, i) =~= e + key + w1);
    assert(m.subrange(i + 1, m.len() as int) =~= w2 + v + e);
    assert(all_ws(e));
    lemma_trim_spaced(e, key, w1);
    lemma_trim_spaced(w2, v, e);
}

/// The line that sets a key last decides its value: text that ends with a
/// `key = value` line (spaced in any way on that line) gives the key that
/// value, whatever whole lines come before it.
pub proof fn law_last_line_wins(
    before: Seq<char>,
    key: Seq<char>,
    v: Seq<char>,
    w0: Seq<char>,
    w1: Seq<char>,
    w2: Seq<char>,
    w3: Seq<char>,
)
    requires
        before.len() == 0 || before.last() == '\n',
        plain_key(key),
        plain_value(v),
        all_ws(w0),
        all_ws(w1),
        all_ws(w2),
        all_ws(w3),
        !key.contains('\n'),
        !v.contains('\n'),
        !w0.contains('\n'),
        !w1.contains('\n'),
        !w2.contains('\n'),
        !w3.contains('\n'),
    ensures
        setting(before + w0 + key + w1 + "="@ + w2 + v + w3 + "\n"@, key) == Some(v),
{
    reveal_strlit("=");
    reveal_strlit("\n");
    let l = w0 + key + w1 + "="@ + w2 + v + w3;
    law_line_entry_spaced(key, v, w0, w1, w2, w3);
    assert(!"="@.contains('\n')) by {
        if "="@.contains('\n') {
            assert("="@[0] == '=');
        }
    }
    lemma_concat_avoids(w0, key, '\n');
    lemma_concat_avoids(w0 + key, w1, '\n');
    lemma_concat_avoids(w0 + key + w1, "="@, '\n');
    lemma_concat_avoids(w0 + key + w1 + "="@, w2, '\n');
    lemma_concat_avoids(w0 + key + w1 + "="@ + w2, v, '\n');
    lemma_concat_avoids(w0 + key + w1 + "="@ + w2 + v, w3, '\n');
    let p = split(before, '\n');
    lemma_split_len(before, '\n');
    assert(p.last() == Seq::<char>::empty());
    lemma_split_extend(before, l, '\n');
    assert(Seq::<char>::empty() + l =~= l);
    let q = p.drop_last();
    assert(split(before + l, '\n') =~= q.push(l));
    lemma_split_sep(before + l, '\n');
    assert(before + w0 + key + w1 + "="@ + w2 + v + w3 + "\n"@ =~= (before + l).push('\n'));
    lemma_entries_trailing_empty(q.push(l));
    assert(q.push(l).drop_last() =~= q);
    assert(entries(q.push(l)) == entries(q).push((key, v)));
}

/// Text whose only line is a `key = value` line, spaced in any way on that
/// line, gives the key that value.
pub proof fn law_single_line_setting(
    key: Seq<char>,
    v: Seq<char>,
    w0: Seq<char>,
    w1: Seq<char>,
    w2: Seq<char>,
    w3: Seq<char>,
)
    requires
        plain_key(key),
        plain_value(v),
        all_ws(w0),
        all_ws(w1),
        all_ws(w2),
        all_ws(w3),
        !key.contains('\n'),
        !v.contains('\n'),
        !w0.contains('\n'),
        !w1.contains('\n'),
        !w2.contains('\n'),
        !w3.contains('\n'),
    ensures
        setting(w0 + key + w1 + "="@ + w2 + v + w3 + "\n"@, key) == Some(v),
{
    let e = Seq::<char>::empty();
    law_last_line_wins(e, key, v, w0, w1, w2, w3);
    assert(e + w0 =~= w0);
    assert(e + w0 + key + w1 + "="@ + w2 + v + w3 + "\n"@ =~= w0 + key + w1 + "="@ + w2 + v + w3 + "\n"@);
}

/// A line whose text starts with `#` or `!` (after any whitespace) is a
/// comment and sets nothing; so does a line without `=`.
pub proof fn law_comment_and_bare_lines(w: Seq<char>, rest: Seq<char>, line: Seq<char>)
    requires
        all_ws(w),
    ensures
        line_entry(w + "#"@ + rest) is None,
        line_entry(w + "!"@ + rest) is None,
        !line.contains('=') ==> line_entry(line) is None,
{
    reveal_strlit("#");
    reveal_strlit("!");
    assert(w + "#"@ + rest =~= w + ("#"@ + rest));
    assert(w + "!"@ + rest =~= w + ("!"@ + rest));
    lemma_trim_start_skip(w, "#"@ + rest);
    lemma_trim_start_skip(w, "!"@ + rest);
    assert(("#"@ + rest)[0] == '#');
    assert(("!"@ + rest)[0] == '!');
    assert(trim_start("#"@ + rest) == "#"@ + rest);
    assert(trim_start("!"@ + rest) == "!"@ + rest);
    lemma_trim_end_keeps_first("#"@ + rest);
    lemma_trim_end_keeps_first("!"@ + rest);
    if !line.contains('=') {
        lemma_trim_avoids(line, '=');
        let t = trim(line);
        lemma_find_char_at(t, '=', t.len() as int);
    }
}

/// Bringing settings into range keeps the two clamped ends of each click range
/// and only puts them in order: the new lower and upper ends are the clamped
/// old ends, swapped when they were the wrong way round. The jitter is clamped,
/// the switches are kept, and so is the keybind unless there is none, when the
/// default one takes its place.
pub proof fn law_sanitize_orders_ranges(m: ConfigModel)
    ensures
        ({
            let s = sanitized(m);
            let a = clamped(m.min_cps, MIN_CPS, MAX_CPS);
            let b = clamped(m.max_cps, MIN_CPS, MAX_CPS);
            let c = clamped(m.min_right_cps, MIN_CPS, MAX_CPS);
            let d = clamped(m.max_right_cps, MIN_CPS, MAX_CPS);
            &&& s.min_cps <= s.max_cps
            &&& (s.min_cps == a && s.max_cps == b) || (s.min_cps == b && s.max_cps == a)
            &&& s.min_right_cps <= s.max_right_cps
            &&& (s.min_right_cps == c && s.max_right_cps == d) || (s.min_right_cps == d && s.max_right_cps == c)
            &&& s.jitter_intensity == clamped(m.jitter_intensity, MIN_JITTER, MAX_JITTER)
            &&& s.right_click_enabled == m.right_click_enabled
            &&& s.cps_drops_enabled == m.cps_drops_enabled
            &&& s.only_in_minecraft == m.only_in_minecraft
            &&& m.keybinds.len() > 0 ==> s.keybinds == m.keybinds
            &&& m.keybinds.len() == 0 ==> s.keybinds == seq![DEFAULT_KEYBIND@]
        }),
{
}

/// Clamping puts a value in `lo..=hi` and leaves a value already there as it is.
pub proof fn law_clamped(v: u32, lo: u32, hi: u32)
    requires
        lo <= hi,
    ensures
        lo <= clamped(v, lo, hi) <= hi,
        lo <= v <= hi ==> clamped(v, lo, hi) == v,
        v < lo ==> clamped(v, lo, hi) == lo,
        v > hi ==> clamped(v, lo, hi) == hi,
{
}

/// Text of one plain `key=value` line sets that key to that value and no
/// other key.
proof fn lemma_one_line(key: Seq<char>, v: Seq<char>)
    requires
        plain_key(key),
        plain_value(v),
        !key.contains('\n'),
        !v.contains('\n'),
    ensures
        forall|other: Seq<char>|
            #[trigger] setting(key + "="@ + v + "\n"@, other) == if other == key {
                Some(v)
            } else {
                None
            },
{
    reveal_strlit("=");
    reveal_strlit("\n");
    let e = Seq::<char>::empty();
    let l = key + "="@ + v;
    law_line_entry_spaced(key, v, e, e, e, e);
    assert(e + key + e + "="@ + e + v + e =~= l);
    assert(!"="@.contains('\n')) by {
        if "="@.contains('\n') {
            assert("="@[0] == '=');
        }
    }
    lemma_concat_avoids(key, "="@, '\n');
    lemma_concat_avoids(key + "="@, v, '\n');
    let ls = seq![l];
    assert(ls[0] == l);
    lemma_split_block(ls);
    assert(ls.drop_last() =~= Seq::<Seq<char>>::empty());
    assert(ls.last() == l);
    assert(line_block(ls.drop_last()) == Seq::<char>::empty());
    assert(line_block(ls) =~= Seq::<char>::empty() + l + "\n"@);
    assert(Seq::<char>::empty() + l + "\n"@ =~= l + "\n"@);
    lemma_entries_trailing_empty(ls);
    assert(entries(ls.drop_last()) == Seq::<(Seq<char>, Seq<char>)>::empty());
    let es = seq![(key, v)];
    assert(entries(ls) =~= es);
    assert(es.drop_last() =~= Seq::<(Seq<char>, Seq<char>)>::empty());
    assert forall|other: Seq<char>|
        #[trigger] setting(key + "="@ + v + "\n"@, other) == if other == key {
            Some(v)
        } else {
            None
        } by {
        assert(setting(key + "="@ + v + "\n"@, other) == lookup(es, other));
        assert(lookup(es.drop_last(), other) is None);
    }
}

/// A number written in decimal is a plain value without a line break.
proof fn lemma_decimal_plain(n: u32)
    ensures
        plain_value(decimal(n as nat)),
        !decimal(n as nat).contains('\n'),
{
    lemma_decimal_parses(n);
    let d = decimal(n as nat);
    assert(is_digit(d[0]));
    assert(is_digit(d[d.len() - 1]));
    assert(!d.contains('\n')) by {
        if d.contains('\n') {
            let i = choose|i: int| 0 <= i < d.len() && d[i] == '\n';
            assert(is_digit(d[i]));
        }
    }
}

/// Stored text whose one line sets a number reads as that number for the
/// setting of that key, the other settings at their defaults (as far as the
/// defaults leave the number in order): `minCps`, `maxCps`, `minRightCps`,
/// `maxRightCps` and `jitterIntensity`.
pub proof fn law_reads_number_settings(n: u32)
    ensures
        MIN_CPS <= n <= 12 ==> parsed_config("minCps"@ + "="@ + decimal(n as nat) + "\n"@).min_cps == n,
        9 <= n <= MAX_CPS ==> parsed_config("maxCps"@ + "="@ + decimal(n as nat) + "\n"@).max_cps == n,
        MIN_CPS <= n <= 14 ==> parsed_config("minRightCps"@ + "="@ + decimal(n as nat) + "\n"@).min_right_cps
            == n,
        10 <= n <= MAX_CPS ==> parsed_config("maxRightCps"@ + "="@ + decimal(n as nat) + "\n"@).max_right_cps
            == n,
        n <= MAX_JITTER ==> parsed_config("jitterIntensity"@ + "="@ + decimal(n as nat) + "\n"@).jitter_intensity
            == n,
{
    lemma_setting_keys();
    lemma_decimal_plain(n);
    lemma_decimal_parses(n);
    let d = decimal(n as nat);
    lemma_one_line("minCps"@, d);
    lemma_one_line("maxCps"@, d);
    lemma_one_line("minRightCps"@, d);
    lemma_one_line("maxRightCps"@, d);
    lemma_one_line("jitterIntensity"@, d);
    assert(setting("minCps"@ + "="@ + d + "\n"@, "minCps"@) == Some(d));
    assert(setting("minCps"@ + "="@ + d + "\n"@, "maxCps"@) is None);
    assert(setting("maxCps"@ + "="@ + d + "\n"@, "maxCps"@) == Some(d));
    assert(setting("maxCps"@ + "="@ + d + "\n"@, "minCps"@) is None);
    assert(setting("minRightCps"@ + "="@ + d + "\n"@, "minRightCps"@) == Some(d));
    assert(setting("minRightCps"@ + "="@ + d + "\n"@, "maxRightCps"@) is None);
    assert(setting("maxRightCps"@ + "="@ + d + "\n"@, "maxRightCps"@) == Some(d));
    assert(setting("maxRightCps"@ + "="@ + d + "\n"@, "minRightCps"@) is None);
    assert(setting("jitterIntensity"@ + "="@ + d + "\n"@, "jitterIntensity"@) == Some(d));
}

/// Stored text whose one line sets a switch reads as that switch for the
/// setting of that key: `rightClickEnabled`, `cpsDropsEnabled` and
/// `onlyInMinecraft`, each written `true` or `false`.
pub proof fn law_reads_switch_settings(b: bool)
    ensures
        parsed_config("rightClickEnabled"@ + "="@ + (if b { "true"@ } else { "false"@ }) + "\n"@).right_click_enabled
            == b,
        parsed_config("cpsDropsEnabled"@ + "="@ + (if b { "true"@ } else { "false"@ }) + "\n"@).cps_drops_enabled
            == b,
        parsed_config("onlyInMinecraft"@ + "="@ + (if b { "true"@ } else { "false"@ }) + "\n"@).only_in_minecraft
            == b,
{
    reveal_strlit("true");
    reveal_strlit("false");
    lemma_setting_keys();
    let v = if b { "true"@ } else { "false"@ };
    assert(v[0] != '\n' && v[v.len() - 1] != '\n');
    assert(!v.contains('\n')) by {
        if v.contains('\n') {
            let i = choose|i: int| 0 <= i < v.len() && v[i] == '\n';
        }
    }
    assert(plain_value(v));
    assert(parse_bool_spec(v) == Some(b));
    lemma_one_line("rightClickEnabled"@, v);
    lemma_one_line("cpsDropsEnabled"@, v);
    lemma_one_line("onlyInMinecraft"@, v);
    assert(setting("rightClickEnabled"@ + "="@ + v + "\n"@, "rightClickEnabled"@) == Some(v));
    assert(setting("cpsDropsEnabled"@ + "="@ + v + "\n"@, "cpsDropsEnabled"@) == Some(v));
    assert(setting("onlyInMinecraft"@ + "="@ + v + "\n"@, "onlyInMinecraft"@) == Some(v));
}

} // verus!
