//! The computing part of the Windows queries: which process names are the
//! game, the file name of a process path, and the pressed bit of a key state.
use vstd::prelude::*;

use crate::text::{ascii_lower, chars_of, is_text, slice, string_of, to_ascii_lower, trim, trimmed};

verus! {

/// Whether a process file name is the game's: `javaw.exe` or
/// `minecraft.windows.exe`, ignoring surrounding whitespace and ASCII case.
pub open spec fn minecraft_process(name: Seq<char>) -> bool {
    let n = ascii_lower(trim(name));
    n == "javaw.exe"@ || n == "minecraft.windows.exe"@
}

/// Whether a process file name is the game's (see `minecraft_process`).
pub fn is_minecraft_process_name(name: &str) -> (r: bool)
    ensures
        r == minecraft_process(name@),
{
    let v = chars_of(name);
    let t = trimmed(&v);
    let n = to_ascii_lower(&t);
    is_text(&n, "javaw.exe") || is_text(&n, "minecraft.windows.exe")
}

/// Whether the foreground process, by its file name, is the game; false when
/// there is no foreground process name.
pub fn is_minecraft_foreground(foreground: Option<&str>) -> (r: bool)
    ensures
        r == match foreground {
            Some(name) => minecraft_process(name@),
            None => false,
        },
{
    match foreground {
        Some(name) => is_minecraft_process_name(name),
        None => false,
    }
}

/// The part of a path after its last `\` or `/` (all of it when it has none).
pub open spec fn file_name(path: Seq<char>) -> Seq<char>
    decreases path.len(),
{
    if path.len() == 0 {
        path
    } else if path.last() == '\\' || path.last() == '/' {
        Seq::<char>::empty()
    } else {
        file_name(path.drop_last()).push(path.last())
    }
}

/// The file name of a full process image path (see `file_name`).
pub fn process_file_name(path: &str) -> (r: String)
    ensures
        r@ == file_name(path@),
{
    let v = chars_of(path);
    let mut start: usize = 0;
    let mut i: usize = 0;
    assert(v@.take(0) =~= Seq::<char>::empty());
    assert(v@.subrange(0, 0) =~= Seq::<char>::empty());
    while i < v.len()
        invariant
            start <= i <= v.len(),
            file_name(v@.take(i as int)) == v@.subrange(start as int, i as int),
        decreases v.len() - i,
    {
        assert(v@.take(i + 1).drop_last() =~= v@.take(i as int));
        assert(v@.take(i + 1).last() == v@[i as int]);
        if v[i] == '\\' || v[i] == '/' {
            start = i + 1;
            assert(v@.subrange(start as int, i + 1) =~= Seq::<char>::empty());
        } else {
            assert(v@.subrange(start as int, i + 1) =~= v@.subrange(start as int, i as int).push(v@[i as int]));
        }
        i = i + 1;
    }
    assert(v@.take(v.len() as int) =~= v@);
    let name = slice(&v, start, v.len());
    string_of(&name)
}

/// Whether a `GetAsyncKeyState` result says the key is down: its top bit is set.
pub fn key_state_down(state: i16) -> (r: bool)
    ensures
        r == (state < 0),
{
    let r = (state & (0x8000u16 as i16)) != 0;
    assert(((state & (0x8000u16 as i16)) != 0) == (state < 0)) by (bit_vector);
    r
}

} // verus!
