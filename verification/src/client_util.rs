//! Small helpers shared by the admin page and the screen.

use vstd::prelude::*;

verus! {

/// Registers `f` to run every `millis` milliseconds.
///
/// Outside a browser there is no timer to register with, so this does
/// nothing; the polling it would start only ever happens client-side.
pub fn set_interval(_f: impl FnMut() + 'static, _millis: i32) {
}

/// What `truncate_chars` gives for the characters `s` and the limit `max`.
pub open spec fn truncated(s: Seq<char>, max: nat) -> Seq<char> {
    if s.len() > max {
        s.subrange(0, max as int) + "..."@
    } else {
        s
    }
}

/// Cuts `s` down to its first `max` characters and marks the cut with
/// `"..."`; a string of at most `max` characters comes back unchanged.
pub fn truncate_chars(s: &str, max: usize) -> (res: String)
    ensures
        res@ == truncated(s@, max as nat),
{
    let count = s.unicode_len();
    if count > max {
        let head = s.substring_char(0, max);
        String::from_str(head).concat("...")
    } else {
        String::from_str(s)
    }
}


/// A truncated text is never longer than the limit plus the three-dot
/// mark, and starts with as many of the given characters as fit.
pub proof fn lemma_truncated_shape(s: Seq<char>, max: nat)
    ensures
        truncated(s, max).len() <= max + 3,
        s.len() <= max ==> truncated(s, max) == s,
        s.len() > max ==> truncated(s, max).subrange(0, max as int) == s.subrange(0, max as int),
{
    reveal_strlit("...");
    if s.len() > max {
        assert(truncated(s, max).subrange(0, max as int) =~= s.subrange(0, max as int));
    }
}

} // verus!
