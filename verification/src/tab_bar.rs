//! The tab strip: what clicking it asks for, and how long names are shortened.
use vstd::prelude::*;
use crate::text::{chars_of, string_of};

verus! {

/// What the tab strip asks the application to do.
#[derive(Debug, Clone, Copy, PartialEq, Eq, Structural)]
pub enum TabAction {
    Nothing,
    Switch(usize),
    Close(usize),
    New,
}

/// A name cut to fit: longer than `max_chars` characters, it keeps its first
/// `max_chars - 1` characters followed by an ellipsis.
pub open spec fn truncated_name(name: Seq<char>, max_chars: nat) -> Seq<char> {
    if name.len() > max_chars {
        name.take(if max_chars >= 1 { max_chars - 1 } else { 0 }).push('…')
    } else {
        name
    }
}

/// Shortens a tab name to at most `max_chars` characters (one more when
/// `max_chars` is zero, for the ellipsis).
pub fn truncate_tab_name(name: &str, max_chars: usize) -> (r: String)
    ensures
        r@ == truncated_name(name@, max_chars as nat),
{
    let v = chars_of(name);
    if v.len() > max_chars {
        let keep = if max_chars >= 1 { max_chars - 1 } else { 0 };
        let mut out: Vec<char> = Vec::new();
        let mut i: usize = 0;
        while i < keep
            invariant
                i <= keep,
                keep < v@.len(),
                out@ == v@.take(i as int),
            decreases keep - i,
        {
            out.push(v[i]);
            i = i + 1;
            assert(v@.take(i as int) == v@.take((i - 1) as int).push(v@[i - 1]));
        }
        out.push('…');
        string_of(&out)
    } else {
        String::from_str(name)
    }
}

/// A shortened name never exceeds the limit (for a limit of at least one),
/// and a name within the limit is kept whole.
pub proof fn law_truncated_name_fits(name: Seq<char>, max_chars: nat)
    requires
        max_chars >= 1,
    ensures
        truncated_name(name, max_chars).len() <= max_chars,
        name.len() <= max_chars ==> truncated_name(name, max_chars) == name,
{
}

} // verus!
