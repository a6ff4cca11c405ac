//! The status bar under the file list: how many items the folder holds, how
//! many are selected, and how many operations can be undone.
use vstd::prelude::*;
use crate::numbers::{decimal, decimal_chars};
use crate::text::{chars_of, extend_chars, string_of};

verus! {

/// "<total> items", or "<shown> of <total> items" while a filter narrows the
/// list.
pub open spec fn item_count_spec(total: nat, shown: nat, filtering: bool) -> Seq<char> {
    if filtering {
        decimal(shown) + " of "@ + decimal(total) + " items"@
    } else {
        decimal(total) + " items"@
    }
}

/// The item count shown at the left of the status bar.
pub fn item_count_text(total: usize, shown: usize, filtering: bool) -> (r: String)
    ensures
        r@ == item_count_spec(total as nat, shown as nat, filtering),
{
    let mut v: Vec<char> = Vec::new();
    if filtering {
        v = decimal_chars(shown as u64);
        let of = chars_of(" of ");
        extend_chars(&mut v, &of);
        let t = decimal_chars(total as u64);
        extend_chars(&mut v, &t);
    } else {
        v = decimal_chars(total as u64);
    }
    let tail = chars_of(" items");
    extend_chars(&mut v, &tail);
    string_of(&v)
}

/// "<count> selected (<size>)" when something is selected, where `size_label`
/// is the total size of the selected files as the view writes it; nothing
/// when the selection is empty.
pub fn selected_text(count: usize, size_label: &str) -> (r: Option<String>)
    ensures
        count == 0 ==> r is None,
        count > 0 ==> (r matches Some(t) && t@ == decimal(count as nat) + " selected ("@ + size_label@ + ")"@),
{
    if count == 0 {
        return None;
    }
    let mut v = decimal_chars(count as u64);
    let mid = chars_of(" selected (");
    extend_chars(&mut v, &mid);
    let label = chars_of(size_label);
    extend_chars(&mut v, &label);
    let close = chars_of(")");
    extend_chars(&mut v, &close);
    Some(string_of(&v))
}

/// "<n> undoable" when operations can be undone; nothing otherwise.
pub fn undo_text(undo_count: usize) -> (r: Option<String>)
    ensures
        undo_count == 0 ==> r is None,
        undo_count > 0 ==> (r matches Some(t) && t@ == decimal(undo_count as nat) + " undoable"@),
{
    if undo_count == 0 {
        return None;
    }
    let mut v = decimal_chars(undo_count as u64);
    let tail = chars_of(" undoable");
    extend_chars(&mut v, &tail);
    Some(string_of(&v))
}

} // verus!
