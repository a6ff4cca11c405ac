//! The bar above a listing: the back and forward buttons, the breadcrumb
//! of the current path, and the address field.
use vstd::prelude::*;
use crate::paths::{join, path_join};
use crate::state::{history_of, step_post, Tab};
use crate::text::{trim_view, trimmed};

verus! {

/// What `Path::components` yields for a path, each component as text.
pub uninterp spec fn path_components(path: Seq<char>) -> Seq<Seq<char>>;

/// `Path::components`, each as text. Claims only that the result is the
/// named function of the path.
#[verifier::external_body]
pub(crate) fn components(path: &str) -> (r: Vec<String>)
    ensures
        r@.len() == path_components(path@).len(),
        forall|i: int| 0 <= i < r@.len() ==> #[trigger] r@[i]@ == path_components(path@)[i],
{
    std::path::Path::new(path).components().map(|c| c.as_os_str().to_string_lossy().to_string()).collect()
}

/// The path a breadcrumb leads to: the components up to and including the
/// `i`-th, pushed one after another onto an empty path.
pub open spec fn crumb_target(comps: Seq<Seq<char>>, i: int) -> Seq<char>
    decreases i + 1,
{
    if i < 0 {
        Seq::empty()
    } else {
        path_join(crumb_target(comps, i - 1), comps[i])
    }
}

/// The breadcrumbs of a path: for each component, its text and the path
/// clicking it navigates to.
pub fn breadcrumbs(path: &str) -> (r: Vec<(String, String)>)
    ensures
        r@.len() == path_components(path@).len(),
        forall|i: int| 0 <= i < r@.len() ==> {
            &&& (#[trigger] r@[i]).0@ == path_components(path@)[i]
            &&& r@[i].1@ == crumb_target(path_components(path@), i)
        },
{
    let comps = components(path);
    let ghost cs = path_components(path@);
    let mut acc = String::new();
    let mut r: Vec<(String, String)> = Vec::new();
    let mut i: usize = 0;
    while i < comps.len()
        invariant
            i <= comps@.len(),
            comps@.len() == cs.len(),
            forall|k: int| 0 <= k < comps@.len() ==> #[trigger] comps@[k]@ == cs[k],
            r@.len() == i,
            acc@ == crumb_target(cs, i - 1),
            forall|k: int| 0 <= k < i ==> {
                &&& (#[trigger] r@[k]).0@ == cs[k]
                &&& r@[k].1@ == crumb_target(cs, k)
            },
        decreases comps@.len() - i,
    {
        acc = join(acc.as_str(), comps[i].as_str());
        r.push((comps[i].clone(), acc.clone()));
        i = i + 1;
    }
    r
}

/// Whether the back button is enabled: the history has an entry before
/// the current one.
pub fn can_go_back(tab: &Tab) -> (r: bool)
    ensures
        r == (tab.history_index > 0),
{
    tab.history_index > 0
}

/// Whether the forward button is enabled: the history has an entry after
/// the current one.
pub fn can_go_forward(tab: &Tab) -> (r: bool)
    ensures
        r == (tab.history_index + 1 < tab.history@.len()),
{
    tab.history.len() > 0 && tab.history_index < tab.history.len() - 1
}

/// The back and forward buttons are enabled exactly when going back or
/// forward moves the tab.
pub proof fn law_buttons_match_history(t: Tab, forward: bool, t2: Tab, r: Option<Seq<char>>)
    requires
        step_post(t, forward, t2, r),
    ensures
        !forward ==> (r is Some <==> t.history_index > 0),
        forward ==> (r is Some <==> t.history_index + 1 < history_of(t).len()),
{
}

/// Opens the address field on the tab's path.
pub fn edit_address_bar(tab: &mut Tab)
    ensures
        final(tab).editing_address_bar,
        final(tab).address_bar_text == old(tab).path,
        final(tab).path == old(tab).path,
        final(tab).history == old(tab).history,
        final(tab).history_index == old(tab).history_index,
        final(tab).entries == old(tab).entries,
{
    tab.editing_address_bar = true;
    tab.address_bar_text = tab.path.clone();
}

/// Handles the address field. On Enter the field closes and the trimmed
/// text, when not blank, is the path to navigate to; on Escape or loss of
/// focus the field closes; otherwise nothing changes.
pub fn submit_address_bar(tab: &mut Tab, enter: bool, cancel: bool) -> (r: Option<String>)
    ensures
        enter ==> !final(tab).editing_address_bar,
        enter && trim_view(old(tab).address_bar_text@).len() > 0 ==> (r matches Some(p)
            && p@ == trim_view(old(tab).address_bar_text@)),
        !enter || trim_view(old(tab).address_bar_text@).len() == 0 ==> r is None,
        !enter && cancel ==> !final(tab).editing_address_bar,
        !enter && !cancel ==> final(tab).editing_address_bar == old(tab).editing_address_bar,
        final(tab).address_bar_text == old(tab).address_bar_text,
        final(tab).path == old(tab).path,
        final(tab).history == old(tab).history,
        final(tab).history_index == old(tab).history_index,
        final(tab).entries == old(tab).entries,
{
    if enter {
        let target = trimmed(tab.address_bar_text.as_str());
        tab.editing_address_bar = false;
        if target.as_str().is_empty() {
            None
        } else {
            Some(target)
        }
    } else {
        if cancel {
            tab.editing_address_bar = false;
        }
        None
    }
}

} // verus!
