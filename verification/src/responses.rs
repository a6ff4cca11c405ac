//! What the application does with the workers' replies: a finished load
//! goes to the tab that asked for it; a finished file operation is
//! announced, and on success the focused tab is reloaded. Also what the
//! watcher is told to watch.
use vstd::prelude::*;
use crate::state::{is_load_request, loaded_post, DirRequest, DirResponse, FileOpResponse, Tab};
use crate::watcher::WatchCommand;

verus! {

/// The position of the first tab numbered `id`, if any.
pub open spec fn tab_position(tabs: Seq<Tab>, id: usize) -> Option<int>
    decreases tabs.len(),
{
    if tabs.len() == 0 {
        None
    } else {
        match tab_position(tabs.drop_last(), id) {
            Some(i) => Some(i),
            None => if tabs.last().id == id { Some(tabs.len() - 1) } else { None },
        }
    }
}

/// Finds the tab numbered `id`.
pub fn find_tab_by_id(tabs: &Vec<Tab>, id: usize) -> (r: Option<usize>)
    ensures
        match r {
            Some(i) => tab_position(tabs@, id) == Some(i as int) && i < tabs@.len() && tabs@[i as int].id == id,
            None => tab_position(tabs@, id) is None,
        },
{
    let mut i: usize = 0;
    while i < tabs.len()
        invariant
            i <= tabs@.len(),
            tab_position(tabs@.take(i as int), id) is None,
        decreases tabs@.len() - i,
    {
        assert(tabs@.take(i + 1).drop_last() == tabs@.take(i as int));
        if tabs[i].id == id {
            proof {
                lemma_position_prefix(tabs@, id, i as int + 1);
            }
            return Some(i);
        }
        i = i + 1;
    }
    assert(tabs@.take(i as int) == tabs@);
    None
}

/// A position found in a prefix is the position in the whole.
proof fn lemma_position_prefix(tabs: Seq<Tab>, id: usize, n: int)
    requires
        0 <= n <= tabs.len(),
        tab_position(tabs.take(n), id) is Some,
    ensures
        tab_position(tabs, id) == tab_position(tabs.take(n), id),
    decreases tabs.len() - n,
{
    if n < tabs.len() {
        assert(tabs.take(n + 1).drop_last() == tabs.take(n));
        lemma_position_prefix(tabs, id, n + 1);
    } else {
        assert(tabs.take(n) == tabs);
    }
}

/// Hands a finished load to the tab that asked for it; nothing happens when
/// that tab has been closed.
pub fn process_response(tabs: &mut Vec<Tab>, resp: DirResponse)
    ensures
        final(tabs)@.len() == old(tabs)@.len(),
        match resp {
            DirResponse::DirectoryLoaded { tab_id, path, entries } => match tab_position(old(tabs)@, tab_id) {
                None => final(tabs)@ == old(tabs)@,
                Some(i) => {
                    &&& loaded_post(old(tabs)@[i], path, entries, final(tabs)@[i])
                    &&& forall|k: int| 0 <= k < old(tabs)@.len() && k != i ==> final(tabs)@[k] == old(tabs)@[k]
                },
            },
        },
{
    match resp {
        DirResponse::DirectoryLoaded { tab_id, path, entries } => {
            match find_tab_by_id(tabs, tab_id) {
                None => {},
                Some(i) => {
                    let ghost before = tabs@;
                    let mut t = tabs.remove(i);
                    t.apply_directory_loaded(path, entries);
                    tabs.insert(i, t);
                    assert forall|k: int| 0 <= k < before.len() && k != i implies tabs@[k] == before[k] by {
                        if k < i {
                            assert(tabs@[k] == before[k]);
                        } else {
                            assert(tabs@[k] == before[k]);
                        }
                    }
                },
            }
        },
    }
}

/// How a message is shown to the user.
#[derive(Debug, Clone, Copy, PartialEq, Eq, Structural)]
pub enum ToastKind {
    Success,
    Error,
}

/// A message shown briefly to the user.
pub struct Toast {
    pub kind: ToastKind,
    pub message: String,
}

/// Announces a finished file operation; after a success the focused tab
/// (number and folder), if any, is reloaded.
pub fn file_op_outcome(resp: FileOpResponse, focused: Option<(usize, String)>) -> (r: (Toast, Option<DirRequest>))
    ensures
        match resp {
            FileOpResponse::Success { message } => {
                &&& r.0.kind == ToastKind::Success
                &&& r.0.message == message
                &&& match focused {
                    Some((id, path)) => r.1 matches Some(req) && is_load_request(req, id, path@),
                    None => r.1 is None,
                }
            },
            FileOpResponse::Error { message } => {
                &&& r.0.kind == ToastKind::Error
                &&& r.0.message == message
                &&& r.1 is None
            },
        },
{
    match resp {
        FileOpResponse::Success { message } => {
            let reload = match focused {
                Some((id, path)) => Some(DirRequest::LoadDirectory { tab_id: id, path }),
                None => None,
            };
            (Toast { kind: ToastKind::Success, message }, reload)
        },
        FileOpResponse::Error { message } => (Toast { kind: ToastKind::Error, message }, None),
    }
}

/// What the watcher is told: to watch the folder of each open tab.
pub fn watch_command_for(tabs: &Vec<Tab>) -> (c: WatchCommand)
    ensures
        c matches WatchCommand::WatchAll { tabs: w } && w@.len() == tabs@.len()
            && forall|i: int| 0 <= i < tabs@.len() ==> (#[trigger] w@[i]).0 == tabs@[i].id && w@[i].1 == tabs@[i].path,
{
    let mut w: Vec<(usize, String)> = Vec::new();
    let mut i: usize = 0;
    while i < tabs.len()
        invariant
            i <= tabs@.len(),
            w@.len() == i,
            forall|k: int| 0 <= k < i ==> (#[trigger] w@[k]).0 == tabs@[k].id && w@[k].1 == tabs@[k].path,
        decreases tabs@.len() - i,
    {
        w.push((tabs[i].id, tabs[i].path.clone()));
        i = i + 1;
    }
    WatchCommand::WatchAll { tabs: w }
}

} // verus!
