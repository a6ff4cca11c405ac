//! The main window: its title, the tabs it opens with, what it saves on
//! exit, and the question asked before deleting for good.
use vstd::prelude::*;
use crate::numbers::{decimal, decimal_chars};
use crate::session::{Session, TabSession};
use crate::state::FileOpRequest;
use crate::text::{chars_of, extend_chars, opt_text, string_of};
use crate::user_dirs::home_dir;

verus! {

/// The window title: the focused tab's name followed by " — Xplorer", or
/// "Xplorer" alone when no tab has the focus.
pub open spec fn title_text(focused: Option<Seq<char>>) -> Seq<char> {
    match focused {
        Some(name) => name + " — Xplorer"@,
        None => "Xplorer"@,
    }
}

/// The title of the window for the focused tab's name, if any.
pub fn window_title(focused: Option<&str>) -> (r: String)
    ensures
        r@ == title_text(match focused {
            Some(n) => Some(n@),
            None => None,
        }),
{
    match focused {
        Some(n) => String::from_str(n).concat(" — Xplorer"),
        None => String::from_str("Xplorer"),
    }
}

/// The question asked before deleting `count` items for good.
pub open spec fn confirm_delete_text(count: nat) -> Seq<char> {
    "Permanently delete "@ + decimal(count) + " item(s)? This cannot be undone."@
}

/// The question asked before deleting `count` items for good.
pub fn confirm_delete_message(count: u64) -> (r: String)
    ensures
        r@ == confirm_delete_text(count as nat),
{
    let mut m = chars_of("Permanently delete ");
    let d = decimal_chars(count);
    extend_chars(&mut m, &d);
    let tail = chars_of(" item(s)? This cannot be undone.");
    extend_chars(&mut m, &tail);
    string_of(&m)
}

/// A deletion for good that waits for the user's answer.
pub struct ConfirmDelete {
    pub paths: Vec<String>,
}

/// The answer given this frame to the question before deleting for good:
/// "Delete" closes the question and asks for the paths to be deleted, not to
/// the trash; "Cancel" or Escape closes it; otherwise it stays open. With no
/// question open nothing happens.
pub fn answer_confirm_delete(
    dialog: &mut Option<ConfirmDelete>,
    delete_clicked: bool,
    cancel_clicked: bool,
    escape: bool,
) -> (r: Option<FileOpRequest>)
    ensures
        match *old(dialog) {
            None => r is None && *final(dialog) is None,
            Some(d) => if delete_clicked {
                &&& *final(dialog) is None
                &&& r matches Some(FileOpRequest::Delete { paths, to_trash }) && paths == d.paths && !to_trash
            } else if cancel_clicked || escape {
                *final(dialog) is None && r is None
            } else {
                *final(dialog) == *old(dialog) && r is None
            },
        },
{
    if dialog.is_none() {
        return None;
    }
    if delete_clicked {
        match dialog.take() {
            Some(d) => Some(FileOpRequest::Delete { paths: d.paths, to_trash: false }),
            None => None,
        }
    } else {
        if cancel_clicked || escape {
            *dialog = None;
        }
        None
    }
}

/// The directory a new tab opens: the home directory, or "C:\\" when it is
/// unknown.
pub open spec fn home_or_default(home: Option<Seq<char>>) -> Seq<char> {
    match home {
        Some(h) => h,
        None => "C:\\"@,
    }
}

/// The directory a new tab opens, given the home directory if known.
pub fn new_tab_dir_from(home: Option<String>) -> (r: String)
    ensures
        r@ == home_or_default(opt_text(home)),
{
    match home {
        Some(h) => h,
        None => String::from_str("C:\\"),
    }
}

/// The directory a new tab opens.
pub fn new_tab_dir() -> (r: String)
    ensures
        exists|home: Option<Seq<char>>| r@ == home_or_default(home),
{
    let home = home_dir();
    new_tab_dir_from(home)
}

/// The tabs the window opens with: the saved tabs whose directories still
/// exist, or a single tab on `home` when there are none (or no session).
pub fn startup_tabs(saved: Option<Vec<String>>, home: String) -> (r: Vec<String>)
    ensures
        match saved {
            Some(s) if s@.len() > 0 => r@ == s@,
            _ => r@ == seq![home],
        },
{
    match saved {
        Some(s) => {
            if s.len() > 0 {
                s
            } else {
                let mut v: Vec<String> = Vec::new();
                v.push(home);
                assert(v@ =~= seq![home]);
                v
            }
        },
        None => {
            let mut v: Vec<String> = Vec::new();
            v.push(home);
            assert(v@ =~= seq![home]);
            v
        },
    }
}

/// The session saved on exit: one tab per open tab's directory, in order,
/// and the panels shown.
pub fn exit_session(tab_paths: &Vec<String>, show_sidebar: bool, show_preview: bool) -> (s: Session)
    ensures
        s.tabs@.len() == tab_paths@.len(),
        forall|i: int| 0 <= i < tab_paths@.len() ==> #[trigger] s.tabs@[i].path@ == tab_paths@[i]@,
        s.show_sidebar == show_sidebar,
        s.show_preview == show_preview,
{
    let mut tabs: Vec<TabSession> = Vec::new();
    let mut i: usize = 0;
    while i < tab_paths.len()
        invariant
            i <= tab_paths@.len(),
            tabs@.len() == i,
            forall|k: int| 0 <= k < i ==> #[trigger] tabs@[k].path@ == tab_paths@[k]@,
        decreases tab_paths@.len() - i,
    {
        let p = String::from_str(tab_paths[i].as_str());
        tabs.push(TabSession { path: p });
        i = i + 1;
    }
    Session { tabs, show_sidebar, show_preview }
}

} // verus!
