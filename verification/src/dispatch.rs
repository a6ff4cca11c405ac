//! Carrying out a command on the focused tab: the keyboard, the command
//! palette and the panes all ask for commands (see `commands`); those that
//! act on the focused tab and the application state are carried out here,
//! and what remains for the outside (a folder to load, a file operation to
//! run, a deletion to confirm, a file to open) is handed back.
use vstd::prelude::*;
use crate::commands::AppCommand;
use crate::paths::path_parent;
use crate::state::{
    at_cursor, history_wf, is_load_request, navigate_post, same_but_clipboard, selected_paths_of, step_post, AppState, ClipboardOp,
    DirRequest, FileOpRequest, RenameState, Tab,
};

verus! {

/// What is left to do once a command has been carried out.
pub enum Outcome {
    /// Nothing further.
    Done,
    /// A folder to load.
    Load(DirRequest),
    /// A file operation to run.
    FileOp(FileOpRequest),
    /// Deleting these paths for good awaits the user's confirmation.
    ConfirmDelete(Vec<String>),
    /// A file to open with its default program.
    OpenFile(String),
    /// The command is the window's own (tabs, panes, overlays, view
    /// settings): nothing was changed here.
    Window,
}

/// Whether a command acts on the focused tab or the application state,
/// rather than on the window's tabs, panes and overlays.
pub open spec fn for_focused_tab(cmd: AppCommand) -> bool {
    match cmd {
        AppCommand::GoBack => true,
        AppCommand::GoForward => true,
        AppCommand::GoUp => true,
        AppCommand::GoHome => true,
        AppCommand::NavigateTo(_) => true,
        AppCommand::Load { .. } => true,
        AppCommand::Refresh => true,
        AppCommand::EditAddressBar => true,
        AppCommand::ToggleSidebar => true,
        AppCommand::FocusFilter => true,
        AppCommand::Copy => true,
        AppCommand::Cut => true,
        AppCommand::Paste => true,
        AppCommand::MoveToTrash => true,
        AppCommand::ConfirmPermanentDelete => true,
        AppCommand::Rename => true,
        AppCommand::OpenSelected => true,
        _ => false,
    }
}

/// The entry that Enter opens: the first of the selection, when it is one
/// of the tab's entries.
pub open spec fn first_selected(t: Tab) -> Option<int> {
    if t.selected_indices@.len() > 0 && (t.selected_indices@[0] as int) < t.entries@.len() {
        Some(t.selected_indices@[0] as int)
    } else {
        None
    }
}

/// The entry that F2 renames: the selected one, when exactly one is selected
/// and it is one of the tab's entries.
pub open spec fn single_selected(t: Tab) -> Option<int> {
    if t.selected_indices@.len() == 1 && (t.selected_indices@[0] as int) < t.entries@.len() {
        Some(t.selected_indices@[0] as int)
    } else {
        None
    }
}

/// The outcome of a step in the history: the load of the path stepped to,
/// or nothing when there was nowhere to go.
pub open spec fn step_outcome(r: Outcome, tab_id: usize, p: Option<Seq<char>>) -> bool {
    match p {
        Some(q) => r matches Outcome::Load(req) && is_load_request(req, tab_id, q),
        None => r is Done,
    }
}

/// `b` is `a` with the address bar opened on the current path.
pub open spec fn address_bar_opened(a: Tab, b: Tab) -> bool {
    b == (Tab { editing_address_bar: true, address_bar_text: a.path, ..a })
}

impl AppState {
    /// Carries out `cmd` on the focused `tab` and on this state; `home` is the
    /// user's home folder, where "go home" leads. What is left for the
    /// outside is returned. A command of the window's own changes nothing
    /// here and is handed back as `Window`.
    pub fn carry_out(&mut self, tab: &mut Tab, cmd: AppCommand, home: &str) -> (r: Outcome)
        requires
            history_wf(*old(tab)),
        ensures
            history_wf(*final(tab)),
            at_cursor(*old(tab)) ==> at_cursor(*final(tab)),
            !for_focused_tab(cmd) ==> r is Window && *final(self) == *old(self) && *final(tab) == *old(tab),
            cmd matches AppCommand::GoBack ==> {
                &&& *final(self) == *old(self)
                &&& exists|p: Option<Seq<char>>|
                    step_post(*old(tab), false, *final(tab), p) && step_outcome(r, old(tab).id, p)
            },
            cmd matches AppCommand::GoForward ==> {
                &&& *final(self) == *old(self)
                &&& exists|p: Option<Seq<char>>|
                    step_post(*old(tab), true, *final(tab), p) && step_outcome(r, old(tab).id, p)
            },
            cmd matches AppCommand::GoUp ==> {
                &&& *final(self) == *old(self)
                &&& match path_parent(old(tab).path@) {
                    Some(p) if p != old(tab).path@ => navigate_post(*old(tab), p, *final(tab))
                        && (r matches Outcome::Load(req) && is_load_request(req, old(tab).id, p)),
                    _ => r is Done && *final(tab) == *old(tab),
                }
            },
            cmd matches AppCommand::GoHome ==> {
                &&& *final(self) == *old(self)
                &&& navigate_post(*old(tab), home@, *final(tab))
                &&& r matches Outcome::Load(req) && is_load_request(req, old(tab).id, home@)
            },
            cmd matches AppCommand::NavigateTo(p) ==> {
                &&& *final(self) == *old(self)
                &&& navigate_post(*old(tab), p@, *final(tab))
                &&& r matches Outcome::Load(req) && is_load_request(req, old(tab).id, p@)
            },
            cmd matches AppCommand::Load { tab_id, path } ==> {
                &&& *final(self) == *old(self)
                &&& *final(tab) == *old(tab)
                &&& r matches Outcome::Load(req) && is_load_request(req, tab_id, path@)
            },
            cmd matches AppCommand::Refresh ==> {
                &&& *final(self) == *old(self)
                &&& *final(tab) == *old(tab)
                &&& r matches Outcome::Load(req) && is_load_request(req, old(tab).id, old(tab).path@)
            },
            cmd matches AppCommand::EditAddressBar ==> {
                &&& *final(self) == *old(self)
                &&& address_bar_opened(*old(tab), *final(tab))
                &&& r is Done
            },
            cmd matches AppCommand::ToggleSidebar ==> {
                &&& *final(self) == (AppState { show_sidebar: !old(self).show_sidebar, ..*old(self) })
                &&& *final(tab) == *old(tab)
                &&& r is Done
            },
            cmd matches AppCommand::FocusFilter ==> {
                &&& *final(self) == (AppState { focus_filter: true, ..*old(self) })
                &&& *final(tab) == *old(tab)
                &&& r is Done
            },
            cmd matches AppCommand::Copy ==> {
                &&& *final(tab) == *old(tab)
                &&& same_but_clipboard(*old(self), *final(self))
                &&& r is Done
                &&& if selected_paths_of(old(tab).selected_indices@, old(tab).entries@).len() > 0 {
                    final(self).clipboard matches Some(c) && c.operation == ClipboardOp::Copy
                        && c.paths.deep_view() == selected_paths_of(old(tab).selected_indices@, old(tab).entries@)
                } else {
                    final(self).clipboard == old(self).clipboard
                }
            },
            cmd matches AppCommand::Cut ==> {
                &&& *final(tab) == *old(tab)
                &&& same_but_clipboard(*old(self), *final(self))
                &&& r is Done
                &&& if selected_paths_of(old(tab).selected_indices@, old(tab).entries@).len() > 0 {
                    final(self).clipboard matches Some(c) && c.operation == ClipboardOp::Cut
                        && c.paths.deep_view() == selected_paths_of(old(tab).selected_indices@, old(tab).entries@)
                } else {
                    final(self).clipboard == old(self).clipboard
                }
            },
            cmd matches AppCommand::Paste ==> {
                &&& *final(tab) == *old(tab)
                &&& same_but_clipboard(*old(self), *final(self))
                &&& match old(self).clipboard {
                    None => r is Done && final(self).clipboard is None,
                    Some(c) => match c.operation {
                        ClipboardOp::Copy => {
                            &&& r matches Outcome::FileOp(FileOpRequest::Copy { sources, dest_dir })
                                && sources@ == c.paths@ && dest_dir@ == old(tab).path@
                            &&& final(self).clipboard == old(self).clipboard
                        },
                        ClipboardOp::Cut => {
                            &&& r matches Outcome::FileOp(FileOpRequest::Move { sources, dest_dir })
                                && sources@ == c.paths@ && dest_dir@ == old(tab).path@
                            &&& final(self).clipboard is None
                        },
                    },
                }
            },
            cmd matches AppCommand::MoveToTrash ==> {
                &&& *final(self) == *old(self)
                &&& *final(tab) == *old(tab)
                &&& if selected_paths_of(old(tab).selected_indices@, old(tab).entries@).len() > 0 {
                    r matches Outcome::FileOp(FileOpRequest::Delete { paths, to_trash })
                        && paths.deep_view() == selected_paths_of(old(tab).selected_indices@, old(tab).entries@)
                        && to_trash
                } else {
                    r is Done
                }
            },
            cmd matches AppCommand::ConfirmPermanentDelete ==> {
                &&& *final(self) == *old(self)
                &&& *final(tab) == *old(tab)
                &&& if selected_paths_of(old(tab).selected_indices@, old(tab).entries@).len() > 0 {
                    r matches Outcome::ConfirmDelete(paths)
                        && paths.deep_view() == selected_paths_of(old(tab).selected_indices@, old(tab).entries@)
                } else {
                    r is Done
                }
            },
            cmd matches AppCommand::Rename ==> {
                &&& *final(self) == *old(self)
                &&& r is Done
                &&& match single_selected(*old(tab)) {
                    Some(i) => *final(tab) == (Tab {
                        rename_state: Some(RenameState {
                            entry_index: i as usize,
                            new_name: old(tab).entries@[i].name,
                        }),
                        ..*old(tab)
                    }),
                    None => *final(tab) == *old(tab),
                }
            },
            cmd matches AppCommand::OpenSelected ==> {
                &&& *final(self) == *old(self)
                &&& match first_selected(*old(tab)) {
                    Some(i) => if old(tab).entries@[i].is_dir {
                        &&& navigate_post(*old(tab), old(tab).entries@[i].path@, *final(tab))
                        &&& r matches Outcome::Load(req) && is_load_request(req, old(tab).id, old(tab).entries@[i].path@)
                    } else {
                        &&& *final(tab) == *old(tab)
                        &&& r matches Outcome::OpenFile(p) && p@ == old(tab).entries@[i].path@
                    },
                    None => r is Done && *final(tab) == *old(tab),
                }
            },
    {
        let hist_len = tab.history.len();
        assert(tab.history_index < hist_len);
        match cmd {
            AppCommand::GoBack => {
                let ghost before = *tab;
                let moved = self.go_back_tab(tab);
                let ghost p = choose|p: Option<Seq<char>>| step_post(before, false, *tab, p) && match p {
                    Some(q) => (moved matches Some(req) && is_load_request(req, before.id, q)),
                    None => moved is None,
                };
                let r = match moved {
                    Some(req) => Outcome::Load(req),
                    None => Outcome::Done,
                };
                assert(step_post(before, false, *tab, p) && step_outcome(r, before.id, p));
                r
            },
            AppCommand::GoForward => {
                let ghost before = *tab;
                let moved = self.go_forward_tab(tab);
                let ghost p = choose|p: Option<Seq<char>>| step_post(before, true, *tab, p) && match p {
                    Some(q) => (moved matches Some(req) && is_load_request(req, before.id, q)),
                    None => moved is None,
                };
                let r = match moved {
                    Some(req) => Outcome::Load(req),
                    None => Outcome::Done,
                };
                assert(step_post(before, true, *tab, p) && step_outcome(r, before.id, p));
                r
            },
            AppCommand::GoUp => match self.go_up_tab(tab) {
                Some(req) => Outcome::Load(req),
                None => Outcome::Done,
            },
            AppCommand::GoHome => Outcome::Load(self.navigate_tab(tab, home)),
            AppCommand::NavigateTo(p) => Outcome::Load(self.navigate_tab(tab, p.as_str())),
            AppCommand::Load { tab_id, path } => Outcome::Load(self.request_load(tab_id, path)),
            AppCommand::Refresh => Outcome::Load(self.refresh_tab(tab)),
            AppCommand::EditAddressBar => {
                tab.editing_address_bar = true;
                tab.address_bar_text = tab.path.clone();
                Outcome::Done
            },
            AppCommand::ToggleSidebar => {
                self.show_sidebar = !self.show_sidebar;
                Outcome::Done
            },
            AppCommand::FocusFilter => {
                self.focus_filter = true;
                Outcome::Done
            },
            AppCommand::Copy => {
                self.do_copy(tab);
                Outcome::Done
            },
            AppCommand::Cut => {
                self.do_cut(tab);
                Outcome::Done
            },
            AppCommand::Paste => match self.do_paste(tab) {
                Some(req) => Outcome::FileOp(req),
                None => Outcome::Done,
            },
            AppCommand::MoveToTrash => match self.do_delete(tab, true) {
                Some(req) => Outcome::FileOp(req),
                None => Outcome::Done,
            },
            AppCommand::ConfirmPermanentDelete => {
                let paths = tab.selected_paths();
                if paths.len() > 0 {
                    Outcome::ConfirmDelete(paths)
                } else {
                    Outcome::Done
                }
            },
            AppCommand::Rename => {
                if tab.selected_indices.len() == 1 {
                    let idx = tab.selected_indices[0];
                    if idx < tab.entries.len() {
                        let name = tab.entries[idx].name.clone();
                        tab.rename_state = Some(RenameState { entry_index: idx, new_name: name });
                    }
                }
                Outcome::Done
            },
            AppCommand::OpenSelected => {
                if tab.selected_indices.len() > 0 {
                    let idx = tab.selected_indices[0];
                    if idx < tab.entries.len() {
                        let path = tab.entries[idx].path.clone();
                        if tab.entries[idx].is_dir {
                            Outcome::Load(self.navigate_tab(tab, path.as_str()))
                        } else {
                            Outcome::OpenFile(path)
                        }
                    } else {
                        Outcome::Done
                    }
                } else {
                    Outcome::Done
                }
            },
            _ => Outcome::Window,
        }
    }
}

} // verus!
