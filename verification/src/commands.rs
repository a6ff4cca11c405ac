//! What the window asks the application to do. Every source of requests
//! (the keyboard, the command palette, the sidebar and the panes) is turned
//! into the same commands, which the application carries out on its tabs.
use vstd::prelude::*;
use crate::command_palette::PaletteAction;

verus! {

/// Something the application is asked to do.
pub enum AppCommand {
    TogglePalette,
    ShowShortcutOverlay,
    CloseShortcutOverlay,
    NewTab,
    CloseTab,
    FocusNextPane,
    NextTab,
    PreviousTab,
    GoBack,
    GoForward,
    GoUp,
    GoHome,
    NavigateTo(String),
    Load { tab_id: usize, path: String },
    EditAddressBar,
    ToggleSidebar,
    TogglePreview,
    ToggleHiddenFiles,
    FocusFilter,
    DetailsView,
    GridView,
    Refresh,
    Copy,
    Cut,
    Paste,
    MoveToTrash,
    ConfirmPermanentDelete,
    Rename,
    BatchRename,
    OpenSelected,
    SelectAll,
    SelectNext,
    SelectPrevious,
    /// Split the focused pane, opening the focused tab's directory.
    SplitRight,
    /// Split the focused pane, opening the given directory.
    SplitRightAt(String),
    RemoveBookmark(String),
}

/// What the sidebar asks for.
pub enum SidebarAction {
    Nothing,
    Navigate(String),
    RemoveBookmark(String),
}

/// What a pane asks for.
pub enum ViewerAction {
    Navigate(String),
    GoBack,
    GoForward,
    GoUp,
    RequestLoad { tab_id: usize, path: String },
    SplitRight { path: String },
}

/// The command a palette entry stands for.
pub open spec fn palette_command_of(a: PaletteAction) -> AppCommand {
    match a {
        PaletteAction::ToggleSidebar => AppCommand::ToggleSidebar,
        PaletteAction::TogglePreview => AppCommand::TogglePreview,
        PaletteAction::ToggleHiddenFiles => AppCommand::ToggleHiddenFiles,
        PaletteAction::NewTab => AppCommand::NewTab,
        PaletteAction::CloseTab => AppCommand::CloseTab,
        PaletteAction::GoBack => AppCommand::GoBack,
        PaletteAction::GoForward => AppCommand::GoForward,
        PaletteAction::GoUp => AppCommand::GoUp,
        PaletteAction::GoHome => AppCommand::GoHome,
        PaletteAction::Refresh => AppCommand::Refresh,
        PaletteAction::FocusFilter => AppCommand::FocusFilter,
        PaletteAction::EditAddressBar => AppCommand::EditAddressBar,
        PaletteAction::SplitRight => AppCommand::SplitRight,
        PaletteAction::CopySelection => AppCommand::Copy,
        PaletteAction::CutSelection => AppCommand::Cut,
        PaletteAction::PasteClipboard => AppCommand::Paste,
        PaletteAction::Rename => AppCommand::Rename,
        PaletteAction::MoveToTrash => AppCommand::MoveToTrash,
        PaletteAction::DeletePermanently => AppCommand::ConfirmPermanentDelete,
        PaletteAction::SelectAll => AppCommand::SelectAll,
        PaletteAction::BatchRename => AppCommand::BatchRename,
        PaletteAction::NavigateTo(p) => AppCommand::NavigateTo(p),
    }
}

/// The command for a chosen palette entry.
pub fn palette_command(a: PaletteAction) -> (c: AppCommand)
    ensures
        c == palette_command_of(a),
{
    match a {
        PaletteAction::ToggleSidebar => AppCommand::ToggleSidebar,
        PaletteAction::TogglePreview => AppCommand::TogglePreview,
        PaletteAction::ToggleHiddenFiles => AppCommand::ToggleHiddenFiles,
        PaletteAction::NewTab => AppCommand::NewTab,
        PaletteAction::CloseTab => AppCommand::CloseTab,
        PaletteAction::GoBack => AppCommand::GoBack,
        PaletteAction::GoForward => AppCommand::GoForward,
        PaletteAction::GoUp => AppCommand::GoUp,
        PaletteAction::GoHome => AppCommand::GoHome,
        PaletteAction::Refresh => AppCommand::Refresh,
        PaletteAction::FocusFilter => AppCommand::FocusFilter,
        PaletteAction::EditAddressBar => AppCommand::EditAddressBar,
        PaletteAction::SplitRight => AppCommand::SplitRight,
        PaletteAction::CopySelection => AppCommand::Copy,
        PaletteAction::CutSelection => AppCommand::Cut,
        PaletteAction::PasteClipboard => AppCommand::Paste,
        PaletteAction::Rename => AppCommand::Rename,
        PaletteAction::MoveToTrash => AppCommand::MoveToTrash,
        PaletteAction::DeletePermanently => AppCommand::ConfirmPermanentDelete,
        PaletteAction::SelectAll => AppCommand::SelectAll,
        PaletteAction::BatchRename => AppCommand::BatchRename,
        PaletteAction::NavigateTo(p) => AppCommand::NavigateTo(p),
    }
}

/// The command for what a pane asked.
pub fn viewer_command(a: ViewerAction) -> (c: AppCommand)
    ensures
        c == (match a {
            ViewerAction::Navigate(p) => AppCommand::NavigateTo(p),
            ViewerAction::GoBack => AppCommand::GoBack,
            ViewerAction::GoForward => AppCommand::GoForward,
            ViewerAction::GoUp => AppCommand::GoUp,
            ViewerAction::RequestLoad { tab_id, path } => AppCommand::Load { tab_id, path },
            ViewerAction::SplitRight { path } => AppCommand::SplitRightAt(path),
        }),
{
    match a {
        ViewerAction::Navigate(p) => AppCommand::NavigateTo(p),
        ViewerAction::GoBack => AppCommand::GoBack,
        ViewerAction::GoForward => AppCommand::GoForward,
        ViewerAction::GoUp => AppCommand::GoUp,
        ViewerAction::RequestLoad { tab_id, path } => AppCommand::Load { tab_id, path },
        ViewerAction::SplitRight { path } => AppCommand::SplitRightAt(path),
    }
}

/// The command for what the sidebar asked, if it asked for anything.
pub fn sidebar_command(a: SidebarAction) -> (c: Option<AppCommand>)
    ensures
        c == (match a {
            SidebarAction::Nothing => None,
            SidebarAction::Navigate(p) => Some(AppCommand::NavigateTo(p)),
            SidebarAction::RemoveBookmark(p) => Some(AppCommand::RemoveBookmark(p)),
        }),
{
    match a {
        SidebarAction::Nothing => None,
        SidebarAction::Navigate(p) => Some(AppCommand::NavigateTo(p)),
        SidebarAction::RemoveBookmark(p) => Some(AppCommand::RemoveBookmark(p)),
    }
}

/// The tab made active by cycling from `active` among `len` tabs: the next
/// one, wrapping to the first, or going backwards the previous one,
/// wrapping to the last.
pub open spec fn cycled(active: int, len: int, backwards: bool) -> int {
    if backwards {
        if active == 0 { len - 1 } else { active - 1 }
    } else {
        (active + 1) % len
    }
}

/// The tab to activate when cycling through the `len` tabs of a pane; none
/// when the pane has a single tab.
pub fn cycle_tab(active: usize, len: usize, backwards: bool) -> (r: Option<usize>)
    requires
        active < len,
    ensures
        len <= 1 ==> r is None,
        len > 1 ==> r == Some(cycled(active as int, len as int, backwards) as usize),
        len > 1 ==> r.unwrap() < len,
{
    if len <= 1 {
        None
    } else if backwards {
        if active == 0 {
            Some(len - 1)
        } else {
            Some(active - 1)
        }
    } else {
        Some((active + 1) % len)
    }
}

/// Cycling forwards then backwards, or backwards then forwards, comes back
/// to the tab one started from.
pub proof fn law_cycle_round_trip(active: int, len: int)
    requires
        0 <= active < len,
        len > 1,
    ensures
        cycled(cycled(active, len, false), len, true) == active,
        cycled(cycled(active, len, true), len, false) == active,
        0 <= cycled(active, len, false) < len,
        0 <= cycled(active, len, true) < len,
{
    if active + 1 == len {
        assert((active + 1) % len == 0) by (nonlinear_arith)
            requires
                active + 1 == len,
                len > 1;
    } else {
        assert((active + 1) % len == active + 1) by (nonlinear_arith)
            requires
                0 <= active,
                active + 1 < len;
    }
    if active == 0 {
        assert((len - 1 + 1) % len == 0) by (nonlinear_arith)
            requires
                len > 1;
    } else {
        assert((active - 1 + 1) % len == active) by (nonlinear_arith)
            requires
                0 < active < len;
    }
}

/// The first position of `x` in `s`, if any.
pub open spec fn first_index(s: Seq<usize>, x: usize) -> Option<int>
    decreases s.len(),
{
    if s.len() == 0 {
        None
    } else if s[0] == x {
        Some(0)
    } else {
        match first_index(s.drop_first(), x) {
            Some(i) => Some(i + 1),
            None => None,
        }
    }
}

/// The pane focused after the one at `current` among `leaves` (the panes in
/// layout order), wrapping around; the first pane when `current` is not
/// among them; none when there is a single pane or none.
pub open spec fn next_pane_of(leaves: Seq<usize>, current: Option<usize>) -> Option<usize> {
    if leaves.len() <= 1 {
        None
    } else {
        match current {
            Some(c) => match first_index(leaves, c) {
                Some(pos) => Some(leaves[(pos + 1) % (leaves.len() as int)]),
                None => Some(leaves[0]),
            },
            None => Some(leaves[0]),
        }
    }
}

/// The position found by a search is that of the first occurrence.
proof fn lemma_first_index(s: Seq<usize>, x: usize, i: int)
    requires
        0 <= i < s.len(),
        s[i] == x,
        forall|k: int| 0 <= k < i ==> s[k] != x,
    ensures
        first_index(s, x) == Some(i),
    decreases i,
{
    if i > 0 {
        assert(s.drop_first()[i - 1] == x);
        lemma_first_index(s.drop_first(), x, i - 1);
    }
}

/// A value absent from a sequence has no position in it.
proof fn lemma_first_index_absent(s: Seq<usize>, x: usize)
    requires
        forall|k: int| 0 <= k < s.len() ==> s[k] != x,
    ensures
        first_index(s, x) is None,
    decreases s.len(),
{
    if s.len() > 0 {
        assert forall|k: int| 0 <= k < s.drop_first().len() implies s.drop_first()[k] != x by {
            assert(s.drop_first()[k] == s[k + 1]);
        }
        lemma_first_index_absent(s.drop_first(), x);
    }
}

/// The pane to focus when the focus moves on.
pub fn next_pane(leaves: &Vec<usize>, current: Option<usize>) -> (r: Option<usize>)
    ensures
        r == next_pane_of(leaves@, current),
{
    if leaves.len() <= 1 {
        return None;
    }
    match current {
        None => Some(leaves[0]),
        Some(c) => {
            let mut i: usize = 0;
            while i < leaves.len()
                invariant
                    i <= leaves@.len(),
                    leaves@.len() > 1,
                    current == Some(c),
                    forall|k: int| 0 <= k < i ==> leaves@[k] != c,
                decreases leaves@.len() - i,
            {
                if leaves[i] == c {
                    proof {
                        lemma_first_index(leaves@, c, i as int);
                    }
                    let j: usize = (i + 1) % leaves.len();
                    assert(j as int == (i as int + 1) % (leaves@.len() as int));
                    return Some(leaves[j]);
                }
                i = i + 1;
            }
            proof {
                lemma_first_index_absent(leaves@, c);
            }
            Some(leaves[0])
        },
    }
}

/// Whether the active tab of a pane holding `pane_tabs` tabs may be closed
/// when the window holds `all_tabs`: the last tab of the window stays.
pub fn may_close_tab(pane_tabs: usize, all_tabs: usize) -> (r: bool)
    ensures
        r == (pane_tabs > 1 || all_tabs > 1),
{
    pane_tabs > 1 || all_tabs > 1
}

} // verus!
