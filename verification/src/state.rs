//! Per-tab browsing state: navigation history, the listing and its order,
//! the selection; and the plain part of the application state that decides
//! what to ask of the directory and file-operation workers.
use vstd::prelude::*;
use crate::listing::{is_stable_sort, sorted_entries, SortColumn};
use crate::paths::{display_name, display_name_for_path, join, parent, path_join, path_parent};
use crate::text::{chars_of, opt_text, same_text, string_of};
use crate::types::{Bookmark, DriveInfo, FileEntry};

verus! {

/// An inline rename in progress.
pub struct RenameState {
    pub entry_index: usize,
    pub new_name: String,
}

/// What kind of item an inline "new item" prompt creates.
#[derive(Debug, Clone, Copy, PartialEq, Eq, Structural)]
pub enum NewItemMode {
    Folder,
    File,
}

/// One browsing tab.
pub struct Tab {
    pub id: usize,
    pub path: String,
    pub display_name: String,
    pub entries: Vec<FileEntry>,
    pub loading: bool,
    pub error: Option<String>,
    pub history: Vec<String>,
    pub history_index: usize,
    pub sort_column: SortColumn,
    pub sort_ascending: bool,
    pub filter_text: String,
    pub selected_indices: Vec<usize>,
    pub last_clicked_index: Option<usize>,
    pub editing_address_bar: bool,
    pub address_bar_text: String,
    pub rename_state: Option<RenameState>,
    pub new_item_mode: Option<NewItemMode>,
    pub new_item_name: String,
}

/// The paths of a history, as character sequences.
pub open spec fn history_of(t: Tab) -> Seq<Seq<char>> {
    t.history.deep_view()
}


/// The history cursor points into the history.
pub open spec fn history_wf(t: Tab) -> bool {
    t.history_index < t.history@.len()
}

/// The tab shows the history entry under its cursor.
pub open spec fn at_cursor(t: Tab) -> bool {
    history_wf(t) && t.path@ == history_of(t)[t.history_index as int]
}

/// Fields that navigation leaves alone.
pub open spec fn same_settings(a: Tab, b: Tab) -> bool {
    &&& b.id == a.id
    &&& b.entries == a.entries
    &&& b.sort_column == a.sort_column
    &&& b.sort_ascending == a.sort_ascending
    &&& b.last_clicked_index == a.last_clicked_index
    &&& b.editing_address_bar == a.editing_address_bar
    &&& b.address_bar_text == a.address_bar_text
    &&& b.rename_state == a.rename_state
    &&& b.new_item_mode == a.new_item_mode
    &&& b.new_item_name == a.new_item_name
}

/// The state after showing `path@` afresh: loading, no error, nothing selected.
pub open spec fn shows_afresh(t: Tab, path: Seq<char>) -> bool {
    &&& t.path@ == path
    &&& t.display_name@ == display_name(path)
    &&& t.loading
    &&& t.error is None
    &&& t.selected_indices@.len() == 0
}

/// `new` is `old` after navigating to `path`: the forward history is dropped,
/// `path` is appended and becomes current, and the filter is cleared.
pub open spec fn navigate_post(old: Tab, path: Seq<char>, new: Tab) -> bool {
    let h = history_of(old);
    let kept = if old.history_index + 1 <= h.len() { old.history_index + 1 } else { h.len() as int };
    &&& history_of(new) == h.take(kept).push(path)
    &&& new.history_index == history_of(new).len() - 1
    &&& shows_afresh(new, path)
    &&& new.filter_text@.len() == 0
    &&& same_settings(old, new)
}

/// `new` and the returned path `r` after stepping the cursor by one towards
/// the start (`forward` false) or the end (`forward` true) of the history;
/// nothing changes and nothing is returned when there is no such entry.
pub open spec fn step_post(old: Tab, forward: bool, new: Tab, r: Option<Seq<char>>) -> bool {
    let h = history_of(old);
    let can = if forward { old.history_index + 1 < h.len() } else { old.history_index > 0 };
    let i = if forward { old.history_index + 1 } else { old.history_index - 1 };
    if can {
        &&& r == Some(h[i])
        &&& new.history_index == i
        &&& new.history == old.history
        &&& shows_afresh(new, h[i])
        &&& new.filter_text == old.filter_text
        &&& same_settings(old, new)
    } else {
        r is None && new == old
    }
}

/// The paths of the selected entries, in selection order, skipping indices
/// past the end of the listing.
pub open spec fn selected_paths_of(sel: Seq<usize>, entries: Seq<FileEntry>) -> Seq<Seq<char>>
    decreases sel.len(),
{
    if sel.len() == 0 {
        Seq::empty()
    } else {
        let rest = selected_paths_of(sel.drop_last(), entries);
        if (sel.last() as int) < entries.len() {
            rest.push(entries[sel.last() as int].path@)
        } else {
            rest
        }
    }
}

/// Going back right after navigating returns to the path shown before.
pub proof fn law_back_after_navigate(t1: Tab, path: Seq<char>, t2: Tab, t3: Tab, r: Option<Seq<char>>)
    requires
        at_cursor(t1),
        navigate_post(t1, path, t2),
        step_post(t2, false, t3, r),
    ensures
        r == Some(t1.path@),
        t3.path@ == t1.path@,
        t3.history_index == t1.history_index,
        at_cursor(t3),
{
}

/// Going forward right after going back returns to where the tab was.
pub proof fn law_forward_after_back(t1: Tab, t2: Tab, r1: Option<Seq<char>>, t3: Tab, r2: Option<Seq<char>>)
    requires
        history_wf(t1),
        step_post(t1, false, t2, r1),
        r1 is Some,
        step_post(t2, true, t3, r2),
    ensures
        r2 == Some(history_of(t1)[t1.history_index as int]),
        t3.history_index == t1.history_index,
        t3.history == t1.history,
{
}

/// Going back right after going forward returns to where the tab was.
pub proof fn law_back_after_forward(t1: Tab, t2: Tab, r1: Option<Seq<char>>, t3: Tab, r2: Option<Seq<char>>)
    requires
        history_wf(t1),
        step_post(t1, true, t2, r1),
        r1 is Some,
        step_post(t2, false, t3, r2),
    ensures
        r2 == Some(history_of(t1)[t1.history_index as int]),
        t3.history_index == t1.history_index,
        t3.history == t1.history,
{
}

/// Navigating discards the forward history: there is nothing to go forward to.
pub proof fn law_navigate_clears_forward(t1: Tab, path: Seq<char>, t2: Tab, t3: Tab, r: Option<Seq<char>>)
    requires
        navigate_post(t1, path, t2),
        step_post(t2, true, t3, r),
    ensures
        r is None,
{
}

/// Navigation keeps the tab on the history entry under its cursor.
pub proof fn law_navigation_stays_at_cursor(t1: Tab, path: Seq<char>, forward: bool, t2: Tab, r: Option<Seq<char>>)
    requires
        at_cursor(t1),
        navigate_post(t1, path, t2) || step_post(t1, forward, t2, r),
    ensures
        at_cursor(t2),
{
}

impl Tab {
    /// A new tab showing `path`, loading, with `path` as its only history entry.
    pub fn new(id: usize, path: String, display_name: String) -> (t: Tab)
        ensures
            t.id == id,
            t.path == path,
            t.display_name == display_name,
            t.entries@.len() == 0,
            t.loading,
            t.error is None,
            history_of(t) == seq![path@],
            t.history_index == 0,
            t.sort_column == SortColumn::Name,
            t.sort_ascending,
            t.filter_text@.len() == 0,
            t.selected_indices@.len() == 0,
            t.last_clicked_index is None,
            !t.editing_address_bar,
            t.address_bar_text@.len() == 0,
            t.rename_state is None,
            t.new_item_mode is None,
            t.new_item_name@.len() == 0,
            at_cursor(t),
    {
        let mut history: Vec<String> = Vec::new();
        history.push(path.clone());
        let t = Tab {
            id,
            path,
            display_name,
            entries: Vec::new(),
            loading: true,
            error: None,
            history,
            history_index: 0,
            sort_column: SortColumn::Name,
            sort_ascending: true,
            filter_text: String::new(),
            selected_indices: Vec::new(),
            last_clicked_index: None,
            editing_address_bar: false,
            address_bar_text: String::new(),
            rename_state: None,
            new_item_mode: None,
            new_item_name: String::new(),
        };
        assert(history_of(t) =~= seq![t.path@]);
        t
    }

    /// Shows `path`, dropping any forward history.
    pub fn navigate(&mut self, path: String)
        requires
            old(self).history_index < usize::MAX,
        ensures
            navigate_post(*old(self), path@, *final(self)),
    {
        let ghost h = history_of(*self);
        self.history.truncate(self.history_index + 1);
        self.history.push(path.clone());
        assert(history_of(*self) =~= h.take(
            if old(self).history_index + 1 <= h.len() { old(self).history_index + 1 } else { h.len() as int },
        ).push(path@));
        self.history_index = self.history.len() - 1;
        self.display_name = display_name_for_path(&path);
        self.path = path;
        self.loading = true;
        self.error = None;
        self.selected_indices.clear();
        self.filter_text = String::new();
    }

    /// Steps back in the history; the path now shown, if the cursor moved.
    pub fn go_back(&mut self) -> (r: Option<String>)
        requires
            old(self).history_index <= old(self).history@.len(),
        ensures
            step_post(*old(self), false, *final(self), opt_text(r)),
    {
        if self.history_index > 0 {
            self.history_index = self.history_index - 1;
            let path = self.history[self.history_index].clone();
            self.path = path.clone();
            self.display_name = display_name_for_path(&self.path);
            self.loading = true;
            self.error = None;
            self.selected_indices.clear();
            Some(path)
        } else {
            None
        }
    }

    /// Steps forward in the history; the path now shown, if the cursor moved.
    pub fn go_forward(&mut self) -> (r: Option<String>)
        requires
            old(self).history_index < usize::MAX,
        ensures
            step_post(*old(self), true, *final(self), opt_text(r)),
    {
        if self.history_index + 1 < self.history.len() {
            self.history_index = self.history_index + 1;
            let path = self.history[self.history_index].clone();
            self.path = path.clone();
            self.display_name = display_name_for_path(&self.path);
            self.loading = true;
            self.error = None;
            self.selected_indices.clear();
            Some(path)
        } else {
            None
        }
    }

    /// Orders the listing by the tab's column and direction (a stable sort,
    /// directories first) and clears the selection.
    pub fn sort_entries(&mut self)
        ensures
            is_stable_sort(old(self).entries@, final(self).entries@, old(self).sort_column, old(self).sort_ascending),
            final(self).selected_indices@.len() == 0,
            final(self).sort_column == old(self).sort_column,
            final(self).sort_ascending == old(self).sort_ascending,
            final(self).id == old(self).id,
            final(self).path == old(self).path,
            final(self).display_name == old(self).display_name,
            final(self).loading == old(self).loading,
            final(self).error == old(self).error,
            final(self).history == old(self).history,
            final(self).history_index == old(self).history_index,
            final(self).filter_text == old(self).filter_text,
    {
        let sorted = sorted_entries(&self.entries, self.sort_column, self.sort_ascending);
        self.entries = sorted;
        self.selected_indices.clear();
    }

    /// Sorts by `column`: flips the direction when it is already the sort
    /// column, otherwise switches to it ascending.
    pub fn toggle_sort(&mut self, column: SortColumn)
        ensures
            final(self).sort_column == column,
            final(self).sort_ascending == (if old(self).sort_column == column {
                !old(self).sort_ascending
            } else {
                true
            }),
            is_stable_sort(old(self).entries@, final(self).entries@, column, final(self).sort_ascending),
            final(self).selected_indices@.len() == 0,
            final(self).path == old(self).path,
            final(self).history == old(self).history,
            final(self).history_index == old(self).history_index,
    {
        if self.sort_column == column {
            self.sort_ascending = !self.sort_ascending;
        } else {
            self.sort_column = column;
            self.sort_ascending = true;
        }
        self.sort_entries();
    }

    /// The paths of the selected entries, in selection order.
    pub fn selected_paths(&self) -> (r: Vec<String>)
        ensures
            r.deep_view() == selected_paths_of(self.selected_indices@, self.entries@),
    {
        let mut r: Vec<String> = Vec::new();
        let mut i: usize = 0;
        while i < self.selected_indices.len()
            invariant
                i <= self.selected_indices@.len(),
                r.deep_view() == selected_paths_of(self.selected_indices@.take(i as int), self.entries@),
            decreases self.selected_indices@.len() - i,
        {
            let idx = self.selected_indices[i];
            assert(self.selected_indices@.take(i + 1).drop_last() == self.selected_indices@.take(i as int));
            if idx < self.entries.len() {
                r.push(self.entries[idx].path.clone());
            }
            i = i + 1;
            assert(r.deep_view() =~= selected_paths_of(self.selected_indices@.take(i as int), self.entries@));
        }
        assert(self.selected_indices@.take(i as int) == self.selected_indices@);
        r
    }
}

/// A request to the directory worker.
pub enum DirRequest {
    LoadDirectory { tab_id: usize, path: String },
}

/// What the directory worker reports back.
pub enum DirResponse {
    DirectoryLoaded { tab_id: usize, path: String, entries: Result<Vec<FileEntry>, String> },
}

/// Paths copied or cut, waiting to be pasted.
pub struct Clipboard {
    pub paths: Vec<String>,
    pub operation: ClipboardOp,
}

/// Whether pasting copies or moves.
#[derive(Debug, Clone, Copy, PartialEq, Eq, Structural)]
pub enum ClipboardOp {
    Copy,
    Cut,
}

/// A request to the file-operation worker.
pub enum FileOpRequest {
    Copy { sources: Vec<String>, dest_dir: String },
    Move { sources: Vec<String>, dest_dir: String },
    Delete { paths: Vec<String>, to_trash: bool },
    Rename { old_path: String, new_path: String },
    CreateFolder { path: String },
    CreateFile { path: String },
}

/// What the file-operation worker reports back.
pub enum FileOpResponse {
    Success { message: String },
    Error { message: String },
}

/// The indices of the entries whose path is one of `saved`, in increasing order.
pub open spec fn indices_with_paths(entries: Seq<FileEntry>, saved: Seq<Seq<char>>) -> Seq<usize>
    decreases entries.len(),
{
    if entries.len() == 0 {
        Seq::empty()
    } else {
        let rest = indices_with_paths(entries.drop_last(), saved);
        if saved.contains(entries.last().path@) {
            rest.push((entries.len() - 1) as usize)
        } else {
            rest
        }
    }
}

/// A copy of a list of strings.
pub fn copy_strings(v: &Vec<String>) -> (r: Vec<String>)
    ensures
        r@ == v@,
{
    let mut r: Vec<String> = Vec::new();
    let mut i: usize = 0;
    while i < v.len()
        invariant
            i <= v@.len(),
            r@ == v@.take(i as int),
        decreases v@.len() - i,
    {
        r.push(v[i].clone());
        i = i + 1;
        assert(v@.take(i as int) == v@.take((i - 1) as int).push(v@[i - 1]));
    }
    assert(v@.take(i as int) == v@);
    r
}

fn contains_text(v: &Vec<String>, s: &String) -> (r: bool)
    ensures
        r == v.deep_view().contains(s@),
{
    let mut i: usize = 0;
    while i < v.len()
        invariant
            i <= v@.len(),
            forall|j: int| 0 <= j < i ==> v@[j]@ != s@,
        decreases v@.len() - i,
    {
        if same_text(&v[i], s) {
            assert(v.deep_view()[i as int] == s@);
            return true;
        }
        i = i + 1;
    }
    assert forall|j: int| 0 <= j < v.deep_view().len() implies v.deep_view()[j] != s@ by {
        assert(v.deep_view()[j] == v@[j]@);
    }
    false
}

/// `new` is `old` after taking in a finished load of `path`: see
/// `Tab::apply_directory_loaded`.
pub open spec fn loaded_post(old: Tab, path: String, entries: Result<Vec<FileEntry>, String>, new: Tab) -> bool {
    &&& !new.loading
    &&& new.id == old.id
    &&& new.history == old.history
    &&& new.history_index == old.history_index
    &&& new.sort_column == old.sort_column
    &&& new.sort_ascending == old.sort_ascending
    &&& match entries {
        Ok(e) => {
            let saved = if old.path@ == path@ {
                selected_paths_of(old.selected_indices@, old.entries@)
            } else {
                Seq::empty()
            };
            &&& new.path == path
            &&& new.display_name@ == display_name(path@)
            &&& new.error is None
            &&& is_stable_sort(e@, new.entries@, old.sort_column, old.sort_ascending)
            &&& new.selected_indices@ == (if saved.len() > 0 {
                indices_with_paths(new.entries@, saved)
            } else {
                Seq::empty()
            })
        },
        Err(msg) => {
            &&& new.error == Some(msg)
            &&& new.path == old.path
            &&& new.entries == old.entries
            &&& new.selected_indices == old.selected_indices
        },
    }
}

impl Tab {
    /// Takes in a finished directory load. A listing replaces the entries
    /// (sorted by the tab's order), moves the tab to the loaded path and clears
    /// the error; when it reloads the path already shown, the entries that
    /// were selected stay selected. A failure only records the error.
    pub fn apply_directory_loaded(&mut self, path: String, entries: Result<Vec<FileEntry>, String>)
        ensures
            loaded_post(*old(self), path, entries, *final(self)),
    {
        self.loading = false;
        match entries {
            Ok(e) => {
                let is_refresh = same_text(&self.path, &path);
                let saved = if is_refresh {
                    self.selected_paths()
                } else {
                    Vec::new()
                };
                self.display_name = display_name_for_path(&path);
                self.path = path;
                self.entries = e;
                self.error = None;
                self.selected_indices.clear();
                self.sort_entries();
                if saved.len() > 0 {
                    let mut sel: Vec<usize> = Vec::new();
                    let mut i: usize = 0;
                    while i < self.entries.len()
                        invariant
                            i <= self.entries@.len(),
                            sel@ == indices_with_paths(self.entries@.take(i as int), saved.deep_view()),
                        decreases self.entries@.len() - i,
                    {
                        assert(self.entries@.take(i + 1).drop_last() == self.entries@.take(i as int));
                        if contains_text(&saved, &self.entries[i].path) {
                            sel.push(i);
                        }
                        i = i + 1;
                    }
                    assert(self.entries@.take(i as int) == self.entries@);
                    self.selected_indices = sel;
                } else {
                    assert(self.selected_indices@ =~= Seq::<usize>::empty());
                }
            },
            Err(msg) => {
                self.error = Some(msg);
            },
        }
    }
}

/// A reload of the path already shown keeps selected exactly the listed
/// entries whose paths were selected before.
pub proof fn law_refresh_keeps_selection(entries: Seq<FileEntry>, saved: Seq<Seq<char>>, i: usize)
    requires
        entries.len() <= usize::MAX,
    ensures
        indices_with_paths(entries, saved).contains(i) <==> (i < entries.len() && saved.contains(entries[i as int].path@)),
    decreases entries.len(),
{
    lemma_indices_below(entries, saved);
    if entries.len() > 0 {
        let d = entries.drop_last();
        law_refresh_keeps_selection(d, saved, i);
        lemma_indices_below(d, saved);
        let rest = indices_with_paths(d, saved);
        let last = (entries.len() - 1) as usize;
        if i < d.len() {
            assert(entries[i as int] == d[i as int]);
        }
        if saved.contains(entries.last().path@) {
            let r = rest.push(last);
            if r.contains(i) {
                let k = choose|k: int| 0 <= k < r.len() && r[k] == i;
                if k < rest.len() {
                    assert(rest[k] == i);
                }
            }
            if rest.contains(i) {
                let k = choose|k: int| 0 <= k < rest.len() && rest[k] == i;
                assert(r[k] == i);
            }
            if i == last {
                assert(r[rest.len() as int] == i);
            }
        } else {
            if rest.contains(i) {
                let k = choose|k: int| 0 <= k < rest.len() && rest[k] == i;
                assert(rest[k] < d.len());
            }
        }
        if indices_with_paths(entries, saved).contains(i) {
            let k = choose|k: int| 0 <= k < indices_with_paths(entries, saved).len() && indices_with_paths(entries, saved)[k] == i;
            assert(indices_with_paths(entries, saved)[k] < entries.len());
        }
    }
}

proof fn lemma_indices_below(entries: Seq<FileEntry>, saved: Seq<Seq<char>>)
    requires
        entries.len() <= usize::MAX,
    ensures
        forall|k: int| 0 <= k < indices_with_paths(entries, saved).len() ==> (#[trigger] indices_with_paths(entries, saved)[k]) < entries.len(),
    decreases entries.len(),
{
    if entries.len() > 0 {
        let d = entries.drop_last();
        lemma_indices_below(d, saved);
        let rest = indices_with_paths(d, saved);
        if saved.contains(entries.last().path@) {
            let r = rest.push((entries.len() - 1) as usize);
            assert forall|k: int| 0 <= k < r.len() implies (#[trigger] r[k]) < entries.len() by {
                if k < rest.len() {
                    assert(r[k] == rest[k]);
                }
            }
        }
    }
}

/// The plain part of the application state: panels, drives, bookmarks, the
/// clipboard and the next tab number.
pub struct AppState {
    pub show_sidebar: bool,
    pub drives: Vec<DriveInfo>,
    pub bookmarks: Vec<Bookmark>,
    pub clipboard: Option<Clipboard>,
    pub focus_filter: bool,
    pub next_tab_id: usize,
}

/// The parent of a path, or nothing when it has none.
pub open spec fn parent_or_empty(path: Seq<char>) -> Seq<char> {
    match path_parent(path) {
        Some(p) => p,
        None => Seq::empty(),
    }
}

/// The request to load `path` into the tab `tab_id`.
pub open spec fn is_load_request(r: DirRequest, tab_id: usize, path: Seq<char>) -> bool {
    r matches DirRequest::LoadDirectory { tab_id: t, path: p } && t == tab_id && p@ == path
}

/// Everything but the clipboard is as it was.
pub open spec fn same_but_clipboard(a: AppState, b: AppState) -> bool {
    &&& b.show_sidebar == a.show_sidebar
    &&& b.drives == a.drives
    &&& b.bookmarks == a.bookmarks
    &&& b.focus_filter == a.focus_filter
    &&& b.next_tab_id == a.next_tab_id
}

impl AppState {
    /// The state at start-up: sidebar shown, nothing known yet, tab numbers
    /// starting at 1.
    pub fn new() -> (s: AppState)
        ensures
            s.show_sidebar,
            s.drives@.len() == 0,
            s.bookmarks@.len() == 0,
            s.clipboard is None,
            !s.focus_filter,
            s.next_tab_id == 1,
    {
        AppState {
            show_sidebar: true,
            drives: Vec::new(),
            bookmarks: Vec::new(),
            clipboard: None,
            focus_filter: false,
            next_tab_id: 1,
        }
    }

    /// The request that loads `path` into tab `tab_id`.
    pub fn request_load(&self, tab_id: usize, path: String) -> (r: DirRequest)
        ensures
            is_load_request(r, tab_id, path@),
    {
        DirRequest::LoadDirectory { tab_id, path }
    }

    /// Navigates the tab to `path`; the request that loads it.
    pub fn navigate_tab(&self, tab: &mut Tab, path: &str) -> (r: DirRequest)
        requires
            old(tab).history_index < usize::MAX,
        ensures
            navigate_post(*old(tab), path@, *final(tab)),
            is_load_request(r, old(tab).id, path@),
    {
        tab.navigate(String::from_str(path));
        self.request_load(tab.id, String::from_str(path))
    }

    /// Steps the tab back; the request that loads the path now shown.
    pub fn go_back_tab(&self, tab: &mut Tab) -> (r: Option<DirRequest>)
        requires
            old(tab).history_index <= old(tab).history@.len(),
        ensures
            exists|p: Option<Seq<char>>| step_post(*old(tab), false, *final(tab), p) && match p {
                Some(q) => (r matches Some(req) && is_load_request(req, old(tab).id, q)),
                None => r is None,
            },
    {
        let id = tab.id;
        let moved = tab.go_back();
        match moved {
            Some(path) => Some(self.request_load(id, path)),
            None => None,
        }
    }

    /// Steps the tab forward; the request that loads the path now shown.
    pub fn go_forward_tab(&self, tab: &mut Tab) -> (r: Option<DirRequest>)
        requires
            old(tab).history_index < usize::MAX,
        ensures
            exists|p: Option<Seq<char>>| step_post(*old(tab), true, *final(tab), p) && match p {
                Some(q) => (r matches Some(req) && is_load_request(req, old(tab).id, q)),
                None => r is None,
            },
    {
        let id = tab.id;
        let moved = tab.go_forward();
        match moved {
            Some(path) => Some(self.request_load(id, path)),
            None => None,
        }
    }

    /// Navigates the tab to the parent folder, when there is one distinct
    /// from the current path; the request that loads it.
    pub fn go_up_tab(&self, tab: &mut Tab) -> (r: Option<DirRequest>)
        requires
            old(tab).history_index < usize::MAX,
        ensures
            match path_parent(old(tab).path@) {
                Some(p) => if p != old(tab).path@ {
                    navigate_post(*old(tab), p, *final(tab)) && (r matches Some(req) && is_load_request(req, old(tab).id, p))
                } else {
                    r is None && *final(tab) == *old(tab)
                },
                None => r is None && *final(tab) == *old(tab),
            },
    {
        match parent(&tab.path) {
            Some(p) => {
                if !same_text(&p, &tab.path) {
                    Some(self.navigate_tab(tab, &p))
                } else {
                    None
                }
            },
            None => None,
        }
    }

    /// The request that reloads the tab's path.
    pub fn refresh_tab(&self, tab: &Tab) -> (r: DirRequest)
        ensures
            is_load_request(r, tab.id, tab.path@),
    {
        self.request_load(tab.id, tab.path.clone())
    }

    /// A new tab for `path`, with the next tab number.
    pub fn create_tab(&mut self, path: &str) -> (t: Tab)
        requires
            old(self).next_tab_id < usize::MAX,
        ensures
            t.id == old(self).next_tab_id,
            final(self).next_tab_id == old(self).next_tab_id + 1,
            t.path@ == path@,
            t.display_name@ == display_name(path@),
            history_of(t) == seq![path@],
            t.history_index == 0,
            t.loading,
            t.entries@.len() == 0,
            t.selected_indices@.len() == 0,
            final(self).clipboard == old(self).clipboard,
            final(self).bookmarks == old(self).bookmarks,
    {
        let id = self.next_tab_id;
        self.next_tab_id = self.next_tab_id + 1;
        let display = display_name_for_path(path);
        Tab::new(id, String::from_str(path), display)
    }

    /// Puts the selected paths on the clipboard to be copied, when there are any.
    pub fn do_copy(&mut self, tab: &Tab)
        ensures
            selected_paths_of(tab.selected_indices@, tab.entries@).len() > 0 ==> (final(self).clipboard matches Some(c)
                && c.paths.deep_view() == selected_paths_of(tab.selected_indices@, tab.entries@)
                && c.operation == ClipboardOp::Copy),
            selected_paths_of(tab.selected_indices@, tab.entries@).len() == 0 ==> final(self).clipboard == old(self).clipboard,
            same_but_clipboard(*old(self), *final(self)),
    {
        let paths = tab.selected_paths();
        if paths.len() > 0 {
            self.clipboard = Some(Clipboard { paths, operation: ClipboardOp::Copy });
        }
    }

    /// Puts the selected paths on the clipboard to be moved, when there are any.
    pub fn do_cut(&mut self, tab: &Tab)
        ensures
            selected_paths_of(tab.selected_indices@, tab.entries@).len() > 0 ==> (final(self).clipboard matches Some(c)
                && c.paths.deep_view() == selected_paths_of(tab.selected_indices@, tab.entries@)
                && c.operation == ClipboardOp::Cut),
            selected_paths_of(tab.selected_indices@, tab.entries@).len() == 0 ==> final(self).clipboard == old(self).clipboard,
            same_but_clipboard(*old(self), *final(self)),
    {
        let paths = tab.selected_paths();
        if paths.len() > 0 {
            self.clipboard = Some(Clipboard { paths, operation: ClipboardOp::Cut });
        }
    }

    /// The request that pastes the clipboard into the tab's folder: a copy or
    /// a move of its paths. A cut is pasted once: the clipboard empties.
    pub fn do_paste(&mut self, tab: &Tab) -> (r: Option<FileOpRequest>)
        ensures
            match old(self).clipboard {
                None => r is None && final(self).clipboard is None,
                Some(c) => match c.operation {
                    ClipboardOp::Copy => {
                        &&& r matches Some(FileOpRequest::Copy { sources, dest_dir })
                            && sources@ == c.paths@ && dest_dir@ == tab.path@
                        &&& final(self).clipboard == old(self).clipboard
                    },
                    ClipboardOp::Cut => {
                        &&& r matches Some(FileOpRequest::Move { sources, dest_dir })
                            && sources@ == c.paths@ && dest_dir@ == tab.path@
                        &&& final(self).clipboard is None
                    },
                },
            },
            same_but_clipboard(*old(self), *final(self)),
    {
        match &self.clipboard {
            None => None,
            Some(c) => {
                let sources = copy_strings(&c.paths);
                let dest_dir = tab.path.clone();
                match c.operation {
                    ClipboardOp::Copy => Some(FileOpRequest::Copy { sources, dest_dir }),
                    ClipboardOp::Cut => {
                        self.clipboard = None;
                        Some(FileOpRequest::Move { sources, dest_dir })
                    },
                }
            },
        }
    }

    /// The request that deletes the selected paths (to the trash or not),
    /// when there are any.
    pub fn do_delete(&self, tab: &Tab, to_trash: bool) -> (r: Option<FileOpRequest>)
        ensures
            selected_paths_of(tab.selected_indices@, tab.entries@).len() > 0 ==> (r matches Some(
                FileOpRequest::Delete { paths, to_trash: t },
            ) && paths.deep_view() == selected_paths_of(tab.selected_indices@, tab.entries@) && t == to_trash),
            selected_paths_of(tab.selected_indices@, tab.entries@).len() == 0 ==> r is None,
    {
        let paths = tab.selected_paths();
        if paths.len() > 0 {
            Some(FileOpRequest::Delete { paths, to_trash })
        } else {
            None
        }
    }

    /// The request that renames `path` to `new_name` in the same folder: the
    /// new path is the parent folder joined with the new name.
    pub fn do_rename(&self, path: String, new_name: String) -> (r: FileOpRequest)
        ensures
            r matches FileOpRequest::Rename { old_path, new_path } && old_path == path
                && new_path@ == path_join(parent_or_empty(path@), new_name@),
    {
        let new_path = sibling_path(path.as_str(), new_name.as_str());
        FileOpRequest::Rename { old_path: path, new_path }
    }
}

/// The path of an item named `new_name` in the folder of `path`: its parent
/// (or nothing, when it has none) joined with the new name.
pub fn sibling_path(path: &str, new_name: &str) -> (r: String)
    ensures
        r@ == path_join(parent_or_empty(path@), new_name@),
{
    let dir = match parent(path) {
        Some(p) => p,
        None => String::new(),
    };
    join(dir.as_str(), new_name)
}

/// Tabs created one after another get different, increasing numbers.
pub proof fn law_tab_numbers_increase(s0: AppState, t1: Tab, s1: AppState, t2: Tab, s2: AppState)
    requires
        t1.id == s0.next_tab_id,
        s1.next_tab_id == s0.next_tab_id + 1,
        t2.id == s1.next_tab_id,
        s2.next_tab_id == s1.next_tab_id + 1,
    ensures
        t1.id < t2.id,
        t2.id < s2.next_tab_id,
{
}

} // verus!
