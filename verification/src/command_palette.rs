//! The command palette: a searchable list of every command, matched
//! fuzzily against what the user types.
use vstd::prelude::*;
use crate::text::{chars_of, lowercase, opt_text, to_lowercase};

verus! {

/// The palette's state.
pub struct CommandPaletteState {
    pub open: bool,
    pub query: String,
    pub selected_index: usize,
    pub focus_requested: bool,
}

impl Default for CommandPaletteState {
    fn default() -> (r: CommandPaletteState)
        ensures
            !r.open,
            r.query@.len() == 0,
            r.selected_index == 0,
            !r.focus_requested,
    {
        CommandPaletteState { open: false, query: String::new(), selected_index: 0, focus_requested: false }
    }
}

impl CommandPaletteState {
    /// Opens or closes the palette; opening starts from an empty query with
    /// the first command selected and asks for the keyboard focus.
    pub fn toggle(&mut self)
        ensures
            final(self).open == !old(self).open,
            final(self).open ==> final(self).query@.len() == 0 && final(self).selected_index == 0
                && final(self).focus_requested,
            !final(self).open ==> final(self).query == old(self).query && final(self).selected_index
                == old(self).selected_index && final(self).focus_requested == old(self).focus_requested,
    {
        self.open = !self.open;
        if self.open {
            self.query = String::new();
            self.selected_index = 0;
            self.focus_requested = true;
        }
    }

    /// Closes the palette and clears the query and selection.
    pub fn close(&mut self)
        ensures
            !final(self).open,
            final(self).query@.len() == 0,
            final(self).selected_index == 0,
            final(self).focus_requested == old(self).focus_requested,
    {
        self.open = false;
        self.query = String::new();
        self.selected_index = 0;
    }

    /// Hands out the pending focus request, clearing it.
    pub fn take_focus_request(&mut self) -> (r: bool)
        ensures
            r == old(self).focus_requested,
            !final(self).focus_requested,
            final(self).open == old(self).open,
            final(self).query == old(self).query,
            final(self).selected_index == old(self).selected_index,
    {
        let r = self.focus_requested;
        self.focus_requested = false;
        r
    }

    /// Keeps the selection on one of `count` matching commands: past the
    /// end it moves to the last one; with no match it stays.
    pub fn clamp_selection(&mut self, count: usize)
        ensures
            final(self).selected_index == (if old(self).selected_index >= count && count > 0 {
                (count - 1) as usize
            } else {
                old(self).selected_index
            }),
            final(self).open == old(self).open,
            final(self).query == old(self).query,
    {
        if self.selected_index >= count && count > 0 {
            self.selected_index = count - 1;
        }
    }

    /// Moves the selection down one of `count` matches, stopping at the last.
    pub fn select_next(&mut self, count: usize)
        ensures
            final(self).selected_index == (if count > 0 {
                if old(self).selected_index + 1 < count { (old(self).selected_index + 1) as usize } else { (count - 1) as usize }
            } else {
                old(self).selected_index
            }),
            final(self).open == old(self).open,
            final(self).query == old(self).query,
    {
        if count > 0 {
            if self.selected_index < count - 1 {
                self.selected_index = self.selected_index + 1;
            } else {
                self.selected_index = count - 1;
            }
        }
    }

    /// Moves the selection up one, stopping at the first.
    pub fn select_previous(&mut self)
        ensures
            final(self).selected_index == (if old(self).selected_index > 0 {
                (old(self).selected_index - 1) as usize
            } else {
                0
            }),
            final(self).open == old(self).open,
            final(self).query == old(self).query,
    {
        if self.selected_index > 0 {
            self.selected_index = self.selected_index - 1;
        }
    }
}

/// A command shown in the palette.
pub struct PaletteEntry {
    pub label: String,
    pub shortcut: Option<String>,
    pub action: PaletteAction,
}

/// What a palette command does.
#[derive(Debug, PartialEq, Eq)]
pub enum PaletteAction {
    ToggleSidebar,
    TogglePreview,
    ToggleHiddenFiles,
    NewTab,
    CloseTab,
    GoBack,
    GoForward,
    GoUp,
    GoHome,
    Refresh,
    FocusFilter,
    EditAddressBar,
    SplitRight,
    CopySelection,
    CutSelection,
    PasteClipboard,
    Rename,
    MoveToTrash,
    DeletePermanently,
    SelectAll,
    BatchRename,
    NavigateTo(String),
}

impl PaletteAction {
    /// A copy of the action.
    pub fn duplicate(&self) -> (r: PaletteAction)
        ensures
            r == *self,
    {
        match self {
            PaletteAction::ToggleSidebar => PaletteAction::ToggleSidebar,
            PaletteAction::TogglePreview => PaletteAction::TogglePreview,
            PaletteAction::ToggleHiddenFiles => PaletteAction::ToggleHiddenFiles,
            PaletteAction::NewTab => PaletteAction::NewTab,
            PaletteAction::CloseTab => PaletteAction::CloseTab,
            PaletteAction::GoBack => PaletteAction::GoBack,
            PaletteAction::GoForward => PaletteAction::GoForward,
            PaletteAction::GoUp => PaletteAction::GoUp,
            PaletteAction::GoHome => PaletteAction::GoHome,
            PaletteAction::Refresh => PaletteAction::Refresh,
            PaletteAction::FocusFilter => PaletteAction::FocusFilter,
            PaletteAction::EditAddressBar => PaletteAction::EditAddressBar,
            PaletteAction::SplitRight => PaletteAction::SplitRight,
            PaletteAction::CopySelection => PaletteAction::CopySelection,
            PaletteAction::CutSelection => PaletteAction::CutSelection,
            PaletteAction::PasteClipboard => PaletteAction::PasteClipboard,
            PaletteAction::Rename => PaletteAction::Rename,
            PaletteAction::MoveToTrash => PaletteAction::MoveToTrash,
            PaletteAction::DeletePermanently => PaletteAction::DeletePermanently,
            PaletteAction::SelectAll => PaletteAction::SelectAll,
            PaletteAction::BatchRename => PaletteAction::BatchRename,
            PaletteAction::NavigateTo(p) => PaletteAction::NavigateTo(p.clone()),
        }
    }
}

/// The labels of the commands, in palette order.
pub const COMMAND_LABELS: [&'static str; 21] = [
    "Toggle Sidebar",
    "Toggle Preview Panel",
    "Toggle Hidden Files",
    "New Tab",
    "Close Tab",
    "Go Back",
    "Go Forward",
    "Go Up",
    "Go Home",
    "Refresh",
    "Filter Files",
    "Edit Address Bar",
    "Split Right",
    "Copy",
    "Cut",
    "Paste",
    "Rename",
    "Move to Trash",
    "Delete Permanently",
    "Select All",
    "Batch Rename...",
];

/// The keyboard shortcuts of the commands, where they have one (empty where not).
pub const COMMAND_SHORTCUTS: [&'static str; 21] = [
    "Ctrl+B",
    "Ctrl+P",
    "Ctrl+H",
    "Ctrl+T",
    "Ctrl+W",
    "Alt+←",
    "Alt+→",
    "Alt+↑",
    "",
    "F5",
    "Ctrl+F",
    "Ctrl+L",
    "",
    "Ctrl+C",
    "Ctrl+X",
    "Ctrl+V",
    "F2",
    "Del",
    "Shift+Del",
    "Ctrl+A",
    "Ctrl+Shift+R",
];

/// The action of the `i`-th command.
pub open spec fn command_action(i: int) -> PaletteAction {
    if i == 0 { PaletteAction::ToggleSidebar }
    else if i == 1 { PaletteAction::TogglePreview }
    else if i == 2 { PaletteAction::ToggleHiddenFiles }
    else if i == 3 { PaletteAction::NewTab }
    else if i == 4 { PaletteAction::CloseTab }
    else if i == 5 { PaletteAction::GoBack }
    else if i == 6 { PaletteAction::GoForward }
    else if i == 7 { PaletteAction::GoUp }
    else if i == 8 { PaletteAction::GoHome }
    else if i == 9 { PaletteAction::Refresh }
    else if i == 10 { PaletteAction::FocusFilter }
    else if i == 11 { PaletteAction::EditAddressBar }
    else if i == 12 { PaletteAction::SplitRight }
    else if i == 13 { PaletteAction::CopySelection }
    else if i == 14 { PaletteAction::CutSelection }
    else if i == 15 { PaletteAction::PasteClipboard }
    else if i == 16 { PaletteAction::Rename }
    else if i == 17 { PaletteAction::MoveToTrash }
    else if i == 18 { PaletteAction::DeletePermanently }
    else if i == 19 { PaletteAction::SelectAll }
    else { PaletteAction::BatchRename }
}

fn action_at(i: usize) -> (r: PaletteAction)
    requires
        i < 21,
    ensures
        r == command_action(i as int),
{
    if i == 0 { PaletteAction::ToggleSidebar }
    else if i == 1 { PaletteAction::TogglePreview }
    else if i == 2 { PaletteAction::ToggleHiddenFiles }
    else if i == 3 { PaletteAction::NewTab }
    else if i == 4 { PaletteAction::CloseTab }
    else if i == 5 { PaletteAction::GoBack }
    else if i == 6 { PaletteAction::GoForward }
    else if i == 7 { PaletteAction::GoUp }
    else if i == 8 { PaletteAction::GoHome }
    else if i == 9 { PaletteAction::Refresh }
    else if i == 10 { PaletteAction::FocusFilter }
    else if i == 11 { PaletteAction::EditAddressBar }
    else if i == 12 { PaletteAction::SplitRight }
    else if i == 13 { PaletteAction::CopySelection }
    else if i == 14 { PaletteAction::CutSelection }
    else if i == 15 { PaletteAction::PasteClipboard }
    else if i == 16 { PaletteAction::Rename }
    else if i == 17 { PaletteAction::MoveToTrash }
    else if i == 18 { PaletteAction::DeletePermanently }
    else if i == 19 { PaletteAction::SelectAll }
    else { PaletteAction::BatchRename }
}

/// The shortcut text as characters; an empty one means there is none.
pub open spec fn shortcut_view(s: &str) -> Option<Seq<char>> {
    if s@.len() == 0 { None } else { Some(s@) }
}


/// `e` is the `i`-th command of the palette.
pub open spec fn is_command(e: PaletteEntry, i: int) -> bool {
    &&& e.label@ == COMMAND_LABELS@[i]@
    &&& opt_text(e.shortcut) == shortcut_view(COMMAND_SHORTCUTS@[i])
    &&& e.action == command_action(i)
}

fn command_at(i: usize) -> (e: PaletteEntry)
    requires
        i < 21,
    ensures
        is_command(e, i as int),
{
    let text = COMMAND_SHORTCUTS[i];
    let shortcut = if text.is_empty() { None } else { Some(String::from_str(text)) };
    PaletteEntry { label: String::from_str(COMMAND_LABELS[i]), shortcut, action: action_at(i) }
}

/// Every command of the palette, in order.
pub fn all_commands() -> (r: Vec<PaletteEntry>)
    ensures
        r@.len() == 21,
        forall|i: int| 0 <= i < 21 ==> is_command(#[trigger] r@[i], i),
{
    let mut r: Vec<PaletteEntry> = Vec::new();
    let mut i: usize = 0;
    while i < 21
        invariant
            i <= 21,
            r@.len() == i,
            forall|j: int| 0 <= j < i ==> is_command(#[trigger] r@[j], j),
        decreases 21 - i,
    {
        r.push(command_at(i));
        i = i + 1;
    }
    r
}

/// Whether `q` can be found in `l` in order, not necessarily contiguously,
/// matching each character of `q` at its earliest place.
pub open spec fn is_subsequence(q: Seq<char>, l: Seq<char>) -> bool
    decreases l.len(),
{
    if q.len() == 0 {
        true
    } else if l.len() == 0 {
        false
    } else if q[0] == l[0] {
        is_subsequence(q.drop_first(), l.drop_first())
    } else {
        is_subsequence(q, l.drop_first())
    }
}

/// Whether a query matches a label: an empty query matches everything;
/// otherwise the query's characters must occur in the label in order,
/// ignoring case.
pub open spec fn fuzzy_matches(query: Seq<char>, label: Seq<char>) -> bool {
    query.len() == 0 || is_subsequence(lowercase(query), lowercase(label))
}

proof fn lemma_skip_to_match(q: Seq<char>, l: Seq<char>, j: int, k: int)
    requires
        q.len() > 0,
        0 <= j <= k < l.len(),
        l[k] == q[0],
        forall|m: int| j <= m < k ==> l[m] != q[0],
    ensures
        is_subsequence(q, l.skip(j)) == is_subsequence(q.drop_first(), l.skip(k + 1)),
    decreases k - j,
{
    assert(l.skip(j)[0] == l[j]);
    assert(l.skip(j).drop_first() == l.skip(j + 1));
    if j < k {
        lemma_skip_to_match(q, l, j + 1, k);
    }
}

proof fn lemma_no_match(q: Seq<char>, l: Seq<char>, j: int)
    requires
        q.len() > 0,
        0 <= j <= l.len(),
        forall|m: int| j <= m < l.len() ==> l[m] != q[0],
    ensures
        !is_subsequence(q, l.skip(j)),
    decreases l.len() - j,
{
    if j < l.len() {
        assert(l.skip(j)[0] == l[j]);
        assert(l.skip(j).drop_first() == l.skip(j + 1));
        lemma_no_match(q, l, j + 1);
    }
}

/// Whether `q` is a subsequence of `l` (see [`is_subsequence`]).
pub fn subsequence_of(q: &Vec<char>, l: &Vec<char>) -> (r: bool)
    ensures
        r == is_subsequence(q@, l@),
{
    let mut i: usize = 0;
    let mut j: usize = 0;
    assert(q@.skip(0) == q@);
    assert(l@.skip(0) == l@);
    while i < q.len()
        invariant
            i <= q@.len(),
            j <= l@.len(),
            is_subsequence(q@, l@) == is_subsequence(q@.skip(i as int), l@.skip(j as int)),
        decreases q@.len() - i,
    {
        let c = q[i];
        let mut k = j;
        while k < l.len() && l[k] != c
            invariant
                j <= k <= l@.len(),
                forall|m: int| j <= m < k ==> l@[m] != c,
            decreases l@.len() - k,
        {
            k = k + 1;
        }
        assert(q@.skip(i as int)[0] == c);
        if k == l.len() {
            proof {
                lemma_no_match(q@.skip(i as int), l@, j as int);
            }
            return false;
        }
        proof {
            lemma_skip_to_match(q@.skip(i as int), l@, j as int, k as int);
            assert(q@.skip(i as int).drop_first() == q@.skip(i + 1));
        }
        i = i + 1;
        j = k + 1;
    }
    assert(q@.skip(i as int).len() == 0);
    true
}

/// Whether the query matches the label (see [`fuzzy_matches`]).
pub fn fuzzy_match(query: &str, label: &str) -> (r: bool)
    ensures
        r == fuzzy_matches(query@, label@),
{
    let q0 = chars_of(query);
    if q0.len() == 0 {
        return true;
    }
    let q = chars_of(&to_lowercase(query));
    let l = chars_of(&to_lowercase(label));
    subsequence_of(&q, &l)
}

/// The positions, below `n`, of the commands whose label matches the query.
pub open spec fn matching_commands(query: Seq<char>, n: int) -> Seq<int>
    decreases n,
{
    if n <= 0 {
        Seq::empty()
    } else {
        let rest = matching_commands(query, n - 1);
        if fuzzy_matches(query, COMMAND_LABELS@[n - 1]@) { rest.push(n - 1) } else { rest }
    }
}

/// The commands whose label matches the query, in palette order.
pub fn filtered_commands(query: &str) -> (r: Vec<PaletteEntry>)
    ensures
        r@.len() == matching_commands(query@, 21).len(),
        forall|k: int| 0 <= k < r@.len() ==> is_command(#[trigger] r@[k], matching_commands(query@, 21)[k]),
{
    let mut r: Vec<PaletteEntry> = Vec::new();
    let mut i: usize = 0;
    while i < 21
        invariant
            i <= 21,
            r@.len() == matching_commands(query@, i as int).len(),
            forall|k: int| 0 <= k < r@.len() ==> is_command(#[trigger] r@[k], matching_commands(query@, i as int)[k]),
        decreases 21 - i,
    {
        if fuzzy_match(query, COMMAND_LABELS[i]) {
            r.push(command_at(i));
        }
        i = i + 1;
    }
    r
}

/// `idx` places each character of `q` at a position of `l`, in increasing order.
pub open spec fn embeds(q: Seq<char>, l: Seq<char>, idx: Seq<int>) -> bool {
    &&& idx.len() == q.len()
    &&& forall|k: int| 0 <= k < q.len() ==> 0 <= #[trigger] idx[k] < l.len() && l[idx[k]] == q[k]
    &&& forall|a: int, b: int| 0 <= a < b < q.len() ==> #[trigger] idx[a] < #[trigger] idx[b]
}

/// Fuzzy matching finds exactly the queries whose characters all occur in
/// the label in order.
pub proof fn law_subsequence_is_ordered_embedding(q: Seq<char>, l: Seq<char>)
    ensures
        is_subsequence(q, l) <==> exists|idx: Seq<int>| embeds(q, l, idx),
    decreases l.len(),
{
    if q.len() == 0 {
        assert(embeds(q, l, Seq::<int>::empty()));
    } else if l.len() == 0 {
        if exists|idx: Seq<int>| embeds(q, l, idx) {
            let idx = choose|idx: Seq<int>| embeds(q, l, idx);
            assert(0 <= idx[0] < l.len());
        }
    } else {
        let lt = l.drop_first();
        if q[0] == l[0] {
            law_subsequence_is_ordered_embedding(q.drop_first(), lt);
            if is_subsequence(q, l) {
                let idx = choose|idx: Seq<int>| embeds(q.drop_first(), lt, idx);
                let full = seq![0int] + idx.map_values(|x: int| x + 1);
                assert(embeds(q, l, full)) by {
                    assert forall|k: int| 0 <= k < q.len() implies 0 <= #[trigger] full[k] < l.len() && l[full[k]] == q[k] by {
                        if k > 0 {
                            assert(full[k] == idx[k - 1] + 1);
                            assert(q[k] == q.drop_first()[k - 1]);
                        }
                    }
                    assert forall|a: int, b: int| 0 <= a < b < q.len() implies #[trigger] full[a] < #[trigger] full[b] by {
                        if a > 0 {
                            assert(full[a] == idx[a - 1] + 1);
                        }
                        assert(full[b] == idx[b - 1] + 1);
                        if b - 1 > 0 {
                            assert(idx[0] < idx[b - 1]);
                        }
                    }
                }
            }
            if exists|idx: Seq<int>| embeds(q, l, idx) {
                let idx = choose|idx: Seq<int>| embeds(q, l, idx);
                let rest = idx.drop_first().map_values(|x: int| x - 1);
                assert(embeds(q.drop_first(), lt, rest)) by {
                    assert forall|k: int| 0 <= k < q.drop_first().len() implies 0 <= #[trigger] rest[k] < lt.len() && lt[rest[k]] == q.drop_first()[k] by {
                        assert(idx[0] < idx[k + 1]);
                        assert(rest[k] == idx[k + 1] - 1);
                    }
                    assert forall|a: int, b: int| 0 <= a < b < q.drop_first().len() implies #[trigger] rest[a] < #[trigger] rest[b] by {
                        assert(idx[a + 1] < idx[b + 1]);
                    }
                }
            }
        } else {
            law_subsequence_is_ordered_embedding(q, lt);
            if is_subsequence(q, l) {
                let idx = choose|idx: Seq<int>| embeds(q, lt, idx);
                let full = idx.map_values(|x: int| x + 1);
                assert(embeds(q, l, full)) by {
                    assert forall|k: int| 0 <= k < q.len() implies 0 <= #[trigger] full[k] < l.len() && l[full[k]] == q[k] by {
                        assert(full[k] == idx[k] + 1);
                    }
                    assert forall|a: int, b: int| 0 <= a < b < q.len() implies #[trigger] full[a] < #[trigger] full[b] by {
                        assert(idx[a] < idx[b]);
                    }
                }
            }
            if exists|idx: Seq<int>| embeds(q, l, idx) {
                let idx = choose|idx: Seq<int>| embeds(q, l, idx);
                assert(idx[0] != 0);
                let shifted = idx.map_values(|x: int| x - 1);
                assert(embeds(q, lt, shifted)) by {
                    assert forall|k: int| 0 <= k < q.len() implies 0 <= #[trigger] shifted[k] < lt.len() && lt[shifted[k]] == q[k] by {
                        if k > 0 {
                            assert(idx[0] < idx[k]);
                        }
                        assert(shifted[k] == idx[k] - 1);
                    }
                    assert forall|a: int, b: int| 0 <= a < b < q.len() implies #[trigger] shifted[a] < #[trigger] shifted[b] by {
                        assert(idx[a] < idx[b]);
                    }
                }
            }
        }
    }
}

/// An empty query matches every label, and every label matches itself.
pub proof fn law_fuzzy_match_trivial_cases(label: Seq<char>)
    ensures
        fuzzy_matches(Seq::empty(), label),
        fuzzy_matches(label, label),
{
    lemma_subsequence_reflexive(lowercase(label));
}

proof fn lemma_subsequence_reflexive(s: Seq<char>)
    ensures
        is_subsequence(s, s),
    decreases s.len(),
{
    if s.len() > 0 {
        lemma_subsequence_reflexive(s.drop_first());
    }
}

} // verus!
