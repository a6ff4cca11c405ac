//! Deep search: the state of the search overlay, how it reacts to the query
//! being edited, to keys, and to what the background scan reports.
use vstd::prelude::*;
use std::sync::mpsc::{Receiver, Sender};
use crate::channel::{new_channel, try_receive};
use crate::paths::{parent, path_parent};
use crate::numbers::{decimal, decimal_chars};
use crate::text::{
    chars_of, contains_chars, contains_seq, extend_chars, lines_of, lowercase, string_of, text_lines, to_lowercase, trim_view,
    trimmed, utf8_char_len, utf8_len, utf8_width,
};

verus! {

/// The search overlay's state.
pub struct SearchState {
    pub open: bool,
    pub query: String,
    pub root_path: String,
    pub results: Vec<SearchResult>,
    pub selected_index: usize,
    pub searching: bool,
    pub search_mode: SearchMode,
    pub result_rx: Option<Receiver<SearchMessage>>,
    pub last_query: String,
    pub total_scanned: u64,
}

/// Whether names or contents are searched.
#[derive(Debug, Clone, Copy, PartialEq, Eq, Structural)]
pub enum SearchMode {
    Filename,
    Content,
}

/// One match.
pub struct SearchResult {
    pub path: String,
    pub name: String,
    pub is_dir: bool,
    pub line_match: Option<String>,
}

/// What the background scan reports.
pub enum SearchMessage {
    Result(SearchResult),
    Progress(u64),
    Done,
}

/// What choosing a result asks the view to do.
pub enum SearchAction {
    NavigateTo(String),
    OpenFile(String),
}

/// A scan for the background worker to run: report to `sender` the entries
/// below `root` that match `query` (already trimmed) in `mode`.
pub struct SearchJob {
    pub query: String,
    pub root: String,
    pub mode: SearchMode,
    pub sender: Sender<SearchMessage>,
}

/// At most this many results are kept.
pub const MAX_RESULTS: usize = 500;

/// At most this many further messages are taken in one poll.
pub const POLL_BATCH: usize = 100;

/// Fields that a reply from the scan leaves alone.
pub open spec fn same_view_state(a: SearchState, b: SearchState) -> bool {
    &&& b.open == a.open
    &&& b.query == a.query
    &&& b.root_path == a.root_path
    &&& b.selected_index == a.selected_index
    &&& b.search_mode == a.search_mode
    &&& b.last_query == a.last_query
}

/// The other of the two search modes.
pub open spec fn other_mode(m: SearchMode) -> SearchMode {
    match m {
        SearchMode::Filename => SearchMode::Content,
        SearchMode::Content => SearchMode::Filename,
    }
}

/// The results, the number of entries scanned and whether a search runs,
/// after taking `msgs` in order: a result is kept while fewer than
/// `MAX_RESULTS` are held, progress sets the count, the end stops the search.
pub open spec fn received(
    s: (Seq<SearchResult>, u64, bool),
    msgs: Seq<SearchMessage>,
) -> (Seq<SearchResult>, u64, bool)
    decreases msgs.len(),
{
    if msgs.len() == 0 {
        s
    } else {
        let p = received(s, msgs.drop_last());
        match msgs.last() {
            SearchMessage::Result(r) => (if p.0.len() < MAX_RESULTS { p.0.push(r) } else { p.0 }, p.1, p.2),
            SearchMessage::Progress(n) => (p.0, n, p.2),
            SearchMessage::Done => (p.0, p.1, false),
        }
    }
}

/// `new` is `old` after a poll that took the messages `msgs` from the scan:
/// at most `POLL_BATCH + 1` of them, none when no scan is listened to, and
/// the end only as the last; once the end is taken the scan is no longer
/// listened to.
pub open spec fn polled(old: SearchState, new: SearchState, msgs: Seq<SearchMessage>) -> bool {
    &&& same_view_state(old, new)
    &&& msgs.len() <= POLL_BATCH + 1
    &&& (old.result_rx is None ==> msgs.len() == 0)
    &&& forall|i: int| 0 <= i < msgs.len() - 1 ==> !(#[trigger] msgs[i] is Done)
    &&& (new.results@, new.total_scanned, new.searching)
        == received((old.results@, old.total_scanned, old.searching), msgs)
    &&& if msgs.len() > 0 && msgs.last() is Done {
        new.result_rx is None
    } else {
        new.result_rx == old.result_rx
    }
}

/// A query long enough to search for: at least two bytes once trimmed.
pub open spec fn searchable(query: Seq<char>) -> bool {
    crate::text::utf8_len(trim_view(query)) >= 2
}

impl Default for SearchState {
    /// A closed overlay searching names, with nothing entered or found.
    fn default() -> (r: SearchState)
        ensures
            !r.open,
            r.query@.len() == 0,
            r.root_path@.len() == 0,
            r.results@.len() == 0,
            r.selected_index == 0,
            !r.searching,
            r.search_mode == SearchMode::Filename,
            r.result_rx is None,
            r.last_query@.len() == 0,
            r.total_scanned == 0,
    {
        SearchState {
            open: false,
            query: String::new(),
            root_path: String::new(),
            results: Vec::new(),
            selected_index: 0,
            searching: false,
            search_mode: SearchMode::Filename,
            result_rx: None,
            last_query: String::new(),
            total_scanned: 0,
        }
    }
}

impl SearchState {
    /// Opens the overlay on `root`, with an empty query and no results.
    pub fn open_at(&mut self, root: &str)
        ensures
            final(self).open,
            final(self).root_path@ == root@,
            final(self).query@.len() == 0,
            final(self).results@.len() == 0,
            final(self).selected_index == 0,
            !final(self).searching,
            final(self).result_rx is None,
            final(self).last_query@.len() == 0,
            final(self).total_scanned == 0,
            final(self).search_mode == old(self).search_mode,
    {
        self.open = true;
        self.root_path = String::from_str(root);
        self.query = String::new();
        self.results = Vec::new();
        self.selected_index = 0;
        self.searching = false;
        self.result_rx = None;
        self.last_query = String::new();
        self.total_scanned = 0;
    }

    /// Closes the overlay and stops listening to any scan.
    pub fn close(&mut self)
        ensures
            !final(self).open,
            final(self).result_rx is None,
            !final(self).searching,
            final(self).query == old(self).query,
            final(self).root_path == old(self).root_path,
            final(self).results == old(self).results,
            final(self).selected_index == old(self).selected_index,
            final(self).search_mode == old(self).search_mode,
    {
        self.open = false;
        self.result_rx = None;
        self.searching = false;
    }

    /// Takes one message from the scan: a result is kept while fewer than
    /// `MAX_RESULTS` are held, progress updates the count of scanned entries,
    /// and the end stops the search. Returns whether more may follow.
    pub fn apply_message(&mut self, msg: SearchMessage) -> (more: bool)
        ensures
            same_view_state(*old(self), *final(self)),
            match msg {
                SearchMessage::Result(r) => {
                    &&& more
                    &&& final(self).results@ == (if old(self).results@.len() < MAX_RESULTS {
                        old(self).results@.push(r)
                    } else {
                        old(self).results@
                    })
                    &&& final(self).total_scanned == old(self).total_scanned
                    &&& final(self).searching == old(self).searching
                    &&& final(self).result_rx == old(self).result_rx
                },
                SearchMessage::Progress(n) => {
                    &&& more
                    &&& final(self).results == old(self).results
                    &&& final(self).total_scanned == n
                    &&& final(self).searching == old(self).searching
                    &&& final(self).result_rx == old(self).result_rx
                },
                SearchMessage::Done => {
                    &&& !more
                    &&& final(self).results == old(self).results
                    &&& final(self).total_scanned == old(self).total_scanned
                    &&& !final(self).searching
                    &&& final(self).result_rx is None
                },
            },
    {
        match msg {
            SearchMessage::Result(r) => {
                if self.results.len() < MAX_RESULTS {
                    self.results.push(r);
                }
                true
            },
            SearchMessage::Progress(n) => {
                self.total_scanned = n;
                true
            },
            SearchMessage::Done => {
                self.searching = false;
                self.result_rx = None;
                false
            },
        }
    }

    /// Takes the messages waiting from the scan, in order, until none is
    /// waiting, the end has been taken, or `POLL_BATCH + 1` have been taken.
    /// Which messages were waiting depends on the scan's progress. Results
    /// already held stay in place, no more than `MAX_RESULTS` are held
    /// (unless more were held before), and no more than `POLL_BATCH + 1` are
    /// added.
    pub fn poll_results(&mut self)
        ensures
            exists|msgs: Seq<SearchMessage>| polled(*old(self), *final(self), msgs),
            same_view_state(*old(self), *final(self)),
            old(self).result_rx is None ==> final(self).results == old(self).results
                && final(self).searching == old(self).searching,
            final(self).results@.len() >= old(self).results@.len(),
            final(self).results@.take(old(self).results@.len() as int) == old(self).results@,
            final(self).results@.len() <= (if old(self).results@.len() > MAX_RESULTS {
                old(self).results@.len() as int
            } else {
                MAX_RESULTS as int
            }),
            final(self).results@.len() <= old(self).results@.len() + POLL_BATCH + 1,
            final(self).searching ==> old(self).searching,
    {
        if self.result_rx.is_none() {
            assert(polled(*old(self), *self, Seq::empty()));
            return;
        }
        let ghost start = self.results@;
        let ghost mut msgs: Seq<SearchMessage> = Seq::empty();
        let mut count: usize = 0;
        loop
            invariant_except_break
                self.results@.len() <= start.len() + count,
                msgs.len() == count,
            invariant
                same_view_state(*old(self), *self),
                old(self).result_rx is Some,
                count <= POLL_BATCH,
                start == old(self).results@,
                self.results@.len() >= start.len(),
                self.results@.take(start.len() as int) == start,
                self.results@.len() <= (if start.len() > MAX_RESULTS { start.len() as int } else { MAX_RESULTS as int }),
                self.results@.len() <= start.len() + count + 1,
                self.searching ==> old(self).searching,
                msgs.len() <= count + 1,
                polled(*old(self), *self, msgs),
                msgs.len() == 0 || !(msgs.last() is Done),
            decreases POLL_BATCH - count,
        {
            let next = match &self.result_rx {
                Some(rx) => try_receive(rx),
                None => None,
            };
            match next {
                None => break,
                Some(msg) => {
                    let ghost before = self.results@;
                    let ghost prev = msgs;
                    proof {
                        msgs = msgs.push(msg);
                        assert(msgs.drop_last() == prev);
                    }
                    let more = self.apply_message(msg);
                    assert(self.results@.take(start.len() as int) == start) by {
                        if self.results@.len() > before.len() {
                            assert(self.results@.take(start.len() as int) == before.take(start.len() as int));
                        }
                    }
                    assert(forall|i: int| 0 <= i < msgs.len() - 1 ==> msgs[i] == prev[i]);
                    assert(polled(*old(self), *self, msgs));
                    if !more {
                        return;
                    }
                },
            }
            if count >= POLL_BATCH {
                break;
            }
            count = count + 1;
        }
    }

    /// Starts a scan for the trimmed query when it is long enough (at least
    /// two bytes), clearing the results; otherwise clears them and stops.
    /// The returned job is for the background worker.
    pub fn start_search(&mut self) -> (job: Option<SearchJob>)
        ensures
            final(self).open == old(self).open,
            final(self).query == old(self).query,
            final(self).root_path == old(self).root_path,
            final(self).search_mode == old(self).search_mode,
            final(self).results@.len() == 0,
            match job {
                Some(j) => {
                    &&& searchable(old(self).query@)
                    &&& j.query@ == trim_view(old(self).query@)
                    &&& j.root@ == old(self).root_path@
                    &&& j.mode == old(self).search_mode
                    &&& final(self).searching
                    &&& final(self).selected_index == 0
                    &&& final(self).total_scanned == 0
                    &&& final(self).last_query@ == trim_view(old(self).query@)
                    &&& final(self).result_rx is Some
                },
                None => {
                    &&& !searchable(old(self).query@)
                    &&& !final(self).searching
                    &&& final(self).selected_index == old(self).selected_index
                    &&& final(self).last_query == old(self).last_query
                    &&& final(self).result_rx == old(self).result_rx
                },
            },
    {
        let query = trimmed(&self.query);
        if crate::text::utf8_length(&query) < 2 {
            self.results = Vec::new();
            self.searching = false;
            return None;
        }
        self.results = Vec::new();
        self.selected_index = 0;
        self.searching = true;
        self.total_scanned = 0;
        self.last_query = query.clone();
        let (tx, rx) = new_channel();
        self.result_rx = Some(rx);
        Some(SearchJob { query, root: self.root_path.clone(), mode: self.search_mode, sender: tx })
    }

    /// Reacts to an edit of the query: a changed query long enough to search
    /// starts a scan; a query too short drops the results.
    pub fn on_query_edited(&mut self) -> (job: Option<SearchJob>)
        ensures
            final(self).open == old(self).open,
            final(self).query == old(self).query,
            (trim_view(old(self).query@) != old(self).last_query@ && searchable(old(self).query@))
                ==> job is Some && final(self).searching,
            !searchable(old(self).query@) ==> job is None,
            !searchable(old(self).query@) && old(self).results@.len() > 0 ==> final(self).results@.len() == 0
                && !final(self).searching,
            trim_view(old(self).query@) == old(self).last_query@ && searchable(old(self).query@)
                ==> job is None && final(self).results == old(self).results && final(self).searching == old(self).searching,
            job matches Some(j) ==> j.query@ == trim_view(old(self).query@) && j.root@ == old(self).root_path@
                && j.mode == old(self).search_mode && final(self).results@.len() == 0
                && final(self).last_query@ == trim_view(old(self).query@),
    {
        let q = trimmed(&self.query);
        let long_enough = crate::text::utf8_length(&q) >= 2;
        if !crate::text::same_text(&q, &self.last_query) && long_enough {
            self.start_search()
        } else {
            if !long_enough && self.results.len() > 0 {
                self.results = Vec::new();
                self.searching = false;
            }
            None
        }
    }

    /// Switches between searching names and searching contents; when a query
    /// has been entered, the search starts over in the new mode.
    pub fn toggle_mode(&mut self) -> (job: Option<SearchJob>)
        ensures
            final(self).search_mode == other_mode(old(self).search_mode),
            final(self).open == old(self).open,
            final(self).query == old(self).query,
            final(self).root_path == old(self).root_path,
            old(self).query@.len() == 0 ==> {
                &&& job is None
                &&& final(self).results == old(self).results
                &&& final(self).searching == old(self).searching
                &&& final(self).selected_index == old(self).selected_index
                &&& final(self).last_query == old(self).last_query
                &&& final(self).result_rx == old(self).result_rx
            },
            old(self).query@.len() > 0 ==> {
                &&& final(self).results@.len() == 0
                &&& (job is Some <==> searchable(old(self).query@))
                &&& (job is None ==> !final(self).searching)
            },
            job matches Some(j) ==> {
                &&& j.query@ == trim_view(old(self).query@)
                &&& j.root@ == old(self).root_path@
                &&& j.mode == other_mode(old(self).search_mode)
                &&& final(self).searching
                &&& final(self).selected_index == 0
                &&& final(self).total_scanned == 0
                &&& final(self).last_query@ == trim_view(old(self).query@)
            },
    {
        self.search_mode = match self.search_mode {
            SearchMode::Filename => SearchMode::Content,
            SearchMode::Content => SearchMode::Filename,
        };
        if self.query.as_str().is_empty() {
            None
        } else {
            self.start_search()
        }
    }

    /// Moves the highlight down one result, stopping at the last.
    pub fn select_next(&mut self)
        ensures
            final(self).selected_index == (if old(self).results@.len() > 0 {
                if old(self).selected_index + 1 < old(self).results@.len() {
                    (old(self).selected_index + 1) as usize
                } else {
                    (old(self).results@.len() - 1) as usize
                }
            } else {
                old(self).selected_index
            }),
            final(self).results == old(self).results,
            final(self).open == old(self).open,
    {
        if self.results.len() > 0 {
            if self.selected_index < self.results.len() - 1 {
                self.selected_index = self.selected_index + 1;
            } else {
                self.selected_index = self.results.len() - 1;
            }
        }
    }

    /// Moves the highlight up one result, stopping at the first.
    pub fn select_previous(&mut self)
        ensures
            final(self).selected_index == (if old(self).selected_index > 0 {
                (old(self).selected_index - 1) as usize
            } else {
                0
            }),
            final(self).results == old(self).results,
            final(self).open == old(self).open,
    {
        if self.selected_index > 0 {
            self.selected_index = self.selected_index - 1;
        }
    }

    /// Chooses the `index`-th result: the view goes to it, or to the folder
    /// that holds it, and the overlay closes.
    pub fn choose_result(&mut self, index: usize) -> (r: Option<SearchAction>)
        ensures
            index < old(self).results@.len() ==> (r matches Some(SearchAction::NavigateTo(p))
                && p@ == navigation_target(old(self).results@[index as int])) && !final(self).open,
            index >= old(self).results@.len() ==> r is None && final(self).open == old(self).open,
            final(self).results == old(self).results,
    {
        if index >= self.results.len() {
            return None;
        }
        let target = target_of(&self.results[index]);
        self.close();
        Some(SearchAction::NavigateTo(target))
    }
}

/// Where choosing a result leads: a folder itself, or the folder holding a
/// file (nothing when the path has no parent).
pub open spec fn navigation_target(r: SearchResult) -> Seq<char> {
    if r.is_dir {
        r.path@
    } else {
        match path_parent(r.path@) {
            Some(p) => p,
            None => Seq::empty(),
        }
    }
}

/// The place to go to for a result.
pub fn target_of(r: &SearchResult) -> (t: String)
    ensures
        t@ == navigation_target(*r),
{
    if r.is_dir {
        r.path.clone()
    } else {
        match parent(&r.path) {
            Some(p) => p,
            None => String::new(),
        }
    }
}

// ---------------------------------------------------------------------------
// What the scan does with each entry it meets
// ---------------------------------------------------------------------------

/// Files larger than this many bytes are not searched for content.
pub const MAX_CONTENT_BYTES: u64 = 2097152;

/// A progress report is sent after every this many entries.
pub const PROGRESS_EVERY: u64 = 500;

/// Matched lines are cut after this many bytes.
pub const MAX_LINE_PREVIEW_BYTES: usize = 120;

/// Whether a name matches a query: the query in lowercase occurs in the
/// name in lowercase.
pub open spec fn name_matches_spec(name: Seq<char>, query: Seq<char>) -> bool {
    contains_seq(lowercase(name), lowercase(query))
}

/// Whether a name matches the query, ignoring case.
pub fn name_matches(name: &str, query: &str) -> (r: bool)
    ensures
        r == name_matches_spec(name@, query@),
{
    let n = chars_of(to_lowercase(name).as_str());
    let q = chars_of(to_lowercase(query).as_str());
    contains_chars(&n, &q)
}

/// What the scan does with one entry.
#[derive(Debug, Clone, Copy, PartialEq, Eq, Structural)]
pub struct EntryVerdict {
    /// Go into this folder.
    pub descend: bool,
    /// Report the entry as a match by name.
    pub report: bool,
    /// Read the file to search its lines.
    pub read_content: bool,
}

/// The scan's treatment of an entry: a folder is entered unless its name
/// starts with a dot, and reported when names are searched and it matches;
/// a file is reported when names are searched and it matches, or read when
/// contents are searched and it is at most `MAX_CONTENT_BYTES` long.
pub open spec fn verdict_for(name: Seq<char>, is_dir: bool, size: u64, mode: SearchMode, query: Seq<char>) -> EntryVerdict {
    if is_dir {
        EntryVerdict {
            descend: !(name.len() > 0 && name[0] == '.'),
            report: mode == SearchMode::Filename && name_matches_spec(name, query),
            read_content: false,
        }
    } else {
        EntryVerdict {
            descend: false,
            report: mode == SearchMode::Filename && name_matches_spec(name, query),
            read_content: mode == SearchMode::Content && size <= MAX_CONTENT_BYTES,
        }
    }
}

/// What the scan does with an entry named `name`.
pub fn scan_entry(name: &str, is_dir: bool, size: u64, mode: SearchMode, query: &str) -> (v: EntryVerdict)
    ensures
        v == verdict_for(name@, is_dir, size, mode, query@),
{
    let by_name = mode == SearchMode::Filename && name_matches(name, query);
    if is_dir {
        EntryVerdict { descend: !crate::text::starts_with_char(name, '.'), report: by_name, read_content: false }
    } else {
        EntryVerdict { descend: false, report: by_name, read_content: mode == SearchMode::Content && size <= MAX_CONTENT_BYTES }
    }
}

/// Whether a progress report is due after `scanned` entries.
pub fn progress_due(scanned: u64) -> (r: bool)
    ensures
        r == (scanned % PROGRESS_EVERY == 0),
{
    scanned % PROGRESS_EVERY == 0
}

/// The first line, counting from 0, in which the query occurs ignoring
/// case, from `k` on.
pub open spec fn first_match_from(lines: Seq<Seq<char>>, query: Seq<char>, k: int) -> Option<int>
    decreases lines.len() - k,
{
    if k < 0 || k >= lines.len() {
        None
    } else if contains_seq(lowercase(lines[k]), lowercase(query)) {
        Some(k)
    } else {
        first_match_from(lines, query, k + 1)
    }
}

/// How many leading characters of `s` fit in `n` bytes.
pub open spec fn chars_within(s: Seq<char>, n: int) -> int
    decreases s.len(),
{
    if s.len() == 0 || utf8_char_len(s[0]) > n {
        0
    } else {
        1 + chars_within(s.drop_first(), n - utf8_char_len(s[0]))
    }
}

/// The cut of a matched line falls between characters: the line is short
/// enough, or its first `MAX_LINE_PREVIEW_BYTES` bytes are whole characters.
pub open spec fn cut_on_boundary(p: Seq<char>) -> bool {
    utf8_len(p) <= MAX_LINE_PREVIEW_BYTES || utf8_len(p.take(chars_within(p, MAX_LINE_PREVIEW_BYTES as int))) == MAX_LINE_PREVIEW_BYTES
}

/// The preview of a matched line: trimmed, and cut after
/// `MAX_LINE_PREVIEW_BYTES` bytes with "..." when longer.
pub open spec fn line_preview(line: Seq<char>) -> Seq<char> {
    let p = trim_view(line);
    if utf8_len(p) > MAX_LINE_PREVIEW_BYTES {
        p.take(chars_within(p, MAX_LINE_PREVIEW_BYTES as int)) + "..."@
    } else {
        p
    }
}

/// The report for a file whose content matches: "<line>:<name>: <preview>"
/// for its first matching line, counting lines from 1.
pub open spec fn content_report(name: Seq<char>, content: Seq<char>, query: Seq<char>) -> Option<Seq<char>> {
    match first_match_from(text_lines(content), query, 0) {
        Some(k) => Some(decimal((k + 1) as nat) + ":"@ + name + ": "@ + line_preview(text_lines(content)[k])),
        None => None,
    }
}

proof fn lemma_utf8_len_push(s: Seq<char>, c: char)
    ensures
        utf8_len(s.push(c)) == utf8_len(s) + utf8_char_len(c),
    decreases s.len(),
{
    assert(s.push(c).drop_last() == s);
}

proof fn lemma_chars_within_step(s: Seq<char>, n: int, k: int, used: int)
    requires
        0 <= k <= s.len(),
        used == utf8_len(s.take(k)),
        used <= n,
        chars_within(s, n) == k + chars_within(s.skip(k), n - used),
    ensures
        k < s.len() && used + utf8_char_len(s[k]) <= n ==>
            chars_within(s, n) == (k + 1) + chars_within(s.skip(k + 1), n - (used + utf8_char_len(s[k]))),
        !(k < s.len() && used + utf8_char_len(s[k]) <= n) ==> chars_within(s, n) == k,
{
    if k < s.len() {
        assert(s.skip(k).drop_first() == s.skip(k + 1));
        assert(s.skip(k)[0] == s[k]);
    } else {
        assert(s.skip(k).len() == 0);
    }
}

proof fn lemma_utf8_len_nonneg(s: Seq<char>)
    ensures
        utf8_len(s) >= 0,
    decreases s.len(),
{
    if s.len() > 0 {
        lemma_utf8_len_nonneg(s.drop_last());
    }
}

/// The first `n` bytes of `p` as whole characters: `p.take(chars_within)`,
/// with its length in bytes.
fn prefix_within(p: &Vec<char>, n: usize) -> (r: (Vec<char>, usize))
    requires
        n <= 1024,
    ensures
        r.0@ == p@.take(chars_within(p@, n as int)),
        r.1 as int == utf8_len(r.0@),
{
    let mut out: Vec<char> = Vec::new();
    let mut used: usize = 0;
    let mut k: usize = 0;
    assert(p@.skip(0) == p@);
    assert(p@.take(0) =~= Seq::<char>::empty());
    while k < p.len() && used + utf8_width(p[k]) <= n
        invariant
            k <= p@.len(),
            n <= 1024,
            used <= n,
            used as int == utf8_len(p@.take(k as int)),
            out@ == p@.take(k as int),
            chars_within(p@, n as int) == k + chars_within(p@.skip(k as int), n - used),
        decreases p@.len() - k,
    {
        proof {
            lemma_chars_within_step(p@, n as int, k as int, used as int);
            assert(p@.take(k + 1) == p@.take(k as int).push(p@[k as int]));
            lemma_utf8_len_push(p@.take(k as int), p@[k as int]);
        }
        used = used + utf8_width(p[k]);
        out.push(p[k]);
        k = k + 1;
    }
    proof {
        lemma_chars_within_step(p@, n as int, k as int, used as int);
    }
    (out, used)
}

/// The position of the first of `lines` in which `query` occurs, ignoring
/// case; nothing when it occurs in none.
fn first_matching_line(lines: &Vec<String>, query: &str) -> (r: Option<usize>)
    ensures
        first_match_from(lines.deep_view(), query@, 0) == (match r {
            Some(k) => Some(k as int),
            None => None::<int>,
        }),
        r matches Some(k) ==> k < lines@.len(),
{
    let ghost ls = lines.deep_view();
    let q = chars_of(to_lowercase(query).as_str());
    let mut k: usize = 0;
    while k < lines.len()
        invariant
            k <= lines@.len(),
            ls == lines.deep_view(),
            q@ == lowercase(query@),
            first_match_from(ls, query@, 0) == first_match_from(ls, query@, k as int),
        decreases lines@.len() - k,
    {
        assert(ls[k as int] == lines@[k as int]@);
        let low = chars_of(to_lowercase(lines[k].as_str()).as_str());
        if contains_chars(&low, &q) {
            return Some(k);
        }
        k = k + 1;
    }
    None
}

/// The lines of `content`, as `str::lines` splits them.
fn content_lines(content: &str) -> (r: Vec<String>)
    ensures
        r.deep_view() == text_lines(content@),
{
    let lines = lines_of(content);
    assert(lines.deep_view() =~= text_lines(content@));
    lines
}

/// The line of `content` in which the query occurs first, ignoring case,
/// reported as "<line>:<name>: <preview>"; nothing when it occurs in no
/// line. The preview is cut on a character boundary (the cut of a longer
/// line must fall between characters).
pub fn content_match(name: &str, content: &str, query: &str) -> (r: Option<String>)
    requires
        match first_match_from(text_lines(content@), query@, 0) {
            Some(k) => cut_on_boundary(trim_view(text_lines(content@)[k])),
            None => true,
        },
    ensures
        match content_report(name@, content@, query@) {
            Some(t) => r matches Some(s) && s@ == t,
            None => r is None,
        },
{
    let lines = content_lines(content);
    let ghost ls = text_lines(content@);
    match first_matching_line(&lines, query) {
        None => None,
        Some(k) => {
            assert(lines.deep_view()[k as int] == lines@[k as int]@);
            assert(lines@[k as int]@ == ls[k as int]);
            let t = trimmed(lines[k].as_str());
            let tv = chars_of(t.as_str());
            let total = crate::text::utf8_length(t.as_str());
            let mut preview: Vec<char> = Vec::new();
            if total > MAX_LINE_PREVIEW_BYTES {
                let (cut, _) = prefix_within(&tv, MAX_LINE_PREVIEW_BYTES);
                preview = cut;
                preview.push('.');
                preview.push('.');
                preview.push('.');
                proof {
                    reveal_strlit("...");
                }
                assert(preview@ =~= tv@.take(chars_within(tv@, MAX_LINE_PREVIEW_BYTES as int)) + "..."@);
            } else {
                preview = tv;
                proof {
                    lemma_utf8_len_nonneg(t@);
                }
            }
            let n_lines = lines.len();
            assert(k < n_lines);
            let mut out = decimal_chars((k as u64) + 1);
            out.push(':');
            let nv = chars_of(name);
            extend_chars(&mut out, &nv);
            out.push(':');
            out.push(' ');
            extend_chars(&mut out, &preview);
            proof {
                reveal_strlit(":");
                reveal_strlit(": ");
            }
            assert(out@ =~= decimal((k + 1) as nat) + ":"@ + name@ + ": "@ + line_preview(ls[k as int]));
            Some(string_of(&out))
        },
    }
}

/// The content report of a file as `content_match` gives it, or `None`
/// where the cut of the first matching line would split a character (the
/// scan stops there).
pub fn try_content_match(name: &str, content: &str, query: &str) -> (r: Option<Option<String>>)
    ensures
        match first_match_from(text_lines(content@), query@, 0) {
            Some(k) => cut_on_boundary(trim_view(text_lines(content@)[k])) <==> r is Some,
            None => r is Some,
        },
        r matches Some(x) ==> match content_report(name@, content@, query@) {
            Some(t) => x matches Some(s) && s@ == t,
            None => x is None,
        },
{
    let lines = content_lines(content);
    let ghost ls = text_lines(content@);
    match first_matching_line(&lines, query) {
        None => Some(content_match(name, content, query)),
        Some(k) => {
            assert(lines.deep_view()[k as int] == lines@[k as int]@);
            assert(lines@[k as int]@ == ls[k as int]);
            let t = trimmed(lines[k].as_str());
            let tv = chars_of(t.as_str());
            let total = crate::text::utf8_length(t.as_str());
            if total > MAX_LINE_PREVIEW_BYTES {
                let (_, used) = prefix_within(&tv, MAX_LINE_PREVIEW_BYTES);
                if used != MAX_LINE_PREVIEW_BYTES {
                    return None;
                }
            }
            Some(content_match(name, content, query))
        },
    }
}

/// Name matching ignores case on both sides: a name matches the query
/// exactly when the query's lowercase form occurs in the name's lowercase
/// form; every name matches itself; and queries with the same lowercase
/// form (the same text in other cases) get the same answer.
pub proof fn law_name_match_ignores_case(name: Seq<char>, query: Seq<char>, other: Seq<char>)
    ensures
        name_matches_spec(name, query) <==> contains_seq(lowercase(name), lowercase(query)),
        name_matches_spec(name, name),
        lowercase(other) == lowercase(query) ==> (name_matches_spec(name, other) <==> name_matches_spec(name, query)),
{
    let l = lowercase(name);
    assert(l.subrange(0, l.len() as int) =~= l);
    assert(crate::text::occurs_at(l, l, 0));
}

} // verus!
