//! Git status of a directory: the branch, the working tree's root, and the
//! status of each changed path. The repository is read through `git2`; how
//! each entry's flags become one status, and how entries are keyed by their
//! absolute path, is this module's own logic.
use vstd::prelude::*;
use git2::{Reference, Repository, StatusOptions, StatusShow, Statuses};
use crate::paths::{join, path_join};
use crate::text::{chars_of, opt_text, same_text, string_of};

verus! {

/// `git2::Repository`, carried through unexamined.
#[verifier::external_type_specification]
#[verifier::external_body]
pub struct ExRepository(Repository);

/// `git2::Statuses`, carried through unexamined.
#[verifier::external_type_specification]
#[verifier::external_body]
pub struct ExStatuses<'a>(Statuses<'a>);

/// `git2::Reference`, carried through unexamined.
#[verifier::external_type_specification]
#[verifier::external_body]
pub struct ExReference<'a>(Reference<'a>);

/// The status shown for a path.
#[derive(Debug, Clone, Copy, PartialEq, Eq, Structural)]
pub enum GitFileStatus {
    Modified,
    Added,
    Deleted,
    Renamed,
    Untracked,
    Ignored,
    Conflicted,
}

/// The flags git reports for one entry, as plain booleans.
#[derive(Debug, Clone, Copy, PartialEq, Eq, Structural)]
pub struct StatusFlags {
    pub conflicted: bool,
    pub index_new: bool,
    pub wt_new: bool,
    pub index_deleted: bool,
    pub wt_deleted: bool,
    pub index_renamed: bool,
    pub wt_renamed: bool,
    pub index_modified: bool,
    pub wt_modified: bool,
    pub ignored: bool,
}

/// Which comparisons a status query makes.
#[derive(Debug, Clone, Copy, PartialEq, Eq, Structural)]
pub enum StatusScope {
    IndexAndWorkdir,
    Index,
    Workdir,
}

/// The options of a status query.
#[derive(Debug, Clone, Copy, PartialEq, Eq, Structural)]
pub struct StatusQuery {
    pub scope: StatusScope,
    pub include_untracked: bool,
    pub recurse_untracked_dirs: bool,
    pub include_ignored: bool,
}

/// What is known of a repository's working tree.
#[derive(Debug, Clone)]
pub struct GitInfo {
    pub branch: String,
    pub repo_root: String,
    /// Each changed path, absolute, with its status; no path occurs twice.
    pub statuses: Vec<(String, GitFileStatus)>,
}

/// One status for an entry's flags, by priority: conflicted; new (untracked
/// when new in the working tree, else added); deleted; renamed; modified;
/// ignored. An entry with none of these gets no status.
pub open spec fn classify(f: StatusFlags) -> Option<GitFileStatus> {
    if f.conflicted {
        Some(GitFileStatus::Conflicted)
    } else if f.index_new || f.wt_new {
        if f.wt_new {
            Some(GitFileStatus::Untracked)
        } else {
            Some(GitFileStatus::Added)
        }
    } else if f.index_deleted || f.wt_deleted {
        Some(GitFileStatus::Deleted)
    } else if f.index_renamed || f.wt_renamed {
        Some(GitFileStatus::Renamed)
    } else if f.index_modified || f.wt_modified {
        Some(GitFileStatus::Modified)
    } else if f.ignored {
        Some(GitFileStatus::Ignored)
    } else {
        None
    }
}

/// The status for an entry's flags.
pub fn classify_status(f: StatusFlags) -> (r: Option<GitFileStatus>)
    ensures
        r == classify(f),
{
    if f.conflicted {
        Some(GitFileStatus::Conflicted)
    } else if f.index_new || f.wt_new {
        if f.wt_new {
            Some(GitFileStatus::Untracked)
        } else {
            Some(GitFileStatus::Added)
        }
    } else if f.index_deleted || f.wt_deleted {
        Some(GitFileStatus::Deleted)
    } else if f.index_renamed || f.wt_renamed {
        Some(GitFileStatus::Renamed)
    } else if f.index_modified || f.wt_modified {
        Some(GitFileStatus::Modified)
    } else if f.ignored {
        Some(GitFileStatus::Ignored)
    } else {
        None
    }
}

/// Whether `c` separates path components on some platform.
pub open spec fn is_separator(c: char) -> bool {
    c == '/' || c == '\\'
}

/// A path without its trailing separators.
pub open spec fn without_trailing_separators(s: Seq<char>) -> Seq<char>
    decreases s.len(),
{
    if s.len() > 0 && is_separator(s.last()) {
        without_trailing_separators(s.drop_last())
    } else {
        s
    }
}

/// Removes every trailing '/' and '\\' from a path.
pub fn trim_trailing_separators(s: &str) -> (r: String)
    ensures
        r@ == without_trailing_separators(s@),
        r@.len() == 0 || !is_separator(r@.last()),
{
    let v = chars_of(s);
    let mut n: usize = v.len();
    assert(v@.take(n as int) == v@);
    while n > 0 && (v[n - 1] == '/' || v[n - 1] == '\\')
        invariant
            n <= v@.len(),
            without_trailing_separators(v@.take(n as int)) == without_trailing_separators(v@),
        decreases n,
    {
        assert(v@.take(n as int).drop_last() == v@.take(n - 1));
        n = n - 1;
    }
    let mut out: Vec<char> = Vec::new();
    let mut i: usize = 0;
    while i < n
        invariant
            i <= n,
            n <= v@.len(),
            out@ == v@.take(i as int),
        decreases n - i,
    {
        out.push(v[i]);
        i = i + 1;
        assert(v@.take(i as int) == v@.take(i - 1).push(v@[i - 1]));
    }
    string_of(&out)
}

/// The path of each pair, as characters.
pub open spec fn unique_keys(s: Seq<(String, GitFileStatus)>) -> bool {
    forall|i: int, j: int| 0 <= i < j < s.len() ==> #[trigger] s[i].0@ != #[trigger] s[j].0@
}

/// The statuses held, as a map from path to status.
pub open spec fn pairs_map(s: Seq<(String, GitFileStatus)>) -> Map<Seq<char>, GitFileStatus>
    decreases s.len(),
{
    if s.len() == 0 {
        Map::empty()
    } else {
        pairs_map(s.drop_last()).insert(s.last().0@, s.last().1)
    }
}

/// The paths that have a status in a map built from pairs are those paths.
proof fn lemma_pairs_map_domain(s: Seq<(String, GitFileStatus)>, k: Seq<char>)
    ensures
        pairs_map(s).contains_key(k) <==> exists|i: int| 0 <= i < s.len() && #[trigger] s[i].0@ == k,
    decreases s.len(),
{
    if s.len() > 0 {
        lemma_pairs_map_domain(s.drop_last(), k);
        if pairs_map(s.drop_last()).contains_key(k) {
            let i = choose|i: int| 0 <= i < s.drop_last().len() && #[trigger] s.drop_last()[i].0@ == k;
            assert(s[i].0@ == k);
        }
        if exists|i: int| 0 <= i < s.len() && #[trigger] s[i].0@ == k {
            let i = choose|i: int| 0 <= i < s.len() && #[trigger] s[i].0@ == k;
            if i < s.len() - 1 {
                assert(s.drop_last()[i].0@ == k);
            }
        }
    }
}

/// Overwriting the pair of a path present once changes only that path's
/// status.
proof fn lemma_pairs_map_update(s: Seq<(String, GitFileStatus)>, j: int, p: (String, GitFileStatus))
    requires
        unique_keys(s),
        0 <= j < s.len(),
        s[j].0@ == p.0@,
    ensures
        pairs_map(s.update(j, p)) == pairs_map(s).insert(p.0@, p.1),
    decreases s.len(),
{
    let t = s.update(j, p);
    if j == s.len() - 1 {
        assert(t.drop_last() == s.drop_last());
        assert(pairs_map(t) =~= pairs_map(s).insert(p.0@, p.1));
    } else {
        assert(t.drop_last() == s.drop_last().update(j, p));
        lemma_pairs_map_update(s.drop_last(), j, p);
        assert(s.last().0@ != p.0@) by {
            assert(s[j].0@ != s[s.len() - 1].0@);
        }
        assert(pairs_map(t) =~= pairs_map(s).insert(p.0@, p.1));
    }
}

/// Sets the status of `path`, replacing the one it had.
fn insert_status(statuses: &mut Vec<(String, GitFileStatus)>, path: String, status: GitFileStatus)
    requires
        unique_keys(old(statuses)@),
    ensures
        unique_keys(final(statuses)@),
        pairs_map(final(statuses)@) == pairs_map(old(statuses)@).insert(path@, status),
{
    let mut i: usize = 0;
    while i < statuses.len()
        invariant
            i <= statuses@.len(),
            statuses@ == old(statuses)@,
            unique_keys(old(statuses)@),
            forall|k: int| 0 <= k < i ==> #[trigger] statuses@[k].0@ != path@,
        decreases statuses@.len() - i,
    {
        if same_text(statuses[i].0.as_str(), path.as_str()) {
            proof {
                lemma_pairs_map_update(statuses@, i as int, (path, status));
            }
            statuses.set(i, (path, status));
            assert forall|a: int, b: int| 0 <= a < b < statuses@.len() implies
                #[trigger] statuses@[a].0@ != #[trigger] statuses@[b].0@ by {
                assert(old(statuses)@[a].0@ != old(statuses)@[b].0@);
            }
            return;
        }
        i = i + 1;
    }
    let ghost before = statuses@;
    statuses.push((path, status));
    assert(statuses@.drop_last() == before);
    assert forall|a: int, b: int| 0 <= a < b < statuses@.len() implies
        #[trigger] statuses@[a].0@ != #[trigger] statuses@[b].0@ by {
        if b < before.len() {
            assert(before[a].0@ != before[b].0@);
        }
    }
}

/// The statuses built from a query's entries under `root`: each entry with a
/// path and a status sets the status of that path joined to `root`; a later
/// entry for the same path wins.
pub open spec fn status_map(root: Seq<char>, entries: Seq<(Option<String>, StatusFlags)>) -> Map<Seq<char>, GitFileStatus>
    decreases entries.len(),
{
    if entries.len() == 0 {
        Map::empty()
    } else {
        let m = status_map(root, entries.drop_last());
        let e = entries.last();
        match (e.0, classify(e.1)) {
            (Some(p), Some(st)) => m.insert(path_join(root, p@), st),
            _ => m,
        }
    }
}

/// The information for a working tree at `workdir` on `branch`, from the
/// entries of a status query (the path of each entry relative to the
/// working tree, when it could be read, and its flags).
pub fn git_info_from(branch: String, workdir: &str, entries: &Vec<(Option<String>, StatusFlags)>) -> (info: GitInfo)
    ensures
        info.branch == branch,
        info.repo_root@ == without_trailing_separators(workdir@),
        unique_keys(info.statuses@),
        pairs_map(info.statuses@) == status_map(info.repo_root@, entries@),
{
    let repo_root = trim_trailing_separators(workdir);
    let mut statuses: Vec<(String, GitFileStatus)> = Vec::new();
    let mut i: usize = 0;
    while i < entries.len()
        invariant
            i <= entries@.len(),
            unique_keys(statuses@),
            pairs_map(statuses@) == status_map(repo_root@, entries@.take(i as int)),
        decreases entries@.len() - i,
    {
        assert(entries@.take(i + 1).drop_last() == entries@.take(i as int));
        let (rel, flags) = &entries[i];
        match rel {
            Some(p) => {
                match classify_status(*flags) {
                    Some(st) => {
                        let abs = join(repo_root.as_str(), p.as_str());
                        insert_status(&mut statuses, abs, st);
                    },
                    None => {},
                }
            },
            None => {},
        }
        i = i + 1;
    }
    assert(entries@.take(i as int) == entries@);
    GitInfo { branch, repo_root, statuses }
}

impl GitInfo {
    /// Whether no path occurs twice among the statuses.
    pub open spec fn wf(&self) -> bool {
        unique_keys(self.statuses@)
    }

    /// The statuses as a map from path to status.
    pub open spec fn status_view(&self) -> Map<Seq<char>, GitFileStatus> {
        pairs_map(self.statuses@)
    }

    /// The status of `path`, if it has one.
    pub fn status_of(&self, path: &str) -> (r: Option<GitFileStatus>)
        requires
            self.wf(),
        ensures
            r == (if self.status_view().contains_key(path@) {
                Some(self.status_view()[path@])
            } else {
                None
            }),
    {
        let mut i: usize = self.statuses.len();
        while i > 0
            invariant
                i <= self.statuses@.len(),
                self.wf(),
                forall|k: int| i <= k < self.statuses@.len() ==> #[trigger] self.statuses@[k].0@ != path@,
            decreases i,
        {
            i = i - 1;
            if same_text(self.statuses[i].0.as_str(), path) {
                proof {
                    lemma_status_at(self.statuses@, i as int);
                }
                return Some(self.statuses[i].1);
            }
        }
        proof {
            lemma_pairs_map_domain(self.statuses@, path@);
        }
        None
    }
}

/// With no path twice, the map holds each pair's status under its path.
proof fn lemma_status_at(s: Seq<(String, GitFileStatus)>, i: int)
    requires
        unique_keys(s),
        0 <= i < s.len(),
    ensures
        pairs_map(s).contains_key(s[i].0@),
        pairs_map(s)[s[i].0@] == s[i].1,
    decreases s.len(),
{
    if i < s.len() - 1 {
        assert(s.drop_last()[i] == s[i]);
        lemma_status_at(s.drop_last(), i);
        assert(s[i].0@ != s[s.len() - 1].0@);
    }
}

/// The query made for a directory listing: index and working tree,
/// untracked files without descending into untracked directories, ignored
/// files left out.
pub fn working_tree_query() -> (q: StatusQuery)
    ensures
        q == (StatusQuery {
            scope: StatusScope::IndexAndWorkdir,
            include_untracked: true,
            recurse_untracked_dirs: false,
            include_ignored: false,
        }),
{
    StatusQuery {
        scope: StatusScope::IndexAndWorkdir,
        include_untracked: true,
        recurse_untracked_dirs: false,
        include_ignored: false,
    }
}

/// `Repository::discover`: the repository containing `path`, if any. What
/// is found depends on the disk; nothing is stated.
#[verifier::external_body]
fn discover_repository(path: &str) -> (r: Option<Repository>) {
    Repository::discover(path).ok()
}

/// `Repository::workdir`, as text: the working tree's directory, or `None`
/// for a bare repository. Depends on the disk; nothing is stated.
#[verifier::external_body]
fn repository_workdir(repo: &Repository) -> (r: Option<String>) {
    repo.workdir().map(|p| p.to_string_lossy().to_string())
}

/// `Repository::statuses` with the options of `query`; `None` where git
/// reports an error. Depends on the disk; nothing is stated.
#[verifier::external_body]
fn repository_statuses<'a>(repo: &'a Repository, query: StatusQuery) -> (r: Option<Statuses<'a>>) {
    let show = match query.scope {
        StatusScope::IndexAndWorkdir => StatusShow::IndexAndWorkdir,
        StatusScope::Index => StatusShow::Index,
        StatusScope::Workdir => StatusShow::Workdir,
    };
    let mut opts = StatusOptions::new();
    opts.include_untracked(query.include_untracked)
        .recurse_untracked_dirs(query.recurse_untracked_dirs)
        .include_ignored(query.include_ignored)
        .show(show);
    repo.statuses(Some(&mut opts)).ok()
}

/// The entries a status list holds, in order: the path of each, relative
/// to the working tree (when it is UTF-8), and its flags. A function of the
/// list alone.
pub uninterp spec fn status_list(statuses: Statuses) -> Seq<(Option<String>, StatusFlags)>;

/// `Statuses::len`: the number of entries the list holds.
#[verifier::external_body]
fn status_count(statuses: &Statuses) -> (r: usize)
    ensures
        r == status_list(*statuses).len(),
{
    statuses.len()
}

/// `Statuses::get`: the entry at `index`, as its path (when it is UTF-8)
/// and its flags (each `Status::is_*` test); nothing past the end.
#[verifier::external_body]
fn status_entry(statuses: &Statuses, index: usize) -> (r: Option<(Option<String>, StatusFlags)>)
    ensures
        r == (if (index as int) < status_list(*statuses).len() {
            Some(status_list(*statuses)[index as int])
        } else {
            None
        }),
{
    match statuses.get(index) {
        Some(e) => {
            let s = e.status();
            let flags = StatusFlags {
                conflicted: s.is_conflicted(), index_new: s.is_index_new(), wt_new: s.is_wt_new(),
                index_deleted: s.is_index_deleted(), wt_deleted: s.is_wt_deleted(),
                index_renamed: s.is_index_renamed(), wt_renamed: s.is_wt_renamed(),
                index_modified: s.is_index_modified(), wt_modified: s.is_wt_modified(),
                ignored: s.is_ignored(),
            };
            Some((e.path().ok().map(|p| p.to_string()), flags))
        },
        None => None,
    }
}

/// The entries of a status list, in order.
pub fn collect_entries(statuses: &Statuses) -> (v: Vec<(Option<String>, StatusFlags)>)
    ensures
        v@ == status_list(*statuses),
{
    let mut v: Vec<(Option<String>, StatusFlags)> = Vec::new();
    let n: usize = status_count(statuses);
    let mut i: usize = 0;
    while i < n
        invariant
            i <= n,
            n == status_list(*statuses).len(),
            v@ == status_list(*statuses).take(i as int),
        decreases n - i,
    {
        match status_entry(statuses, i) {
            Some(e) => v.push(e),
            None => {},
        }
        i = i + 1;
        assert(v@ =~= status_list(*statuses).take(i as int));
    }
    assert(status_list(*statuses).take(n as int) =~= status_list(*statuses));
    v
}

/// `Repository::head`: the reference HEAD points to, if it resolves.
/// Depends on the disk; nothing is stated.
#[verifier::external_body]
fn repository_head<'a>(repo: &'a Repository) -> (r: Option<Reference<'a>>) {
    repo.head().ok()
}

/// The short name of a reference (`Reference::shorthand`), when it is
/// UTF-8: a function of the reference alone.
pub uninterp spec fn ref_shorthand(head: Reference) -> Option<Seq<char>>;

/// The hexadecimal id of the commit a reference names (`Reference::target`
/// shown with `Oid`'s `Display`); nothing for a symbolic reference. A
/// function of the reference alone.
pub uninterp spec fn ref_target_hex(head: Reference) -> Option<Seq<char>>;

/// `Reference::shorthand`: the reference's short name, when it is UTF-8;
/// the named function of the reference.
#[verifier::external_body]
fn reference_shorthand(head: &Reference) -> (r: Option<String>)
    ensures
        opt_text(r) == ref_shorthand(*head),
{
    head.shorthand().ok().map(|s| s.to_string())
}

/// `Reference::target`, as hexadecimal text (`Oid`'s `Display`); `None` for
/// a symbolic reference. The named function of the reference.
#[verifier::external_body]
fn reference_target_hex(head: &Reference) -> (r: Option<String>)
    ensures
        opt_text(r) == ref_target_hex(*head),
{
    head.target().map(|oid| oid.to_string())
}

/// `Oid::ZERO_SHA1` (what the deprecated `Oid::zero` returns), as
/// hexadecimal text: forty zeros, two for each of its twenty zero bytes.
#[verifier::external_body]
fn zero_oid_hex() -> (r: String)
    ensures
        r@ == Seq::new(40, |i: int| '0'),
{
    git2::Oid::ZERO_SHA1.to_string()
}

/// The branch shown for a repository: HEAD's short name; when it has none,
/// the first seven characters of the commit HEAD names; "HEAD" when HEAD
/// does not resolve.
pub open spec fn branch_text(head: Option<(Option<Seq<char>>, Seq<char>)>) -> Seq<char> {
    match head {
        Some((Some(name), _)) => name,
        Some((None, hex)) => hex.take(if hex.len() < 7 { hex.len() as int } else { 7 }),
        None => "HEAD"@,
    }
}

/// The branch shown, from what HEAD gave: its short name, if it has one, and
/// the hexadecimal commit id it names.
pub fn branch_label(head: Option<(Option<String>, String)>) -> (r: String)
    ensures
        r@ == branch_text(match head {
            Some((name, hex)) => Some((opt_text(name), hex@)),
            None => None,
        }),
{
    match head {
        Some((Some(name), _)) => name,
        Some((None, hex)) => {
            let v = chars_of(hex.as_str());
            let keep: usize = if v.len() < 7 { v.len() } else { 7 };
            let mut out: Vec<char> = Vec::new();
            let mut i: usize = 0;
            while i < keep
                invariant
                    i <= keep,
                    keep <= v@.len(),
                    out@ == v@.take(i as int),
                decreases keep - i,
            {
                out.push(v[i]);
                i = i + 1;
                assert(v@.take(i as int) == v@.take(i - 1).push(v@[i - 1]));
            }
            string_of(&out)
        },
        None => String::from_str("HEAD"),
    }
}

/// What HEAD gives for the branch label: nothing when it does not resolve;
/// otherwise its short name, if any, and the id of the commit it names (forty
/// zeros for a symbolic reference).
pub open spec fn head_reading(head: Option<Reference>) -> Option<(Option<Seq<char>>, Seq<char>)> {
    match head {
        Some(h) => Some((
            ref_shorthand(h),
            match ref_target_hex(h) {
                Some(x) => x,
                None => Seq::new(40, |i: int| '0'),
            },
        )),
        None => None,
    }
}

/// The branch of `repo`, as `branch_label` shows it for what HEAD gives.
/// Where HEAD points depends on the repository on disk.
fn current_branch(repo: &Repository) -> (r: String)
    ensures
        exists|head: Option<Reference>| r@ == #[trigger] branch_text(head_reading(head)),
{
    match repository_head(repo) {
        Some(head) => {
            let name = reference_shorthand(&head);
            let hex = match reference_target_hex(&head) {
                Some(h) => h,
                None => zero_oid_hex(),
            };
            let r = branch_label(Some((name, hex)));
            assert(r@ == branch_text(head_reading(Some(head))));
            r
        },
        None => {
            let r = branch_label(None);
            assert(r@ == branch_text(head_reading(None)));
            r
        },
    }
}

/// The git information for the working tree containing `dir_path`; `None`
/// outside a repository, for a bare one, or where git reports an error.
/// The branch is what HEAD gives, the root is the working tree's directory
/// without trailing separators, and the statuses are those of the entries
/// of the repository's status list (for the query of `working_tree_query`),
/// keyed by absolute path, no path twice. Which repository is found and
/// what it holds depends on the disk.
pub fn get_git_info(dir_path: &str) -> (r: Option<GitInfo>)
    ensures
        match r {
            Some(info) => {
                &&& info.wf()
                &&& info.repo_root@ == without_trailing_separators(info.repo_root@)
                &&& (info.repo_root@.len() == 0 || !is_separator(info.repo_root@.last()))
                &&& exists|head: Option<Reference>| info.branch@ == #[trigger] branch_text(head_reading(head))
                &&& exists|st: Statuses| pairs_map(info.statuses@) == #[trigger] status_map(info.repo_root@, status_list(st))
            },
            None => true,
        },
{
    let repo = match discover_repository(dir_path) {
        Some(r) => r,
        None => return None,
    };
    let branch = current_branch(&repo);
    let workdir = match repository_workdir(&repo) {
        Some(w) => w,
        None => return None,
    };
    let statuses = match repository_statuses(&repo, working_tree_query()) {
        Some(s) => s,
        None => return None,
    };
    let entries = collect_entries(&statuses);
    let info = git_info_from(branch, workdir.as_str(), &entries);
    proof {
        lemma_trim_idempotent(workdir@);
        assert(pairs_map(info.statuses@) == status_map(info.repo_root@, status_list(statuses)));
    }
    Some(info)
}

/// Trimming trailing separators twice is trimming them once.
proof fn lemma_trim_idempotent(s: Seq<char>)
    ensures
        without_trailing_separators(without_trailing_separators(s)) == without_trailing_separators(s),
        without_trailing_separators(s).len() == 0 || !is_separator(without_trailing_separators(s).last()),
    decreases s.len(),
{
    if s.len() > 0 && is_separator(s.last()) {
        lemma_trim_idempotent(s.drop_last());
    }
}

/// Every entry with a change flag gets a status, by the priority
/// conflicted, new (untracked in the working tree, else added), deleted,
/// renamed, modified (staged or not), ignored; an entry with no flag gets
/// none.
pub proof fn law_status_priority(f: StatusFlags)
    ensures
        f.conflicted ==> classify(f) == Some(GitFileStatus::Conflicted),
        !f.conflicted && f.wt_new ==> classify(f) == Some(GitFileStatus::Untracked),
        !f.conflicted && !f.wt_new && f.index_new ==> classify(f) == Some(GitFileStatus::Added),
        !f.conflicted && !f.wt_new && !f.index_new && (f.index_deleted || f.wt_deleted)
            ==> classify(f) == Some(GitFileStatus::Deleted),
        !f.conflicted && !f.wt_new && !f.index_new && !f.index_deleted && !f.wt_deleted
            && (f.index_renamed || f.wt_renamed) ==> classify(f) == Some(GitFileStatus::Renamed),
        !f.conflicted && !f.wt_new && !f.index_new && !f.index_deleted && !f.wt_deleted && !f.index_renamed
            && !f.wt_renamed && (f.index_modified || f.wt_modified) ==> classify(f) == Some(GitFileStatus::Modified),
        !f.conflicted && !f.wt_new && !f.index_new && !f.index_deleted && !f.wt_deleted && !f.index_renamed
            && !f.wt_renamed && !f.index_modified && !f.wt_modified && f.ignored
            ==> classify(f) == Some(GitFileStatus::Ignored),
        (classify(f) is None) <==> !(f.conflicted || f.index_new || f.wt_new || f.index_deleted || f.wt_deleted
            || f.index_renamed || f.wt_renamed || f.index_modified || f.wt_modified || f.ignored),
{
}

} // verus!
