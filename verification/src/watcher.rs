//! Watching the directories the tabs show: which directories to watch, and
//! which tabs to reload when the file system reports a change. The watching
//! itself, and the clock, are outside; the decisions are here.
use vstd::prelude::*;
use crate::paths::{parent, path_parent};
use crate::state::{is_load_request, DirRequest};
use crate::text::same_text;

verus! {

/// What the application tells the watcher.
pub enum WatchCommand {
    /// Watch exactly the directories of these tabs (tab number, path).
    WatchAll { tabs: Vec<(usize, String)> },
    Stop,
}

/// A directory is reloaded at most once in this many milliseconds.
pub const COOLDOWN_MS: u64 = 2000;

/// What `Path` compares when it compares two paths: the path rebuilt from
/// its components. Two paths are the same directory for `Path`'s `==`
/// exactly when these agree.
pub uninterp spec fn component_key(path: Seq<char>) -> Seq<char>;

/// The path rebuilt from its components (`Path::components` collected into
/// a `PathBuf`), as text. Claims only that the result is the named function
/// of the path.
#[verifier::external_body]
pub(crate) fn path_key(path: &str) -> (r: String)
    ensures
        r@ == component_key(path@),
{
    std::path::Path::new(path).components().collect::<std::path::PathBuf>().to_string_lossy().to_string()
}

/// The state of the watching loop.
pub struct Watcher {
    /// Each watched directory (by its key) with the tabs showing it.
    pub watched: Vec<(String, Vec<usize>)>,
    /// When each directory (by its key) was last reloaded, in milliseconds.
    pub last_reload: Vec<(String, u64)>,
}

/// The directories to stop and to start watching.
pub struct WatchChanges {
    pub unwatch: Vec<String>,
    pub watch: Vec<String>,
}

/// The keys of the watched directories, in order.
pub open spec fn group_keys(g: Seq<(String, Vec<usize>)>) -> Seq<Seq<char>> {
    Seq::new(g.len(), |i: int| g[i].0@)
}

/// No key occurs twice.
pub open spec fn distinct(s: Seq<Seq<char>>) -> bool {
    forall|i: int, j: int| 0 <= i < j < s.len() ==> #[trigger] s[i] != #[trigger] s[j]
}

/// The tabs, in order, whose directory has key `k`.
pub open spec fn ids_for(tabs: Seq<(usize, String)>, k: Seq<char>) -> Seq<usize>
    decreases tabs.len(),
{
    if tabs.len() == 0 {
        Seq::empty()
    } else if component_key(tabs.last().1@) == k {
        ids_for(tabs.drop_last(), k).push(tabs.last().0)
    } else {
        ids_for(tabs.drop_last(), k)
    }
}

/// `g` watches exactly the directories of `tabs`, once each, with the tabs
/// showing each.
pub open spec fn grouped(tabs: Seq<(usize, String)>, g: Seq<(String, Vec<usize>)>) -> bool {
    &&& distinct(group_keys(g))
    &&& forall|i: int| 0 <= i < g.len() ==> (#[trigger] g[i]).1@ == ids_for(tabs, g[i].0@) && g[i].1@.len() > 0
    &&& forall|j: int| 0 <= j < tabs.len() ==> group_keys(g).contains(component_key((#[trigger] tabs[j]).1@))
}

/// The keys of `a` that are not in `b`, in order.
pub open spec fn keys_not_in(a: Seq<Seq<char>>, b: Seq<Seq<char>>) -> Seq<Seq<char>>
    decreases a.len(),
{
    if a.len() == 0 {
        Seq::empty()
    } else if b.contains(a.last()) {
        keys_not_in(a.drop_last(), b)
    } else {
        keys_not_in(a.drop_last(), b).push(a.last())
    }
}

/// The texts of a list of strings.
pub open spec fn texts(v: Seq<String>) -> Seq<Seq<char>> {
    Seq::new(v.len(), |i: int| v[i]@)
}

/// Tabs with no directory of key `k` contribute no tab to it.
proof fn lemma_ids_for_absent(tabs: Seq<(usize, String)>, k: Seq<char>)
    requires
        forall|j: int| 0 <= j < tabs.len() ==> component_key((#[trigger] tabs[j]).1@) != k,
    ensures
        ids_for(tabs, k) == Seq::<usize>::empty(),
    decreases tabs.len(),
{
    if tabs.len() > 0 {
        assert forall|j: int| 0 <= j < tabs.drop_last().len() implies
            component_key((#[trigger] tabs.drop_last()[j]).1@) != k by {
            assert(tabs.drop_last()[j] == tabs[j]);
        }
        lemma_ids_for_absent(tabs.drop_last(), k);
        assert(component_key(tabs[tabs.len() - 1].1@) != k);
    }
}

/// A copy of a list of tab numbers.
fn copy_ids(v: &Vec<usize>) -> (r: Vec<usize>)
    ensures
        r@ == v@,
{
    let mut r: Vec<usize> = Vec::new();
    let mut i: usize = 0;
    while i < v.len()
        invariant
            i <= v@.len(),
            r@ == v@.take(i as int),
        decreases v@.len() - i,
    {
        r.push(v[i]);
        i = i + 1;
        assert(v@.take(i as int) == v@.take(i - 1).push(v@[i - 1]));
    }
    assert(v@.take(i as int) == v@);
    r
}

/// Where the key `k` is among the watched directories, if it is.
fn find_key(g: &Vec<(String, Vec<usize>)>, k: &str) -> (r: Option<usize>)
    ensures
        match r {
            Some(j) => j < g@.len() && g@[j as int].0@ == k@ && group_keys(g@).contains(k@),
            None => !group_keys(g@).contains(k@),
        },
{
    let mut j: usize = 0;
    while j < g.len()
        invariant
            j <= g@.len(),
            forall|m: int| 0 <= m < j ==> g@[m].0@ != k@,
        decreases g@.len() - j,
    {
        if same_text(g[j].0.as_str(), k) {
            assert(group_keys(g@)[j as int] == k@);
            return Some(j);
        }
        j = j + 1;
    }
    assert forall|m: int| 0 <= m < group_keys(g@).len() implies group_keys(g@)[m] != k@ by {
        assert(group_keys(g@)[m] == g@[m].0@);
    }
    None
}

/// The watched directories for a set of tabs: one entry per directory, with
/// the tabs showing it in order.
pub fn group_tabs(tabs: &Vec<(usize, String)>) -> (g: Vec<(String, Vec<usize>)>)
    ensures
        grouped(tabs@, g@),
{
    let mut g: Vec<(String, Vec<usize>)> = Vec::new();
    let mut i: usize = 0;
    while i < tabs.len()
        invariant
            i <= tabs@.len(),
            grouped(tabs@.take(i as int), g@),
        decreases tabs@.len() - i,
    {
        let ghost before = g@;
        let ghost t0 = tabs@.take(i as int);
        let ghost t1 = tabs@.take(i + 1);
        assert(t1.drop_last() == t0);
        let id = tabs[i].0;
        let key = path_key(tabs[i].1.as_str());
        match find_key(&g, key.as_str()) {
            Some(j) => {
                let mut ids = copy_ids(&g[j].1);
                ids.push(id);
                g.set(j, (key, ids));
                assert(group_keys(g@) =~= group_keys(before));
                assert forall|m: int| 0 <= m < g@.len() implies
                    (#[trigger] g@[m]).1@ == ids_for(t1, g@[m].0@) && g@[m].1@.len() > 0 by {
                    if m != j {
                        assert(g@[m] == before[m]);
                        assert(before[m].0@ != before[j as int].0@) by {
                            assert(group_keys(before)[m] == before[m].0@);
                            assert(group_keys(before)[j as int] == before[j as int].0@);
                        }
                    }
                }
                assert forall|n: int| 0 <= n < t1.len() implies
                    group_keys(g@).contains(component_key((#[trigger] t1[n]).1@)) by {
                    if n < t0.len() {
                        assert(t1[n] == t0[n]);
                    } else {
                        assert(group_keys(g@)[j as int] == key@);
                    }
                }
            },
            None => {
                proof {
                    assert forall|n: int| 0 <= n < t0.len() implies
                        component_key((#[trigger] t0[n]).1@) != key@ by {
                        assert(group_keys(before).contains(component_key(t0[n].1@)));
                    }
                    lemma_ids_for_absent(t0, key@);
                }
                let mut ids: Vec<usize> = Vec::new();
                ids.push(id);
                g.push((key, ids));
                assert(group_keys(g@) =~= group_keys(before).push(key@));
                assert forall|m: int| 0 <= m < g@.len() implies
                    (#[trigger] g@[m]).1@ == ids_for(t1, g@[m].0@) && g@[m].1@.len() > 0 by {
                    if m < before.len() {
                        assert(g@[m] == before[m]);
                        assert(group_keys(before).contains(before[m].0@)) by {
                            assert(group_keys(before)[m] == before[m].0@);
                        }
                    } else {
                        assert(ids@ =~= seq![id]);
                    }
                }
                assert forall|n: int| 0 <= n < t1.len() implies
                    group_keys(g@).contains(component_key((#[trigger] t1[n]).1@)) by {
                    if n < t0.len() {
                        assert(t1[n] == t0[n]);
                        let w = choose|w: int| 0 <= w < group_keys(before).len()
                            && group_keys(before)[w] == component_key(t0[n].1@);
                        assert(group_keys(g@)[w] == group_keys(before)[w]);
                    } else {
                        assert(group_keys(g@)[before.len() as int] == key@);
                    }
                }
            },
        }
        i = i + 1;
    }
    assert(tabs@.take(i as int) == tabs@);
    g
}

/// The keys of `a` that are not among those of `b`, in order.
fn missing_keys(a: &Vec<(String, Vec<usize>)>, b: &Vec<(String, Vec<usize>)>) -> (r: Vec<String>)
    ensures
        texts(r@) == keys_not_in(group_keys(a@), group_keys(b@)),
{
    let mut r: Vec<String> = Vec::new();
    let mut i: usize = 0;
    while i < a.len()
        invariant
            i <= a@.len(),
            texts(r@) == keys_not_in(group_keys(a@).take(i as int), group_keys(b@)),
        decreases a@.len() - i,
    {
        assert(group_keys(a@).take(i + 1).drop_last() == group_keys(a@).take(i as int));
        assert(group_keys(a@).take(i + 1).last() == a@[i as int].0@);
        match find_key(b, a[i].0.as_str()) {
            Some(j) => {
                assert(group_keys(b@)[j as int] == a@[i as int].0@);
            },
            None => {
                let ghost before = r@;
                r.push(a[i].0.clone());
                assert(texts(r@) =~= texts(before).push(a@[i as int].0@));
            },
        }
        i = i + 1;
    }
    assert(group_keys(a@).take(i as int) == group_keys(a@));
    r
}

impl Watcher {
    /// A watcher watching nothing.
    pub fn new() -> (w: Watcher)
        ensures
            w.watched@.len() == 0,
            w.last_reload@.len() == 0,
    {
        Watcher { watched: Vec::new(), last_reload: Vec::new() }
    }

    /// Watches exactly the directories of `tabs`; the directories to stop
    /// and to start watching, each in order.
    pub fn watch_all(&mut self, tabs: &Vec<(usize, String)>) -> (c: WatchChanges)
        ensures
            grouped(tabs@, final(self).watched@),
            final(self).last_reload == old(self).last_reload,
            texts(c.unwatch@) == keys_not_in(group_keys(old(self).watched@), group_keys(final(self).watched@)),
            texts(c.watch@) == keys_not_in(group_keys(final(self).watched@), group_keys(old(self).watched@)),
    {
        let next = group_tabs(tabs);
        let unwatch = missing_keys(&self.watched, &next);
        let watch = missing_keys(&next, &self.watched);
        self.watched = next;
        WatchChanges { unwatch, watch }
    }
}

/// The watched directory a change at `event` concerns: the directory
/// holding it (or itself, when it has no parent) when that is watched,
/// else `event` itself when it is watched.
pub open spec fn event_dir(keys: Seq<Seq<char>>, event: Seq<char>) -> Option<Seq<char>> {
    let holder = match path_parent(event) {
        Some(p) => p,
        None => event,
    };
    if keys.contains(component_key(holder)) {
        Some(holder)
    } else if keys.contains(component_key(event)) {
        Some(event)
    } else {
        None
    }
}

/// The time a directory (by its key) was last reloaded, if it was.
pub open spec fn reload_time(last: Seq<(String, u64)>, k: Seq<char>) -> Option<u64>
    decreases last.len(),
{
    if last.len() == 0 {
        None
    } else if last.last().0@ == k {
        Some(last.last().1)
    } else {
        reload_time(last.drop_last(), k)
    }
}

/// Whether a directory last reloaded at `last` may be reloaded at `now`.
pub open spec fn due(last: Option<u64>, now: u64) -> bool {
    match last {
        None => true,
        Some(t) => now >= t && now - t >= COOLDOWN_MS,
    }
}

/// The tabs watching the directory of key `k`.
pub open spec fn watchers_of(g: Seq<(String, Vec<usize>)>, k: Seq<char>) -> Seq<usize>
    decreases g.len(),
{
    if g.len() == 0 {
        Seq::empty()
    } else if g.last().0@ == k {
        g.last().1@
    } else {
        watchers_of(g.drop_last(), k)
    }
}

/// The requests reload `path` into each of `ids`, in order.
pub open spec fn loads(r: Seq<DirRequest>, ids: Seq<usize>, path: Seq<char>) -> bool {
    &&& r.len() == ids.len()
    &&& forall|i: int| 0 <= i < ids.len() ==> is_load_request(#[trigger] r[i], ids[i], path)
}

/// Finds the reload time of key `k`: its position, if recorded.
fn find_reload(last: &Vec<(String, u64)>, k: &str) -> (r: Option<usize>)
    ensures
        match r {
            Some(j) => j < last@.len() && reload_time(last@, k@) == Some(last@[j as int].1)
                && last@[j as int].0@ == k@
                && forall|m: int| j < m < last@.len() ==> #[trigger] last@[m].0@ != k@,
            None => reload_time(last@, k@) is None,
        },
{
    let mut j: usize = last.len();
    assert(last@.take(j as int) == last@);
    while j > 0
        invariant
            j <= last@.len(),
            reload_time(last@, k@) == reload_time(last@.take(j as int), k@),
            forall|m: int| j <= m < last@.len() ==> #[trigger] last@[m].0@ != k@,
        decreases j,
    {
        assert(last@.take(j as int).drop_last() == last@.take(j - 1));
        if same_text(last[j - 1].0.as_str(), k) {
            return Some(j - 1);
        }
        j = j - 1;
    }
    None
}

/// The tabs watching key `k`, found among the watched directories.
fn find_watchers(g: &Vec<(String, Vec<usize>)>, k: &str) -> (r: Vec<usize>)
    ensures
        r@ == watchers_of(g@, k@),
{
    let mut j: usize = g.len();
    assert(g@.take(j as int) == g@);
    while j > 0
        invariant
            j <= g@.len(),
            watchers_of(g@, k@) == watchers_of(g@.take(j as int), k@),
        decreases j,
    {
        assert(g@.take(j as int).drop_last() == g@.take(j - 1));
        if same_text(g[j - 1].0.as_str(), k) {
            return copy_ids(&g[j - 1].1);
        }
        j = j - 1;
    }
    Vec::new()
}

/// Whether `k` is among `v`.
fn holds_text(v: &Vec<String>, k: &str) -> (r: bool)
    ensures
        r == texts(v@).contains(k@),
{
    let mut i: usize = 0;
    while i < v.len()
        invariant
            i <= v@.len(),
            forall|m: int| 0 <= m < i ==> v@[m]@ != k@,
        decreases v@.len() - i,
    {
        if same_text(v[i].as_str(), k) {
            assert(texts(v@)[i as int] == k@);
            return true;
        }
        i = i + 1;
    }
    assert forall|m: int| 0 <= m < texts(v@).len() implies texts(v@)[m] != k@ by {
        assert(texts(v@)[m] == v@[m]@);
    }
    false
}

impl Watcher {
    /// Handles a change reported at `event_path` at time `now` (in
    /// milliseconds), `reloaded` holding the directories (by key) already
    /// reloaded for the same batch of changes. When the change concerns a
    /// watched directory that is due and not yet reloaded in the batch, each
    /// tab showing it is reloaded, and the directory is marked reloaded now.
    pub fn on_event(&mut self, event_path: &str, now: u64, reloaded: &mut Vec<String>) -> (r: Vec<DirRequest>)
        ensures
            final(self).watched == old(self).watched,
            match event_dir(group_keys(old(self).watched@), event_path@) {
                Some(d) if due(reload_time(old(self).last_reload@, component_key(d)), now)
                    && !texts(old(reloaded)@).contains(component_key(d)) => {
                    &&& loads(r@, watchers_of(old(self).watched@, component_key(d)), d)
                    &&& reload_time(final(self).last_reload@, component_key(d)) == Some(now)
                    &&& forall|k: Seq<char>| k != component_key(d) ==>
                        reload_time(#[trigger] final(self).last_reload@, k) == reload_time(old(self).last_reload@, k)
                    &&& texts(final(reloaded)@) == texts(old(reloaded)@).push(component_key(d))
                },
                _ => {
                    &&& r@.len() == 0
                    &&& final(self).last_reload == old(self).last_reload
                    &&& final(reloaded)@ == old(reloaded)@
                },
            },
    {
        let holder = match parent(event_path) {
            Some(p) => p,
            None => String::from_str(event_path),
        };
        let holder_key = path_key(holder.as_str());
        let event_key = path_key(event_path);
        let dir = if find_key(&self.watched, holder_key.as_str()).is_some() {
            Some((holder, holder_key))
        } else if find_key(&self.watched, event_key.as_str()).is_some() {
            Some((String::from_str(event_path), event_key))
        } else {
            None
        };
        match dir {
            None => Vec::new(),
            Some((d, k)) => {
                let at = find_reload(&self.last_reload, k.as_str());
                let is_due = match at {
                    None => true,
                    Some(j) => {
                        let t = self.last_reload[j].1;
                        now >= t && now - t >= COOLDOWN_MS
                    },
                };
                if !is_due || holds_text(reloaded, k.as_str()) {
                    return Vec::new();
                }
                let ids = find_watchers(&self.watched, k.as_str());
                let mut r: Vec<DirRequest> = Vec::new();
                let mut i: usize = 0;
                while i < ids.len()
                    invariant
                        i <= ids@.len(),
                        r@.len() == i,
                        forall|m: int| 0 <= m < i ==> is_load_request(#[trigger] r@[m], ids@[m], d@),
                    decreases ids@.len() - i,
                {
                    r.push(DirRequest::LoadDirectory { tab_id: ids[i], path: d.clone() });
                    i = i + 1;
                }
                let ghost before = self.last_reload@;
                match at {
                    Some(j) => {
                        self.last_reload.set(j, (k.clone(), now));
                        proof {
                            lemma_reload_time_set(before, j as int, (k, now));
                        }
                    },
                    None => {
                        self.last_reload.push((k.clone(), now));
                        assert(self.last_reload@.drop_last() == before);
                    },
                }
                let ghost old_reloaded = reloaded@;
                reloaded.push(k);
                assert(texts(reloaded@) =~= texts(old_reloaded).push(k@));
                r
            },
        }
    }
}

/// Overwriting the last record of a key: the key's time is the new one,
/// the other keys keep theirs.
proof fn lemma_reload_time_set(s: Seq<(String, u64)>, j: int, p: (String, u64))
    requires
        0 <= j < s.len(),
        s[j].0@ == p.0@,
        reload_time(s, p.0@) == Some(s[j].1),
        forall|m: int| j < m < s.len() ==> s[m].0@ != p.0@,
    ensures
        reload_time(s.update(j, p), p.0@) == Some(p.1),
        forall|k: Seq<char>| k != p.0@ ==> reload_time(#[trigger] s.update(j, p), k) == reload_time(s, k),
    decreases s.len(),
{
    let t = s.update(j, p);
    if j == s.len() - 1 {
        assert(t.drop_last() == s.drop_last());
        assert(t.last() == p);
        assert(s.last().0@ == p.0@);
        assert forall|k: Seq<char>| k != p.0@ implies reload_time(#[trigger] s.update(j, p), k) == reload_time(s, k) by {
            assert(reload_time(t, k) == reload_time(t.drop_last(), k));
            assert(reload_time(s, k) == reload_time(s.drop_last(), k));
        }
    } else {
        assert(t.drop_last() == s.drop_last().update(j, p));
        assert(t.last() == s.last());
        assert(s.last().0@ != p.0@);
        lemma_reload_time_set(s.drop_last(), j, p);
        assert forall|k: Seq<char>| k != p.0@ implies reload_time(#[trigger] s.update(j, p), k) == reload_time(s, k) by {
            if s.last().0@ != k {
                assert(reload_time(t, k) == reload_time(t.drop_last(), k));
                assert(reload_time(s, k) == reload_time(s.drop_last(), k));
                assert(reload_time(s.drop_last().update(j, p), k) == reload_time(s.drop_last(), k));
            }
        }
    }
}

/// A directory reloaded at `t` is not reloaded again for a change
/// reported before `t + COOLDOWN_MS`, and is again from then on.
pub proof fn law_reload_cooldown(t: u64, now: u64)
    ensures
        now < t + COOLDOWN_MS ==> !due(Some(t), now),
        now >= t + COOLDOWN_MS ==> due(Some(t), now),
{
}

} // verus!
