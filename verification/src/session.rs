//! Saved sessions and named workspaces: which tabs were open and which
//! panels were shown. Locating the files is here; reading and writing them
//! is not.
use vstd::prelude::*;
use crate::paths::{join, path_join};
use crate::text::{opt_text, same_text};

verus! {

/// The open tabs and panels of the last run.
pub struct Session {
    pub tabs: Vec<TabSession>,
    pub show_sidebar: bool,
    pub show_preview: bool,
}

/// One saved tab.
pub struct TabSession {
    pub path: String,
}

/// A named layout the user can switch back to.
pub struct Workspace {
    pub name: String,
    pub tabs: Vec<TabSession>,
    pub show_sidebar: bool,
    pub show_preview: bool,
}

/// All saved workspaces.
pub struct WorkspaceStore {
    pub workspaces: Vec<Workspace>,
}

impl Default for WorkspaceStore {
    fn default() -> (r: WorkspaceStore)
        ensures
            r.workspaces@.len() == 0,
    {
        WorkspaceStore { workspaces: Vec::new() }
    }
}

/// The directory the application keeps its files in, below `base` (the
/// current directory when there is none).
pub open spec fn app_config_dir(base: Option<Seq<char>>) -> Seq<char> {
    path_join(
        match base {
            Some(b) => b,
            None => "."@,
        },
        "xplorer"@,
    )
}

/// The application's directory below a given configuration directory.
pub fn config_dir_under(base: Option<String>) -> (r: String)
    ensures
        r@ == app_config_dir(opt_text(base)),
{
    match base {
        Some(b) => join(&b, "xplorer"),
        None => join(".", "xplorer"),
    }
}


/// The application's configuration directory.
pub fn config_dir() -> (r: String)
    ensures
        exists|base: Option<Seq<char>>| r@ == app_config_dir(base),
{
    let base = crate::user_dirs::config_dir();
    config_dir_under(base)
}

/// Where the session is saved.
pub fn session_path() -> (r: String)
    ensures
        exists|base: Option<Seq<char>>| r@ == path_join(app_config_dir(base), "session.json"@),
{
    let dir = config_dir();
    join(&dir, "session.json")
}

/// Where the workspaces are saved.
pub fn workspaces_path() -> (r: String)
    ensures
        exists|base: Option<Seq<char>>| r@ == path_join(app_config_dir(base), "workspaces.json"@),
{
    let dir = config_dir();
    join(&dir, "workspaces.json")
}

/// Index of the first workspace named `n`, or -1.
pub open spec fn index_of_name(s: Seq<Workspace>, n: Seq<char>) -> int
    decreases s.len(),
{
    if s.len() == 0 {
        -1
    } else if s[0].name@ == n {
        0
    } else {
        let k = index_of_name(s.drop_first(), n);
        if k < 0 { -1 } else { k + 1 }
    }
}

/// `w` holds the given layout.
pub open spec fn holds_layout(w: Workspace, tabs: Vec<TabSession>, show_sidebar: bool, show_preview: bool) -> bool {
    w.tabs == tabs && w.show_sidebar == show_sidebar && w.show_preview == show_preview
}

/// `new` is `old` after saving a layout under `name`: the first workspace of
/// that name takes the layout; without one, a new workspace is appended.
pub open spec fn save_post(
    old: Seq<Workspace>,
    name: Seq<char>,
    tabs: Vec<TabSession>,
    show_sidebar: bool,
    show_preview: bool,
    new: Seq<Workspace>,
) -> bool {
    let k = index_of_name(old, name);
    if k >= 0 {
        &&& new.len() == old.len()
        &&& forall|i: int| 0 <= i < old.len() && i != k ==> new[i] == old[i]
        &&& new[k].name == old[k].name
        &&& holds_layout(new[k], tabs, show_sidebar, show_preview)
    } else {
        &&& new.len() == old.len() + 1
        &&& forall|i: int| 0 <= i < old.len() ==> new[i] == old[i]
        &&& new[old.len() as int].name@ == name
        &&& holds_layout(new[old.len() as int], tabs, show_sidebar, show_preview)
    }
}

/// `s` without the workspaces named `n`, in order.
pub open spec fn without_name(s: Seq<Workspace>, n: Seq<char>) -> Seq<Workspace>
    decreases s.len(),
{
    if s.len() == 0 {
        s
    } else {
        let rest = without_name(s.drop_last(), n);
        if s.last().name@ == n { rest } else { rest.push(s.last()) }
    }
}

proof fn lemma_index_of_name(s: Seq<Workspace>, n: Seq<char>)
    ensures
        -1 <= index_of_name(s, n) < s.len(),
        index_of_name(s, n) >= 0 ==> s[index_of_name(s, n)].name@ == n,
        forall|i: int| 0 <= i < s.len() && (index_of_name(s, n) < 0 || i < index_of_name(s, n))
            ==> (#[trigger] s[i]).name@ != n,
    decreases s.len(),
{
    if s.len() > 0 && s[0].name@ != n {
        lemma_index_of_name(s.drop_first(), n);
        assert forall|i: int| 0 <= i < s.len() && (index_of_name(s, n) < 0 || i < index_of_name(s, n))
            implies (#[trigger] s[i]).name@ != n by {
            if i > 0 {
                assert(s[i] == s.drop_first()[i - 1]);
            }
        }
    }
}

/// Save the current layout as a named workspace, replacing the layout of a
/// workspace of that name.
pub fn save_workspace(
    store: &mut WorkspaceStore,
    name: &str,
    tabs: Vec<TabSession>,
    show_sidebar: bool,
    show_preview: bool,
)
    ensures
        save_post(old(store).workspaces@, name@, tabs, show_sidebar, show_preview, final(store).workspaces@),
{
    proof {
        lemma_index_of_name(store.workspaces@, name@);
    }
    let mut i: usize = 0;
    while i < store.workspaces.len()
        invariant
            i <= store.workspaces@.len(),
            store.workspaces@ == old(store).workspaces@,
            forall|j: int| 0 <= j < i ==> (#[trigger] store.workspaces@[j]).name@ != name@,
        decreases store.workspaces@.len() - i,
    {
        if same_text(&store.workspaces[i].name, name) {
            proof {
                lemma_index_of_name(store.workspaces@, name@);
                let k = index_of_name(store.workspaces@, name@);
                if k >= 0 && k < i {
                    assert(store.workspaces@[k].name@ != name@);
                }
                if k < 0 || k > i {
                    assert(store.workspaces@[i as int].name@ == name@);
                }
                assert(k == i as int);
            }
            let existing_name = store.workspaces[i].name.clone();
            let w = Workspace { name: existing_name, tabs, show_sidebar, show_preview };
            store.workspaces.set(i, w);
            return;
        }
        i = i + 1;
    }
    proof {
        lemma_index_of_name(store.workspaces@, name@);
        if index_of_name(store.workspaces@, name@) >= 0 {
            let k = index_of_name(store.workspaces@, name@);
            assert(store.workspaces@[k].name@ == name@);
        }
    }
    store.workspaces.push(Workspace { name: String::from_str(name), tabs, show_sidebar, show_preview });
}

/// Delete every workspace with the given name.
pub fn delete_workspace(store: &mut WorkspaceStore, name: &str)
    ensures
        final(store).workspaces@ == without_name(old(store).workspaces@, name@),
{
    let mut kept: Vec<Workspace> = Vec::new();
    let ghost all = store.workspaces@;
    let mut rest: Vec<Workspace> = Vec::new();
    std::mem::swap(&mut rest, &mut store.workspaces);
    let n = rest.len();
    let mut i: usize = 0;
    while i < n
        invariant
            n == all.len(),
            i <= n,
            rest@ == all.skip(i as int),
            kept@ == without_name(all.take(i as int), name@),
        decreases n - i,
    {
        let w = rest.remove(0);
        assert(all.take(i + 1).drop_last() == all.take(i as int));
        assert(w == all[i as int]);
        if !same_text(&w.name, name) {
            kept.push(w);
        }
        i = i + 1;
        assert(rest@ == all.skip(i as int));
    }
    assert(all.take(n as int) == all);
    store.workspaces = kept;
}

/// Saving then looking a workspace up by name finds the saved layout.
pub proof fn law_save_then_find(
    old: Seq<Workspace>,
    name: Seq<char>,
    tabs: Vec<TabSession>,
    show_sidebar: bool,
    show_preview: bool,
    new: Seq<Workspace>,
)
    requires
        save_post(old, name, tabs, show_sidebar, show_preview, new),
    ensures
        index_of_name(new, name) >= 0,
        holds_layout(new[index_of_name(new, name)], tabs, show_sidebar, show_preview),
        index_of_name(old, name) >= 0 ==> new.len() == old.len(),
{
    lemma_index_of_name(old, name);
    lemma_index_of_name(new, name);
    let k = index_of_name(old, name);
    if k >= 0 {
        let j = index_of_name(new, name);
        assert(new[k].name@ == name);
        if j >= 0 && j < k {
            assert(new[j] == old[j]);
        }
    } else {
        let j = index_of_name(new, name);
        assert(new[old.len() as int].name@ == name);
        if j >= 0 && j < old.len() {
            assert(new[j] == old[j]);
        }
    }
}

/// After deleting a name, no workspace has it.
pub proof fn law_delete_removes_name(s: Seq<Workspace>, n: Seq<char>)
    ensures
        index_of_name(without_name(s, n), n) == -1,
        without_name(s, n).len() <= s.len(),
    decreases s.len(),
{
    lemma_without_name_names(s, n);
    lemma_index_of_name(without_name(s, n), n);
    let r = without_name(s, n);
    if index_of_name(r, n) >= 0 {
        assert(r[index_of_name(r, n)].name@ == n);
    }
}

proof fn lemma_without_name_names(s: Seq<Workspace>, n: Seq<char>)
    ensures
        forall|i: int| 0 <= i < without_name(s, n).len() ==> (#[trigger] without_name(s, n)[i]).name@ != n,
        without_name(s, n).len() <= s.len(),
    decreases s.len(),
{
    if s.len() > 0 {
        lemma_without_name_names(s.drop_last(), n);
    }
}

} // verus!
