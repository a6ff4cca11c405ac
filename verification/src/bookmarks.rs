//! Favourite locations, kept once per path in the order they were added,
//! and where they are stored. The list lives with the caller; reading and
//! writing the file is not part of this module.
use vstd::prelude::*;
use crate::error::CoreError;
use crate::paths::{join, path_join};
use crate::text::same_text;
use crate::types::Bookmark;

verus! {

/// `s` without the bookmarks for path `p`, in order.
pub open spec fn without_path(s: Seq<Bookmark>, p: Seq<char>) -> Seq<Bookmark>
    decreases s.len(),
{
    if s.len() == 0 {
        s
    } else {
        let rest = without_path(s.drop_last(), p);
        if s.last().path@ == p {
            rest
        } else {
            rest.push(s.last())
        }
    }
}

/// Whether some bookmark is for path `p`.
pub open spec fn has_path(s: Seq<Bookmark>, p: Seq<char>) -> bool {
    exists|i: int| 0 <= i < s.len() && (#[trigger] s[i]).path@ == p
}

/// No two bookmarks share a path.
pub open spec fn unique_paths(s: Seq<Bookmark>) -> bool {
    forall|i: int, j: int| 0 <= i < j < s.len() ==> (#[trigger] s[i]).path@ != (#[trigger] s[j]).path@
}

/// Get all bookmarks.
pub fn get_bookmarks(store: &Vec<Bookmark>) -> (r: Vec<Bookmark>)
    ensures
        r@ == store@,
{
    let mut r: Vec<Bookmark> = Vec::new();
    let mut i: usize = 0;
    while i < store.len()
        invariant
            i <= store@.len(),
            r@ == store@.take(i as int),
        decreases store@.len() - i,
    {
        r.push(store[i].duplicate());
        i = i + 1;
        assert(store@.take(i as int) == store@.take((i - 1) as int).push(store@[i - 1]));
    }
    assert(store@.take(store@.len() as int) == store@);
    r
}

fn retain_other_paths(store: &Vec<Bookmark>, path: &str) -> (r: Vec<Bookmark>)
    ensures
        r@ == without_path(store@, path@),
{
    let mut r: Vec<Bookmark> = Vec::new();
    let mut i: usize = 0;
    while i < store.len()
        invariant
            i <= store@.len(),
            r@ == without_path(store@.take(i as int), path@),
        decreases store@.len() - i,
    {
        assert(store@.take(i + 1).drop_last() == store@.take(i as int));
        if !same_text(&store[i].path, path) {
            r.push(store[i].duplicate());
        }
        i = i + 1;
    }
    assert(store@.take(store@.len() as int) == store@);
    r
}

/// Add a bookmark. Deduplicates by path.
pub fn add_bookmark(store: &mut Vec<Bookmark>, name: String, path: String) -> (b: Bookmark)
    ensures
        b.name == name,
        b.path == path,
        final(store)@ == without_path(old(store)@, path@).push(b),
{
    let bookmark = Bookmark { name, path: path.clone() };
    let mut kept = retain_other_paths(store, &path);
    kept.push(bookmark.duplicate());
    *store = kept;
    bookmark
}

/// Remove a bookmark by path.
pub fn remove_bookmark(store: &mut Vec<Bookmark>, path: &str)
    ensures
        final(store)@ == without_path(old(store)@, path@),
{
    let kept = retain_other_paths(store, path);
    *store = kept;
}

/// What removal keeps: exactly the bookmarks for other paths, in order.
pub proof fn lemma_without_path_members(s: Seq<Bookmark>, p: Seq<char>)
    ensures
        !has_path(without_path(s, p), p),
        forall|b: Bookmark| #[trigger] without_path(s, p).contains(b) <==> s.contains(b) && b.path@ != p,
        without_path(s, p).len() <= s.len(),
        unique_paths(s) ==> unique_paths(without_path(s, p)),
    decreases s.len(),
{
    if s.len() > 0 {
        let rest = without_path(s.drop_last(), p);
        lemma_without_path_members(s.drop_last(), p);
        assert forall|b: Bookmark| #[trigger] without_path(s, p).contains(b) <==> s.contains(b) && b.path@ != p by {
            let d = s.drop_last();
            assert(s.contains(b) <==> d.contains(b) || b == s.last()) by {
                if s.contains(b) {
                    let i = choose|i: int| 0 <= i < s.len() && s[i] == b;
                    if i < s.len() - 1 {
                        assert(d[i] == b);
                    }
                }
                if d.contains(b) {
                    let i = choose|i: int| 0 <= i < d.len() && d[i] == b;
                    assert(s[i] == b);
                }
                if b == s.last() {
                    assert(s[s.len() - 1] == b);
                }
            }
            if s.last().path@ != p {
                assert(rest.push(s.last()).contains(b) <==> rest.contains(b) || b == s.last()) by {
                    if rest.push(s.last()).contains(b) {
                        let i = choose|i: int| 0 <= i < rest.len() + 1 && rest.push(s.last())[i] == b;
                        if i < rest.len() {
                            assert(rest[i] == b);
                        }
                    }
                    if rest.contains(b) {
                        let i = choose|i: int| 0 <= i < rest.len() && rest[i] == b;
                        assert(rest.push(s.last())[i] == b);
                    }
                    if b == s.last() {
                        assert(rest.push(s.last())[rest.len() as int] == b);
                    }
                }
            }
        }
        if unique_paths(s) {
            assert(unique_paths(s.drop_last()));
            if s.last().path@ != p {
                assert forall|i: int, j: int| 0 <= i < j < rest.push(s.last()).len() implies
                    (#[trigger] rest.push(s.last())[i]).path@ != (#[trigger] rest.push(s.last())[j]).path@ by {
                    if j == rest.len() {
                        assert(rest.contains(rest[i]));
                        assert(s.drop_last().contains(rest[i]));
                        let k = choose|k: int| 0 <= k < s.drop_last().len() && s.drop_last()[k] == rest[i];
                        assert(s[k] == rest[i]);
                        assert(s[s.len() - 1] == s.last());
                    }
                }
            }
        }
        assert(!has_path(without_path(s, p), p)) by {
            if has_path(without_path(s, p), p) {
                let i = choose|i: int| 0 <= i < without_path(s, p).len() && (#[trigger] without_path(s, p)[i]).path@ == p;
                assert(without_path(s, p).contains(without_path(s, p)[i]));
            }
        }
    }
}

/// After adding a bookmark for a path, the list holds exactly one bookmark
/// for that path, the new one, at the end; and paths stay unique.
pub proof fn law_add_deduplicates(s: Seq<Bookmark>, b: Bookmark, r: Seq<Bookmark>)
    requires
        r == without_path(s, b.path@).push(b),
    ensures
        r.last() == b,
        forall|i: int| 0 <= i < r.len() - 1 ==> (#[trigger] r[i]).path@ != b.path@,
        unique_paths(s) ==> unique_paths(r),
{
    lemma_without_path_members(s, b.path@);
    let w = without_path(s, b.path@);
    assert forall|i: int| 0 <= i < r.len() - 1 implies (#[trigger] r[i]).path@ != b.path@ by {
        assert(r[i] == w[i]);
    }
}

/// After removing a path, no bookmark for it remains, and the others keep
/// their order.
pub proof fn law_remove_drops_path(s: Seq<Bookmark>, p: Seq<char>, r: Seq<Bookmark>)
    requires
        r == without_path(s, p),
    ensures
        !has_path(r, p),
        forall|b: Bookmark| #[trigger] r.contains(b) <==> s.contains(b) && b.path@ != p,
{
    lemma_without_path_members(s, p);
}

/// Removing the path just added leaves the list as it was without that path.
pub proof fn law_remove_after_add(s: Seq<Bookmark>, b: Bookmark)
    ensures
        without_path(without_path(s, b.path@).push(b), b.path@) == without_path(s, b.path@),
{
    lemma_without_path_idempotent(s, b.path@);
    assert(without_path(s, b.path@).push(b).drop_last() == without_path(s, b.path@));
}

proof fn lemma_without_path_idempotent(s: Seq<Bookmark>, p: Seq<char>)
    ensures
        without_path(without_path(s, p), p) == without_path(s, p),
    decreases s.len(),
{
    if s.len() > 0 {
        lemma_without_path_idempotent(s.drop_last(), p);
        let rest = without_path(s.drop_last(), p);
        if s.last().path@ != p {
            assert(rest.push(s.last()).drop_last() == rest);
        }
    }
}

/// The directory the bookmarks are kept in, below the data directory
/// `base`; without a data directory there is none.
pub fn bookmarks_dir_under(base: Option<String>) -> (r: Result<String, CoreError>)
    ensures
        match base {
            Some(b) => r matches Ok(d) && d@ == path_join(b@, "xplorer-egui"@),
            None => r matches Err(CoreError::Other(m)) && m@ == "Failed to get app data directory"@,
        },
{
    match base {
        Some(b) => Ok(join(b.as_str(), "xplorer-egui")),
        None => Err(CoreError::Other(String::from_str("Failed to get app data directory"))),
    }
}

/// The directory the bookmarks are kept in.
pub fn bookmarks_dir() -> (r: Result<String, CoreError>)
    ensures
        match r {
            Ok(d) => exists|b: Seq<char>| d@ == path_join(b, "xplorer-egui"@),
            Err(e) => e matches CoreError::Other(m) && m@ == "Failed to get app data directory"@,
        },
{
    let base = crate::user_dirs::data_dir();
    bookmarks_dir_under(base)
}

/// The file the bookmarks are kept in, inside their directory.
pub fn bookmarks_file(dir: &str) -> (r: String)
    ensures
        r@ == path_join(dir@, "bookmarks.json"@),
{
    join(dir, "bookmarks.json")
}

} // verus!
