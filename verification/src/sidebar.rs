//! The sidebar: the quick-access folders, the drives with the one holding
//! the current folder marked, and the favorites.
use vstd::prelude::*;
use vstd::utf8::encode_utf8;
use crate::text::chars_of;
use crate::user_dirs::{desktop_dir, document_dir, download_dir, home_dir};
use crate::types::DriveInfo;

verus! {

/// The quick-access entries for the known folders, in the order Home,
/// Desktop, Documents, Downloads, leaving out those that are unknown.
pub open spec fn quick_access_of(
    home: Option<Seq<char>>,
    desktop: Option<Seq<char>>,
    documents: Option<Seq<char>>,
    downloads: Option<Seq<char>>,
) -> Seq<(Seq<char>, Seq<char>)> {
    (match home { Some(p) => seq![("Home"@, p)], None => Seq::empty() })
        + (match desktop { Some(p) => seq![("Desktop"@, p)], None => Seq::empty() })
        + (match documents { Some(p) => seq![("Documents"@, p)], None => Seq::empty() })
        + (match downloads { Some(p) => seq![("Downloads"@, p)], None => Seq::empty() })
}

/// The label and path of each entry, as text.
pub open spec fn entry_views(v: Seq<(String, String)>) -> Seq<(Seq<char>, Seq<char>)> {
    Seq::new(v.len(), |i: int| (v[i].0@, v[i].1@))
}

/// Appends an entry for a known folder.
fn push_known(v: &mut Vec<(String, String)>, label: &str, path: Option<String>)
    ensures
        entry_views(final(v)@) == entry_views(old(v)@) + (match path {
            Some(p) => seq![(label@, p@)],
            None => Seq::empty(),
        }),
{
    let ghost before = v@;
    match path {
        Some(p) => {
            v.push((String::from_str(label), p));
            assert(entry_views(v@) =~= entry_views(before) + seq![(label@, v@.last().1@)]);
        },
        None => {
            assert(entry_views(v@) =~= entry_views(before) + Seq::empty());
        },
    }
}

/// The quick-access entries (label, folder) for the folders given.
pub fn quick_access_entries(
    home: Option<String>,
    desktop: Option<String>,
    documents: Option<String>,
    downloads: Option<String>,
) -> (r: Vec<(String, String)>)
    ensures
        entry_views(r@) == quick_access_of(
            crate::text::opt_text(home),
            crate::text::opt_text(desktop),
            crate::text::opt_text(documents),
            crate::text::opt_text(downloads),
        ),
{
    let mut v: Vec<(String, String)> = Vec::new();
    assert(entry_views(v@) =~= Seq::empty());
    push_known(&mut v, "Home", home);
    push_known(&mut v, "Desktop", desktop);
    push_known(&mut v, "Documents", documents);
    push_known(&mut v, "Downloads", downloads);
    v
}

/// The quick-access entries of this machine.
pub fn quick_access() -> (r: Vec<(String, String)>)
    ensures
        exists|a: Option<Seq<char>>, b: Option<Seq<char>>, c: Option<Seq<char>>, d: Option<Seq<char>>|
            entry_views(r@) == quick_access_of(a, b, c, d),
{
    let home = home_dir();
    let desktop = desktop_dir();
    let documents = document_dir();
    let downloads = download_dir();
    let ghost (a, b, c, d) = (
        crate::text::opt_text(home),
        crate::text::opt_text(desktop),
        crate::text::opt_text(documents),
        crate::text::opt_text(downloads),
    );
    let r = quick_access_entries(home, desktop, documents, downloads);
    assert(entry_views(r@) == quick_access_of(a, b, c, d));
    r
}

/// The label of a drive: its name, then its mount point in parentheses.
pub fn drive_label(d: &DriveInfo) -> (r: String)
    ensures
        r@ == d.name@ + " ("@ + d.mount_point@ + ")"@,
{
    String::from_str(d.name.as_str()).concat(" (").concat(d.mount_point.as_str()).concat(")")
}

/// The space used on a drive: its capacity less what is available, or 0.
pub fn drive_used(d: &DriveInfo) -> (r: u64)
    ensures
        r == (if d.total_space >= d.available_space { d.total_space - d.available_space } else { 0 }),
{
    d.total_space.saturating_sub(d.available_space)
}

/// `p` begins `s`.
pub open spec fn is_prefix(p: Seq<char>, s: Seq<char>) -> bool {
    p.len() <= s.len() && s.take(p.len() as int) == p
}

/// Whether `s` begins with `p`.
pub fn starts_with(s: &str, p: &str) -> (r: bool)
    ensures
        r == is_prefix(p@, s@),
{
    let sv = chars_of(s);
    let pv = chars_of(p);
    if pv.len() > sv.len() {
        return false;
    }
    let mut i: usize = 0;
    while i < pv.len()
        invariant
            sv@ == s@,
            pv@ == p@,
            pv@.len() <= sv@.len(),
            i <= pv@.len(),
            sv@.take(i as int) == pv@.take(i as int),
        decreases pv@.len() - i,
    {
        if sv[i] != pv[i] {
            assert(sv@.take(pv@.len() as int)[i as int] == sv@[i as int]);
            assert(sv@.take(pv@.len() as int) != pv@);
            return false;
        }
        i = i + 1;
        assert(sv@.take(i as int) == sv@.take(i - 1).push(sv@[i - 1]));
        assert(pv@.take(i as int) == pv@.take(i - 1).push(pv@[i - 1]));
    }
    assert(pv@.take(i as int) == pv@);
    true
}

/// The length in bytes of a text.
pub open spec fn byte_len(s: Seq<char>) -> nat {
    encode_utf8(s).len()
}

/// Whether drive `i` holds `active`: its mount point begins `active`, and
/// no other drive whose mount point begins it has a longer one (in bytes).
pub open spec fn holds_active(active: Seq<char>, drives: Seq<DriveInfo>, i: int) -> bool {
    &&& is_prefix(drives[i].mount_point@, active)
    &&& forall|j: int| 0 <= j < drives.len() && is_prefix((#[trigger] drives[j]).mount_point@, active)
        ==> byte_len(drives[j].mount_point@) <= byte_len(drives[i].mount_point@)
}

/// Whether the drive at `i` is marked as holding the folder `active`.
pub fn drive_is_active(active: &str, drives: &Vec<DriveInfo>, i: usize) -> (r: bool)
    requires
        i < drives@.len(),
    ensures
        r == holds_active(active@, drives@, i as int),
{
    if !starts_with(active, drives[i].mount_point.as_str()) {
        return false;
    }
    let own: usize = drives[i].mount_point.as_str().as_bytes().len();
    let mut j: usize = 0;
    while j < drives.len()
        invariant
            i < drives@.len(),
            j <= drives@.len(),
            own == byte_len(drives@[i as int].mount_point@),
            forall|k: int| 0 <= k < j && is_prefix((#[trigger] drives@[k]).mount_point@, active@)
                ==> byte_len(drives@[k].mount_point@) <= own,
        decreases drives@.len() - j,
    {
        if starts_with(active, drives[j].mount_point.as_str())
            && drives[j].mount_point.as_str().as_bytes().len() > own {
            return false;
        }
        j = j + 1;
    }
    true
}

} // verus!
