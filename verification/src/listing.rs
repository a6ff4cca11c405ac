//! The order of a directory listing: directories before files, then by the
//! chosen column, ascending or descending, with ties kept in their original
//! order (a stable sort).
use vstd::prelude::*;
use crate::text::{compare_chars, compare_text, lowercase, to_lowercase,
    lemma_compare_chars_antisymmetric, lemma_compare_chars_transitive};
use crate::types::FileEntry;

verus! {

/// The column a listing is ordered by.
#[derive(Debug, Clone, Copy, PartialEq, Eq, Structural)]
pub enum SortColumn {
    Name,
    Size,
    Type,
    Modified,
}

/// Three-way comparison of integers: -1, 0 or 1.
pub open spec fn sign_order(x: int, y: int) -> int {
    if x < y { -1 } else if x > y { 1 } else { 0 }
}

/// How two entries compare on one column: names case-insensitively (by
/// their lowercase forms), types as written, sizes and times numerically.
pub open spec fn column_order(a: FileEntry, b: FileEntry, col: SortColumn) -> int {
    match col {
        SortColumn::Name => compare_chars(lowercase(a.name@), lowercase(b.name@)),
        SortColumn::Size => sign_order(a.size as int, b.size as int),
        SortColumn::Type => compare_chars(a.file_type@, b.file_type@),
        SortColumn::Modified => sign_order(a.modified as int, b.modified as int),
    }
}

/// How two entries compare in a listing: a directory comes before a file;
/// otherwise the column decides, reversed when not ascending.
pub open spec fn entry_order(a: FileEntry, b: FileEntry, col: SortColumn, asc: bool) -> int {
    if a.is_dir && !b.is_dir {
        -1
    } else if !a.is_dir && b.is_dir {
        1
    } else if asc {
        column_order(a, b, col)
    } else {
        -column_order(a, b, col)
    }
}

/// `perm` shows that `r` is `s` stably sorted: `r[i]` is `s[perm[i]]`, every
/// element of `s` is used once, and consecutive elements of `r` are in order,
/// ties in their original order.
pub open spec fn stable_sort_witness(
    s: Seq<FileEntry>,
    r: Seq<FileEntry>,
    perm: Seq<int>,
    col: SortColumn,
    asc: bool,
) -> bool {
    &&& r.len() == s.len()
    &&& perm.len() == s.len()
    &&& forall|i: int| 0 <= i < r.len() ==> 0 <= #[trigger] perm[i] < s.len() && r[i] == s[perm[i]]
    &&& forall|i: int, j: int| 0 <= i < j < r.len() ==> #[trigger] perm[i] != #[trigger] perm[j]
    &&& forall|i: int, j: int|
        0 <= i < j < r.len() ==> {
            let o = entry_order(#[trigger] r[i], #[trigger] r[j], col, asc);
            o < 0 || (o == 0 && perm[i] < perm[j])
        }
}

/// `r` is `s` stably sorted by `entry_order` on `col`.
pub open spec fn is_stable_sort(s: Seq<FileEntry>, r: Seq<FileEntry>, col: SortColumn, asc: bool) -> bool {
    exists|perm: Seq<int>| stable_sort_witness(s, r, perm, col, asc)
}

/// A sorted listing keeps its promise: directories come before files, and
/// within each group the order follows the column.
pub proof fn law_sorted_listing_in_order(s: Seq<FileEntry>, r: Seq<FileEntry>, col: SortColumn, asc: bool)
    requires
        is_stable_sort(s, r, col, asc),
    ensures
        forall|i: int, j: int| 0 <= i < j < r.len() && #[trigger] r[j].is_dir ==> #[trigger] r[i].is_dir,
        forall|i: int, j: int|
            0 <= i < j < r.len() && r[i].is_dir == r[j].is_dir ==> (if asc {
                column_order(#[trigger] r[i], #[trigger] r[j], col) <= 0
            } else {
                column_order(r[i], r[j], col) >= 0
            }),
{
    let perm = choose|perm: Seq<int>| stable_sort_witness(s, r, perm, col, asc);
    assert forall|i: int, j: int| 0 <= i < j < r.len() && #[trigger] r[j].is_dir implies #[trigger] r[i].is_dir by {
        let o = entry_order(r[i], r[j], col, asc);
        assert(o <= 0);
    }
    assert forall|i: int, j: int|
        0 <= i < j < r.len() && r[i].is_dir == r[j].is_dir implies (if asc {
            column_order(#[trigger] r[i], #[trigger] r[j], col) <= 0
        } else {
            column_order(r[i], r[j], col) >= 0
        }) by {
        let o = entry_order(r[i], r[j], col, asc);
        assert(o <= 0);
    }
}

/// A stable sort rearranges the entries without adding or dropping any.
pub proof fn law_sort_is_permutation(s: Seq<FileEntry>, r: Seq<FileEntry>, col: SortColumn, asc: bool)
    requires
        is_stable_sort(s, r, col, asc),
    ensures
        r.len() == s.len(),
        forall|i: int| 0 <= i < r.len() ==> s.contains(#[trigger] r[i]),
        forall|k: int| 0 <= k < s.len() ==> r.contains(#[trigger] s[k]),
{
    let perm = choose|perm: Seq<int>| stable_sort_witness(s, r, perm, col, asc);
    assert forall|i: int| 0 <= i < r.len() implies s.contains(#[trigger] r[i]) by {
        assert(r[i] == s[perm[i]]);
    }
    assert forall|k: int| 0 <= k < s.len() implies r.contains(#[trigger] s[k]) by {
        lemma_permutation_onto(perm, s.len() as int);
        assert(hits(perm, s.len() as int, k));
        let i = choose|i: int| 0 <= i < s.len() && perm[i] == k;
        assert(r[i] == s[k]);
    }
}

/// Some index below `n` maps to `k`.
pub open spec fn hits(perm: Seq<int>, n: int, k: int) -> bool {
    exists|i: int| 0 <= i < n && perm[i] == k
}

/// An injective map of `0..n` into `0..n` reaches every value.
pub proof fn lemma_permutation_onto(perm: Seq<int>, n: int)
    requires
        perm.len() == n,
        forall|i: int| 0 <= i < n ==> 0 <= #[trigger] perm[i] < n,
        forall|i: int, j: int| 0 <= i < j < n ==> #[trigger] perm[i] != #[trigger] perm[j],
    ensures
        forall|k: int| 0 <= k < n ==> #[trigger] hits(perm, n, k),
{
    let img = Set::new(|k: int| exists|i: int| 0 <= i < n && perm[i] == k);
    let dom = Set::new(|k: int| 0 <= k < n);
    assert(img.subset_of(dom));
    vstd::set_lib::lemma_int_range(0, n);
    assert(dom == vstd::set_lib::set_int_range(0, n));
    lemma_image_size(perm, n);
    assert forall|k: int| 0 <= k < n implies #[trigger] hits(perm, n, k) by {
        if !img.contains(k) {
            vstd::set_lib::lemma_len_subset(img, dom.remove(k));
        }
    }
}

proof fn lemma_image_size(perm: Seq<int>, n: int)
    requires
        0 <= n <= perm.len(),
        forall|i: int, j: int| 0 <= i < j < perm.len() ==> #[trigger] perm[i] != #[trigger] perm[j],
    ensures
        Set::new(|k: int| exists|i: int| 0 <= i < n && perm[i] == k).finite(),
        Set::new(|k: int| exists|i: int| 0 <= i < n && perm[i] == k).len() == n,
    decreases n,
{
    let img = Set::new(|k: int| exists|i: int| 0 <= i < n && perm[i] == k);
    if n == 0 {
        assert(img =~= Set::empty());
    } else {
        lemma_image_size(perm, n - 1);
        let prev = Set::new(|k: int| exists|i: int| 0 <= i < n - 1 && perm[i] == k);
        assert(img =~= prev.insert(perm[n - 1]));
        assert(!prev.contains(perm[n - 1]));
    }
}

/// The listing order is antisymmetric.
pub proof fn lemma_entry_order_antisymmetric(a: FileEntry, b: FileEntry, col: SortColumn, asc: bool)
    ensures
        entry_order(a, b, col, asc) == -entry_order(b, a, col, asc),
{
    match col {
        SortColumn::Name => lemma_compare_chars_antisymmetric(lowercase(a.name@), lowercase(b.name@)),
        SortColumn::Type => lemma_compare_chars_antisymmetric(a.file_type@, b.file_type@),
        _ => {},
    }
}

/// The listing order is transitive.
pub proof fn lemma_entry_order_transitive(
    a: FileEntry,
    b: FileEntry,
    c: FileEntry,
    col: SortColumn,
    asc: bool,
)
    requires
        entry_order(a, b, col, asc) <= 0,
        entry_order(b, c, col, asc) <= 0,
    ensures
        entry_order(a, c, col, asc) <= 0,
{
    if a.is_dir == b.is_dir && b.is_dir == c.is_dir {
        match col {
            SortColumn::Name => {
                let (x, y, z) = (lowercase(a.name@), lowercase(b.name@), lowercase(c.name@));
                if asc {
                    lemma_compare_chars_transitive(x, y, z);
                } else {
                    lemma_compare_chars_antisymmetric(x, y);
                    lemma_compare_chars_antisymmetric(y, z);
                    lemma_compare_chars_antisymmetric(x, z);
                    lemma_compare_chars_transitive(z, y, x);
                }
            },
            SortColumn::Type => {
                let (x, y, z) = (a.file_type@, b.file_type@, c.file_type@);
                if asc {
                    lemma_compare_chars_transitive(x, y, z);
                } else {
                    lemma_compare_chars_antisymmetric(x, y);
                    lemma_compare_chars_antisymmetric(y, z);
                    lemma_compare_chars_antisymmetric(x, z);
                    lemma_compare_chars_transitive(z, y, x);
                }
            },
            _ => {},
        }
    }
}

proof fn lemma_column_order_range(a: FileEntry, b: FileEntry, col: SortColumn)
    ensures
        -1 <= column_order(a, b, col) <= 1,
{
    match col {
        SortColumn::Name => crate::text::lemma_compare_chars_range(lowercase(a.name@), lowercase(b.name@)),
        SortColumn::Type => crate::text::lemma_compare_chars_range(a.file_type@, b.file_type@),
        _ => {},
    }
}

fn sign_of_u64(x: u64, y: u64) -> (r: i8)
    ensures
        r as int == sign_order(x as int, y as int),
{
    if x < y { -1 } else if x > y { 1 } else { 0 }
}

fn sign_of_i64(x: i64, y: i64) -> (r: i8)
    ensures
        r as int == sign_order(x as int, y as int),
{
    if x < y { -1 } else if x > y { 1 } else { 0 }
}

/// Compares two entries in listing order.
pub fn compare_entries(a: &FileEntry, b: &FileEntry, col: SortColumn, asc: bool) -> (r: i8)
    ensures
        r as int == entry_order(*a, *b, col, asc),
{
    if a.is_dir && !b.is_dir {
        return -1;
    }
    if !a.is_dir && b.is_dir {
        return 1;
    }
    let c = match col {
        SortColumn::Name => {
            let x = to_lowercase(&a.name);
            let y = to_lowercase(&b.name);
            compare_text(&x, &y)
        },
        SortColumn::Size => sign_of_u64(a.size, b.size),
        SortColumn::Type => compare_text(&a.file_type, &b.file_type),
        SortColumn::Modified => sign_of_i64(a.modified, b.modified),
    };
    proof {
        lemma_column_order_range(*a, *b, col);
    }
    if asc {
        c
    } else if c < 0 {
        1
    } else if c > 0 {
        -1
    } else {
        0
    }
}

/// The entries of `s` stably sorted in listing order.
pub fn sorted_entries(s: &Vec<FileEntry>, col: SortColumn, asc: bool) -> (r: Vec<FileEntry>)
    ensures
        is_stable_sort(s@, r@, col, asc),
{
    let mut r: Vec<FileEntry> = Vec::new();
    let ghost mut perm: Seq<int> = Seq::empty();
    let mut k: usize = 0;
    while k < s.len()
        invariant
            k <= s.len(),
            r@.len() == k,
            perm.len() == k,
            forall|i: int| 0 <= i < k ==> 0 <= #[trigger] perm[i] < k && r@[i] == s@[perm[i]],
            forall|i: int, j: int| 0 <= i < j < k ==> #[trigger] perm[i] != #[trigger] perm[j],
            forall|i: int, j: int|
                0 <= i < j < k ==> {
                    let o = entry_order(#[trigger] r@[i], #[trigger] r@[j], col, asc);
                    o < 0 || (o == 0 && perm[i] < perm[j])
                },
        decreases s.len() - k,
    {
        let x = s[k].duplicate();
        let mut p: usize = 0;
        while p < r.len() && compare_entries(&r[p], &x, col, asc) <= 0
            invariant
                p <= r@.len(),
                forall|i: int| 0 <= i < p ==> entry_order(#[trigger] r@[i], x, col, asc) <= 0,
            decreases r@.len() - p,
        {
            p = p + 1;
        }
        let ghost old_r = r@;
        let ghost old_perm = perm;
        proof {
            if p < old_r.len() {
                assert forall|j: int| p <= j < old_r.len() implies entry_order(old_r[j], x, col, asc) > 0 by {
                    if j > p {
                        let o = entry_order(old_r[p as int], old_r[j], col, asc);
                        assert(o <= 0);
                        if entry_order(old_r[j], x, col, asc) <= 0 {
                            lemma_entry_order_transitive(old_r[p as int], old_r[j], x, col, asc);
                        }
                    }
                }
            }
        }
        r.insert(p, x);
        proof {
            perm = old_perm.insert(p as int, k as int);
            assert forall|i: int, j: int| 0 <= i < j < k + 1 implies {
                let o = entry_order(#[trigger] r@[i], #[trigger] r@[j], col, asc);
                o < 0 || (o == 0 && perm[i] < perm[j])
            } by {
                if j < p {
                    assert(r@[i] == old_r[i] && r@[j] == old_r[j]);
                    assert(perm[i] == old_perm[i] && perm[j] == old_perm[j]);
                } else if j == p {
                    assert(r@[i] == old_r[i] && r@[j] == x);
                    assert(perm[i] == old_perm[i] && perm[j] == k);
                } else if i < p {
                    assert(r@[i] == old_r[i] && r@[j] == old_r[j - 1]);
                    assert(perm[i] == old_perm[i] && perm[j] == old_perm[j - 1]);
                } else if i == p {
                    assert(r@[i] == x && r@[j] == old_r[j - 1]);
                    lemma_entry_order_antisymmetric(x, old_r[j - 1], col, asc);
                } else {
                    assert(r@[i] == old_r[i - 1] && r@[j] == old_r[j - 1]);
                    assert(perm[i] == old_perm[i - 1] && perm[j] == old_perm[j - 1]);
                }
            }
            assert forall|i: int| 0 <= i < k + 1 implies 0 <= #[trigger] perm[i] < k + 1 && r@[i] == s@[perm[i]] by {
                if i < p {
                    assert(r@[i] == old_r[i]);
                } else if i > p {
                    assert(r@[i] == old_r[i - 1]);
                }
            }
            assert forall|i: int, j: int| 0 <= i < j < k + 1 implies #[trigger] perm[i] != #[trigger] perm[j] by {
                if i < p && j < p {
                } else if j == p {
                } else if i == p {
                } else if i < p {
                    assert(perm[j] == old_perm[j - 1]);
                } else {
                    assert(perm[i] == old_perm[i - 1]);
                    assert(perm[j] == old_perm[j - 1]);
                }
            }
        }
        k = k + 1;
    }
    assert(stable_sort_witness(s@, r@, perm, col, asc));
    r
}

/// Each column orders a sorted listing by the field it names: within the
/// directories and within the files, sizes and modification times rise from
/// one entry to any later one when ascending and fall when descending;
/// names, compared by their lowercase forms, and types, as written, come in
/// lexicographic order, reversed when descending.
pub proof fn law_columns_follow_their_fields(s: Seq<FileEntry>, r: Seq<FileEntry>, col: SortColumn, asc: bool)
    requires
        is_stable_sort(s, r, col, asc),
    ensures
        forall|i: int, j: int|
            0 <= i < j < r.len() && #[trigger] r[i].is_dir == #[trigger] r[j].is_dir ==> {
                &&& col == SortColumn::Size && asc ==> r[i].size <= r[j].size
                &&& col == SortColumn::Size && !asc ==> r[i].size >= r[j].size
                &&& col == SortColumn::Modified && asc ==> r[i].modified <= r[j].modified
                &&& col == SortColumn::Modified && !asc ==> r[i].modified >= r[j].modified
                &&& col == SortColumn::Name && asc ==> compare_chars(lowercase(r[i].name@), lowercase(r[j].name@)) <= 0
                &&& col == SortColumn::Name && !asc ==> compare_chars(lowercase(r[i].name@), lowercase(r[j].name@)) >= 0
                &&& col == SortColumn::Type && asc ==> compare_chars(r[i].file_type@, r[j].file_type@) <= 0
                &&& col == SortColumn::Type && !asc ==> compare_chars(r[i].file_type@, r[j].file_type@) >= 0
            },
{
    law_sorted_listing_in_order(s, r, col, asc);
    assert forall|i: int, j: int|
        0 <= i < j < r.len() && #[trigger] r[i].is_dir == #[trigger] r[j].is_dir implies {
            &&& col == SortColumn::Size && asc ==> r[i].size <= r[j].size
            &&& col == SortColumn::Size && !asc ==> r[i].size >= r[j].size
            &&& col == SortColumn::Modified && asc ==> r[i].modified <= r[j].modified
            &&& col == SortColumn::Modified && !asc ==> r[i].modified >= r[j].modified
            &&& col == SortColumn::Name && asc ==> compare_chars(lowercase(r[i].name@), lowercase(r[j].name@)) <= 0
            &&& col == SortColumn::Name && !asc ==> compare_chars(lowercase(r[i].name@), lowercase(r[j].name@)) >= 0
            &&& col == SortColumn::Type && asc ==> compare_chars(r[i].file_type@, r[j].file_type@) <= 0
            &&& col == SortColumn::Type && !asc ==> compare_chars(r[i].file_type@, r[j].file_type@) >= 0
        } by {
        let c = column_order(r[i], r[j], col);
        if asc {
            assert(c <= 0);
        } else {
            assert(c >= 0);
        }
    }
}

} // verus!
