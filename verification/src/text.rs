//! Character-level string helpers shared by the rest of the library:
//! conversions between strings and character vectors, ordering of
//! character sequences, decimal rendering of numbers, case mapping and
//! substring replacement.
use vstd::prelude::*;

verus! {

// ---------------------------------------------------------------------------
// Strings and character vectors
// ---------------------------------------------------------------------------

/// Appends one character to a string (`String::push`).
#[verifier::external_body]
pub(crate) fn push_char(s: &mut String, c: char)
    ensures
        final(s)@ == old(s)@.push(c),
{
    s.push(c);
}

/// The characters of `s`, in order.
pub fn chars_of(s: &str) -> (r: Vec<char>)
    ensures
        r@ == s@,
{
    let mut r: Vec<char> = Vec::new();
    for c in it: s.chars()
        invariant
            r@ == it.seq().take(it.index() as int),
    {
        r.push(c);
    }
    r
}

/// Builds a string from a sequence of characters.
pub fn string_of(v: &Vec<char>) -> (r: String)
    ensures
        r@ == v@,
{
    let mut r = String::new();
    let mut i: usize = 0;
    while i < v.len()
        invariant
            i <= v.len(),
            r@ == v@.take(i as int),
        decreases v.len() - i,
    {
        push_char(&mut r, v[i]);
        i = i + 1;
        assert(v@.take(i as int) == v@.take((i - 1) as int).push(v@[i - 1]));
    }
    assert(v@.take(v.len() as int) == v@);
    r
}

/// Appends the characters of `src` to `dst`.
pub fn extend_chars(dst: &mut Vec<char>, src: &Vec<char>)
    ensures
        final(dst)@ == old(dst)@ + src@,
{
    let mut i: usize = 0;
    while i < src.len()
        invariant
            i <= src.len(),
            dst@ == old(dst)@ + src@.take(i as int),
        decreases src.len() - i,
    {
        dst.push(src[i]);
        i = i + 1;
        assert(src@.take(i as int) == src@.take((i - 1) as int).push(src@[i - 1]));
    }
    assert(src@.take(src.len() as int) == src@);
}

/// The characters of an optional string.
pub open spec fn opt_text(o: Option<String>) -> Option<Seq<char>> {
    match o {
        Some(s) => Some(s@),
        None => None,
    }
}

/// Whether two strings hold the same characters.
pub fn same_text(a: &str, b: &str) -> (r: bool)
    ensures
        r == (a@ == b@),
{
    let x = chars_of(a);
    let y = chars_of(b);
    same_chars(&x, &y)
}

/// Whether two character vectors are equal.
pub fn same_chars(x: &Vec<char>, y: &Vec<char>) -> (r: bool)
    ensures
        r == (x@ == y@),
{
    if x.len() != y.len() {
        return false;
    }
    let mut i: usize = 0;
    while i < x.len()
        invariant
            i <= x.len(),
            x.len() == y.len(),
            x@.take(i as int) == y@.take(i as int),
        decreases x.len() - i,
    {
        if x[i] != y[i] {
            assert(x@[i as int] != y@[i as int]);
            return false;
        }
        i = i + 1;
        assert(x@.take(i as int) == x@.take((i - 1) as int).push(x@[i - 1]));
        assert(y@.take(i as int) == y@.take((i - 1) as int).push(y@[i - 1]));
    }
    assert(x@.take(x.len() as int) == x@);
    assert(y@.take(y.len() as int) == y@);
    true
}

/// Whether `s` begins with the character `c`.
pub fn starts_with_char(s: &str, c: char) -> (r: bool)
    ensures
        r == (s@.len() > 0 && s@[0] == c),
{
    let v = chars_of(s);
    v.len() > 0 && v[0] == c
}

// ---------------------------------------------------------------------------
// Case mapping (Unicode rules of the standard library)
// ---------------------------------------------------------------------------

/// What `str::to_lowercase` returns for a string.
pub uninterp spec fn lowercase(s: Seq<char>) -> Seq<char>;

/// What `str::to_uppercase` returns for a string.
pub uninterp spec fn uppercase(s: Seq<char>) -> Seq<char>;

/// The characters that `char::to_lowercase` yields for one character.
pub uninterp spec fn char_lowercase(c: char) -> Seq<char>;

/// The characters that `char::to_uppercase` yields for one character.
pub uninterp spec fn char_uppercase(c: char) -> Seq<char>;

/// `str::to_lowercase`: the lowercase mapping of the standard library, a
/// function of the string alone, which maps each character in turn; of the
/// mapping only that the empty string stays empty is stated.
#[verifier::external_body]
pub(crate) fn to_lowercase(s: &str) -> (r: String)
    ensures
        r@ == lowercase(s@),
        s@.len() == 0 ==> r@.len() == 0,
{
    s.to_lowercase()
}

/// `str::to_uppercase`: the uppercase mapping of the standard library, a
/// function of the string alone. Nothing more of the mapping is stated.
#[verifier::external_body]
pub(crate) fn to_uppercase(s: &str) -> (r: String)
    ensures
        r@ == uppercase(s@),
{
    s.to_uppercase()
}

/// `char::to_lowercase`, collected: the characters one character lowercases to.
#[verifier::external_body]
pub(crate) fn char_to_lowercase(c: char) -> (r: Vec<char>)
    ensures
        r@ == char_lowercase(c),
{
    c.to_lowercase().collect()
}

/// `char::to_uppercase`, collected: the characters one character uppercases to.
#[verifier::external_body]
pub(crate) fn char_to_uppercase(c: char) -> (r: Vec<char>)
    ensures
        r@ == char_uppercase(c),
{
    c.to_uppercase().collect()
}

// ---------------------------------------------------------------------------
// Lexicographic order of character sequences
// ---------------------------------------------------------------------------

/// Lexicographic comparison by code point: -1, 0 or 1. This is the order of
/// `String`'s `Ord`, since UTF-8 preserves the order of code points.
pub open spec fn compare_chars(a: Seq<char>, b: Seq<char>) -> int
    decreases a.len(),
{
    if a.len() == 0 {
        if b.len() == 0 { 0 } else { -1 }
    } else if b.len() == 0 {
        1
    } else if (a[0] as int) < (b[0] as int) {
        -1
    } else if (a[0] as int) > (b[0] as int) {
        1
    } else {
        compare_chars(a.drop_first(), b.drop_first())
    }
}

/// Comparison yields -1, 0 or 1.
pub proof fn lemma_compare_chars_range(a: Seq<char>, b: Seq<char>)
    ensures
        -1 <= compare_chars(a, b) <= 1,
    decreases a.len(),
{
    if a.len() > 0 && b.len() > 0 && (a[0] as int) == (b[0] as int) {
        lemma_compare_chars_range(a.drop_first(), b.drop_first());
    }
}

/// Comparison of character sequences is antisymmetric.
pub proof fn lemma_compare_chars_antisymmetric(a: Seq<char>, b: Seq<char>)
    ensures
        compare_chars(a, b) == -compare_chars(b, a),
    decreases a.len(),
{
    if a.len() > 0 && b.len() > 0 && (a[0] as int) == (b[0] as int) {
        lemma_compare_chars_antisymmetric(a.drop_first(), b.drop_first());
    }
}

/// Comparison of character sequences is transitive.
pub proof fn lemma_compare_chars_transitive(a: Seq<char>, b: Seq<char>, c: Seq<char>)
    requires
        compare_chars(a, b) <= 0,
        compare_chars(b, c) <= 0,
    ensures
        compare_chars(a, c) <= 0,
    decreases a.len(),
{
    if a.len() > 0 && b.len() > 0 && c.len() > 0 && (a[0] as int) == (b[0] as int) && (b[0]
        as int) == (c[0] as int) {
        lemma_compare_chars_transitive(a.drop_first(), b.drop_first(), c.drop_first());
    }
}

/// Only equal sequences compare equal.
pub proof fn lemma_compare_chars_equal(a: Seq<char>, b: Seq<char>)
    ensures
        compare_chars(a, b) == 0 <==> a == b,
    decreases a.len(),
{
    if a.len() > 0 && b.len() > 0 {
        lemma_compare_chars_equal(a.drop_first(), b.drop_first());
        assert(a =~= seq![a[0]] + a.drop_first());
        assert(b =~= seq![b[0]] + b.drop_first());
        if a == b {
            assert(a[0] == b[0]);
        }
    } else if a.len() == 0 && b.len() == 0 {
        assert(a =~= b);
    }
}

/// Compares two character vectors lexicographically.
pub fn compare_char_vecs(a: &Vec<char>, b: &Vec<char>) -> (r: i8)
    ensures
        r as int == compare_chars(a@, b@),
{
    let mut i: usize = 0;
    assert(a@.skip(0) == a@);
    assert(b@.skip(0) == b@);
    while i < a.len() && i < b.len()
        invariant
            i <= a.len(),
            i <= b.len(),
            compare_chars(a@, b@) == compare_chars(a@.skip(i as int), b@.skip(i as int)),
        decreases a.len() - i,
    {
        let x = a[i];
        let y = b[i];
        if x < y {
            return -1;
        }
        if x > y {
            return 1;
        }
        assert(a@.skip(i as int).drop_first() == a@.skip(i + 1));
        assert(b@.skip(i as int).drop_first() == b@.skip(i + 1));
        i = i + 1;
    }
    if i < a.len() {
        1
    } else if i < b.len() {
        -1
    } else {
        0
    }
}

/// Compares two strings lexicographically by code point.
pub fn compare_text(a: &str, b: &str) -> (r: i8)
    ensures
        r as int == compare_chars(a@, b@),
{
    let x = chars_of(a);
    let y = chars_of(b);
    compare_char_vecs(&x, &y)
}

} // verus!

verus! {

// ---------------------------------------------------------------------------
// Substring replacement
// ---------------------------------------------------------------------------

/// `s` with every occurrence of `from` replaced by `to`, occurrences taken
/// left to right without overlapping (what `str::replace` does for a
/// non-empty pattern). An empty pattern leaves `s` as it is.
pub open spec fn replace_all(s: Seq<char>, from: Seq<char>, to: Seq<char>) -> Seq<char>
    decreases s.len(),
{
    if from.len() == 0 || s.len() < from.len() {
        s
    } else if s.take(from.len() as int) == from {
        to + replace_all(s.skip(from.len() as int), from, to)
    } else {
        seq![s[0]] + replace_all(s.drop_first(), from, to)
    }
}

/// Replacing a pattern by itself changes nothing.
pub proof fn law_replace_with_itself(s: Seq<char>, from: Seq<char>)
    ensures
        replace_all(s, from, from) == s,
    decreases s.len(),
{
    if from.len() == 0 || s.len() < from.len() {
    } else if s.take(from.len() as int) == from {
        law_replace_with_itself(s.skip(from.len() as int), from);
        assert(s =~= s.take(from.len() as int) + s.skip(from.len() as int));
    } else {
        law_replace_with_itself(s.drop_first(), from);
        assert(s =~= seq![s[0]] + s.drop_first());
    }
}

/// Whether `p` occurs in `s` starting at index `i`.
pub open spec fn occurs_at(s: Seq<char>, p: Seq<char>, i: int) -> bool {
    0 <= i && i + p.len() <= s.len() && s.subrange(i, i + p.len()) == p
}

/// A string in which the pattern does not occur is left as it is.
pub proof fn law_replace_absent(s: Seq<char>, from: Seq<char>, to: Seq<char>)
    requires
        forall|i: int| !#[trigger] occurs_at(s, from, i),
    ensures
        replace_all(s, from, to) == s,
    decreases s.len(),
{
    if from.len() == 0 || s.len() < from.len() {
    } else {
        assert(s.subrange(0, from.len() as int) == s.take(from.len() as int));
        assert(!occurs_at(s, from, 0));
        let t = s.drop_first();
        assert forall|i: int| !#[trigger] occurs_at(t, from, i) by {
            if 0 <= i && i + from.len() <= t.len() {
                assert(t.subrange(i, i + from.len()) == s.subrange(i + 1, i + 1 + from.len()));
                assert(!occurs_at(s, from, i + 1));
            }
        }
        law_replace_absent(t, from, to);
        assert(s =~= seq![s[0]] + s.drop_first());
    }
}

/// Whether `pat` occurs in `s` at position `i`.
fn matches_at(s: &Vec<char>, i: usize, pat: &Vec<char>) -> (r: bool)
    requires
        i <= s@.len(),
    ensures
        r == (i + pat@.len() <= s@.len() && s@.subrange(i as int, i + pat@.len()) == pat@),
{
    if pat.len() > s.len() - i {
        return false;
    }
    let mut k: usize = 0;
    while k < pat.len()
        invariant
            k <= pat@.len(),
            i + pat@.len() <= s@.len(),
            s@.len() == s.len(),
            forall|j: int| 0 <= j < k ==> s@[i + j] == pat@[j],
        decreases pat@.len() - k,
    {
        if s[i + k] != pat[k] {
            assert(s@.subrange(i as int, i + pat@.len())[k as int] != pat@[k as int]);
            return false;
        }
        k = k + 1;
    }
    assert(s@.subrange(i as int, i + pat@.len()) =~= pat@);
    true
}

/// Whether `p` occurs somewhere in `s` (an empty `p` occurs everywhere).
pub open spec fn contains_seq(s: Seq<char>, p: Seq<char>) -> bool {
    exists|i: int| occurs_at(s, p, i)
}

/// Whether `p` occurs in `s`, as `str::contains` tests it.
pub fn contains_chars(s: &Vec<char>, p: &Vec<char>) -> (r: bool)
    ensures
        r == contains_seq(s@, p@),
{
    let mut i: usize = 0;
    while i < s.len()
        invariant
            i <= s@.len(),
            forall|j: int| 0 <= j < i ==> !#[trigger] occurs_at(s@, p@, j),
        decreases s@.len() - i,
    {
        if matches_at(s, i, p) {
            assert(occurs_at(s@, p@, i as int));
            return true;
        }
        i = i + 1;
    }
    if matches_at(s, i, p) {
        assert(occurs_at(s@, p@, i as int));
        return true;
    }
    assert forall|j: int| !#[trigger] occurs_at(s@, p@, j) by {
        if 0 <= j && j + p@.len() <= s@.len() {
            assert(j <= i);
        }
    }
    false
}

/// Replaces every occurrence of `from` in `s` by `to`, left to right.
pub fn replace_chars(s: &Vec<char>, from: &Vec<char>, to: &Vec<char>) -> (r: Vec<char>)
    ensures
        r@ == replace_all(s@, from@, to@),
{
    if from.len() == 0 {
        return s.clone();
    }
    let mut out: Vec<char> = Vec::new();
    let mut i: usize = 0;
    assert(s@.skip(0) == s@);
    while i < s.len()
        invariant
            i <= s@.len(),
            from@.len() > 0,
            replace_all(s@, from@, to@) == out@ + replace_all(s@.skip(i as int), from@, to@),
        decreases s@.len() - i,
    {
        let ghost t = s@.skip(i as int);
        if matches_at(s, i, from) {
            assert(t.take(from@.len() as int) == s@.subrange(i as int, i + from@.len()));
            assert(t.skip(from@.len() as int) == s@.skip(i + from@.len()));
            extend_chars(&mut out, to);
            i = i + from.len();
        } else {
            if s.len() - i >= from.len() {
                assert(t.take(from@.len() as int) == s@.subrange(i as int, i + from@.len()));
                assert(t.drop_first() == s@.skip(i + 1));
                assert(t[0] == s@[i as int]);
                out.push(s[i]);
                i = i + 1;
            } else {
                // too short for another match: the rest is copied as it is
                let ghost rest = t;
                let ghost out0 = out@;
                let mut j = i;
                while j < s.len()
                    invariant
                        i <= j <= s@.len(),
                        rest == s@.skip(i as int),
                        out@ == out0 + s@.subrange(i as int, j as int),
                    decreases s@.len() - j,
                {
                    out.push(s[j]);
                    j = j + 1;
                    assert(s@.subrange(i as int, j as int) == s@.subrange(i as int, (j - 1) as int).push(s@[j - 1]));
                }
                assert(s@.subrange(i as int, s@.len() as int) == rest);
                i = j;
                assert(s@.skip(i as int).len() == 0);
            }
        }
    }
    assert(s@.skip(i as int).len() == 0);
    out
}

} // verus!

verus! {

// ---------------------------------------------------------------------------
// Trimming and byte length
// ---------------------------------------------------------------------------

/// Unicode white space (the `White_Space` property), as `char::is_whitespace`
/// lists it.
pub open spec fn is_white_space(c: char) -> bool {
    ||| '\t' <= c <= '\r'
    ||| c == ' '
    ||| c == '\u{85}'
    ||| c == '\u{A0}'
    ||| c == '\u{1680}'
    ||| '\u{2000}' <= c <= '\u{200A}'
    ||| c == '\u{2028}'
    ||| c == '\u{2029}'
    ||| c == '\u{202F}'
    ||| c == '\u{205F}'
    ||| c == '\u{3000}'
}

/// The string without its leading white space.
pub open spec fn trim_start_view(s: Seq<char>) -> Seq<char>
    decreases s.len(),
{
    if s.len() > 0 && is_white_space(s[0]) {
        trim_start_view(s.drop_first())
    } else {
        s
    }
}

/// The string without its trailing white space.
pub open spec fn trim_end_view(s: Seq<char>) -> Seq<char>
    decreases s.len(),
{
    if s.len() > 0 && is_white_space(s.last()) {
        trim_end_view(s.drop_last())
    } else {
        s
    }
}

/// What `str::trim` returns: the string without leading and trailing white
/// space.
pub open spec fn trim_view(s: Seq<char>) -> Seq<char> {
    trim_end_view(trim_start_view(s))
}

/// Whether a character is white space (the Unicode `White_Space` property).
pub fn is_white_space_char(c: char) -> (r: bool)
    ensures
        r == is_white_space(c),
{
    ('\t' <= c && c <= '\r') || c == ' ' || c == '\u{85}' || c == '\u{A0}' || c == '\u{1680}'
        || ('\u{2000}' <= c && c <= '\u{200A}') || c == '\u{2028}' || c == '\u{2029}' || c == '\u{202F}'
        || c == '\u{205F}' || c == '\u{3000}'
}

/// The characters of `c` from position `a` up to, not including, `b`.
pub fn chars_between(c: &Vec<char>, a: usize, b: usize) -> (r: Vec<char>)
    requires
        a <= b <= c@.len(),
    ensures
        r@ == c@.subrange(a as int, b as int),
{
    let mut r: Vec<char> = Vec::new();
    let mut i: usize = a;
    while i < b
        invariant
            a <= i <= b,
            b <= c@.len(),
            r@ == c@.subrange(a as int, i as int),
        decreases b - i,
    {
        r.push(c[i]);
        i = i + 1;
        assert(r@ =~= c@.subrange(a as int, i as int));
    }
    r
}

/// The string without leading and trailing white space, as `str::trim`
/// returns it.
pub fn trimmed(s: &str) -> (r: String)
    ensures
        r@ == trim_view(s@),
{
    let c = chars_of(s);
    let mut a: usize = 0;
    assert(c@.skip(0) =~= c@);
    while a < c.len() && is_white_space_char(c[a])
        invariant
            a <= c@.len(),
            trim_start_view(c@) == trim_start_view(c@.skip(a as int)),
        decreases c@.len() - a,
    {
        assert(c@.skip(a as int).drop_first() =~= c@.skip(a + 1));
        a = a + 1;
    }
    assert(trim_start_view(c@) == c@.skip(a as int));
    let mut b: usize = c.len();
    assert(c@.skip(a as int) =~= c@.subrange(a as int, b as int));
    while b > a && is_white_space_char(c[b - 1])
        invariant
            a <= b <= c@.len(),
            trim_end_view(c@.skip(a as int)) == trim_end_view(c@.subrange(a as int, b as int)),
        decreases b,
    {
        assert(c@.subrange(a as int, b as int).drop_last() =~= c@.subrange(a as int, b - 1));
        b = b - 1;
    }
    let kept = chars_between(&c, a, b);
    string_of(&kept)
}

/// The number of bytes a character takes in UTF-8.
pub open spec fn utf8_char_len(c: char) -> int {
    if (c as int) < 0x80 {
        1
    } else if (c as int) < 0x800 {
        2
    } else if (c as int) < 0x10000 {
        3
    } else {
        4
    }
}

/// The number of bytes a string takes in UTF-8 (what `str::len` returns).
pub open spec fn utf8_len(s: Seq<char>) -> int
    decreases s.len(),
{
    if s.len() == 0 {
        0
    } else {
        utf8_len(s.drop_last()) + utf8_char_len(s.last())
    }
}

/// The number of bytes a character takes in UTF-8.
pub fn utf8_width(c: char) -> (w: usize)
    ensures
        w as int == utf8_char_len(c),
{
    if c <= '\x7f' {
        1
    } else if 'ࠀ' > c {
        2
    } else if '𐀀' > c {
        3
    } else {
        4
    }
}

/// The UTF-8 length of a string, saturating at `usize::MAX`.
pub fn utf8_length(s: &str) -> (r: usize)
    ensures
        r as int == (if utf8_len(s@) <= usize::MAX { utf8_len(s@) } else { usize::MAX as int }),
{
    let v = chars_of(s);
    let mut total: usize = 0;
    let mut i: usize = 0;
    while i < v.len()
        invariant
            i <= v@.len(),
            v@ == s@,
            total as int == (if utf8_len(v@.take(i as int)) <= usize::MAX { utf8_len(v@.take(i as int)) } else { usize::MAX as int }),
            utf8_len(v@.take(i as int)) >= 0,
        decreases v@.len() - i,
    {
        let c = v[i];
        let w = utf8_width(c);
        assert(v@.take(i + 1).drop_last() == v@.take(i as int));
        assert(w as int == utf8_char_len(c));
        if total > usize::MAX - w {
            total = usize::MAX;
        } else {
            total = total + w;
        }
        i = i + 1;
    }
    assert(v@.take(i as int) == v@);
    total
}

/// The position of the first line feed in `s`, or its length when it holds
/// none.
pub open spec fn line_end(s: Seq<char>) -> int
    decreases s.len(),
{
    if s.len() == 0 || s[0] == '\n' {
        0
    } else {
        1 + line_end(s.drop_first())
    }
}

/// The first line feed lies within the text.
pub proof fn lemma_line_end_bounds(s: Seq<char>)
    ensures
        0 <= line_end(s) <= s.len(),
    decreases s.len(),
{
    if s.len() > 0 && s[0] != '\n' {
        lemma_line_end_bounds(s.drop_first());
    }
}

/// A line before a line feed, without a carriage return that ends it (the
/// two together are a line ending).
pub open spec fn without_cr(line: Seq<char>) -> Seq<char> {
    if line.len() > 0 && line.last() == '\r' {
        line.drop_last()
    } else {
        line
    }
}

/// What `str::lines` yields for a text: the pieces between line endings,
/// a line ending being a line feed or a carriage return followed by one. A
/// line ending at the very end starts no further line, and a carriage return
/// not followed by a line feed stays in its line.
pub open spec fn text_lines(s: Seq<char>) -> Seq<Seq<char>>
    decreases s.len(),
{
    if s.len() == 0 {
        Seq::empty()
    } else {
        let i = line_end(s);
        proof {
            lemma_line_end_bounds(s);
        }
        if i >= s.len() {
            seq![s]
        } else {
            seq![without_cr(s.take(i))] + text_lines(s.skip(i + 1))
        }
    }
}

/// The first line feed of `u` is at `e` when none comes before it and `e`
/// is the end of `u` or a line feed.
proof fn lemma_line_end_at(u: Seq<char>, e: int)
    requires
        0 <= e <= u.len(),
        forall|k: int| 0 <= k < e ==> u[k] != '\n',
        e == u.len() || u[e] == '\n',
    ensures
        line_end(u) == e,
    decreases e,
{
    if e > 0 {
        assert(u[0] != '\n');
        assert forall|k: int| 0 <= k < e - 1 implies u.drop_first()[k] != '\n' by {
            assert(u.drop_first()[k] == u[k + 1]);
        }
        lemma_line_end_at(u.drop_first(), e - 1);
    }
}

/// The lines of a text, each as text, as `str::lines` splits them.
pub(crate) fn lines_of(s: &str) -> (r: Vec<String>)
    ensures
        r@.len() == text_lines(s@).len(),
        forall|i: int| 0 <= i < r@.len() ==> #[trigger] r@[i]@ == text_lines(s@)[i],
{
    let c = chars_of(s);
    let mut r: Vec<String> = Vec::new();
    let mut start: usize = 0;
    assert(c@.skip(0) =~= c@);
    while start < c.len()
        invariant
            start <= c@.len(),
            c@ == s@,
            r.deep_view() + text_lines(c@.skip(start as int)) == text_lines(c@),
        decreases c@.len() - start,
    {
        let mut end: usize = start;
        while end < c.len() && c[end] != '\n'
            invariant
                start <= end <= c@.len(),
                forall|k: int| start <= k < end ==> c@[k] != '\n',
            decreases c@.len() - end,
        {
            end = end + 1;
        }
        let mut stop: usize = end;
        if end < c.len() && stop > start && c[stop - 1] == '\r' {
            stop = stop - 1;
        }
        let line = chars_between(&c, start, stop);
        let ghost u = c@.skip(start as int);
        let ghost before = r.deep_view();
        r.push(string_of(&line));
        proof {
            let e = end - start;
            assert forall|k: int| 0 <= k < e implies u[k] != '\n' by {
                assert(u[k] == c@[start + k]);
            }
            if end < c@.len() {
                assert(u[e] == c@[end as int]);
            }
            lemma_line_end_at(u, e);
            assert(r.deep_view() =~= before.push(line@));
            if end < c@.len() {
                assert(u.skip(e + 1) =~= c@.skip(end + 1));
                assert(line@ =~= without_cr(u.take(e)));
                assert(text_lines(u) == seq![without_cr(u.take(e))] + text_lines(u.skip(e + 1)));
                assert(before + text_lines(u) =~= r.deep_view() + text_lines(c@.skip(end + 1)));
            } else {
                assert(line@ =~= u);
                assert(text_lines(u) == seq![u]);
                assert(c@.skip(c@.len() as int) =~= Seq::<char>::empty());
                assert(before + text_lines(u) =~= r.deep_view() + text_lines(c@.skip(c@.len() as int)));
            }
        }
        start = if end < c.len() { end + 1 } else { c.len() };
    }
    assert(c@.skip(start as int) =~= Seq::<char>::empty());
    assert(r.deep_view() =~= text_lines(c@));
    assert forall|i: int| 0 <= i < r@.len() implies #[trigger] r@[i]@ == text_lines(s@)[i] by {
        assert(r.deep_view()[i] == r@[i]@);
    }
    r
}

} // verus!
