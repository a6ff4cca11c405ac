//! Decimal rendering of unsigned integers: plain, zero-padded and with
//! thousands separators.
use vstd::prelude::*;

verus! {

/// The decimal digit for `d` (`d < 10`).
pub open spec fn digit_char(d: int) -> char {
    if d == 0 { '0' }
    else if d == 1 { '1' }
    else if d == 2 { '2' }
    else if d == 3 { '3' }
    else if d == 4 { '4' }
    else if d == 5 { '5' }
    else if d == 6 { '6' }
    else if d == 7 { '7' }
    else if d == 8 { '8' }
    else { '9' }
}

/// The decimal representation of `n`, without leading zeros (`"0"` for zero),
/// as `u64`'s `Display` writes it.
pub open spec fn decimal(n: nat) -> Seq<char>
    decreases n,
{
    if n < 10 {
        seq![digit_char(n as int)]
    } else {
        decimal(n / 10).push(digit_char((n % 10) as int))
    }
}

/// `s` left-padded with `'0'` up to `width` characters (the `{:0width}` format).
pub open spec fn zero_padded(s: Seq<char>, width: nat) -> Seq<char> {
    if s.len() >= width {
        s
    } else {
        Seq::new((width - s.len()) as nat, |i: int| '0') + s
    }
}

/// Digits grouped by threes from the right, separated by commas.
pub open spec fn group_thousands(d: Seq<char>) -> Seq<char>
    decreases d.len(),
{
    if d.len() <= 3 {
        d
    } else {
        group_thousands(d.take(d.len() - 3)).push(',') + d.skip(d.len() - 3)
    }
}

/// A decimal representation has at least one digit.
pub proof fn lemma_decimal_nonempty(n: nat)
    ensures
        decimal(n).len() >= 1,
    decreases n,
{
    if n >= 10 {
        lemma_decimal_nonempty(n / 10);
    }
}

fn digit(d: u64) -> (c: char)
    requires
        d < 10,
    ensures
        c == digit_char(d as int),
{
    if d == 0 { '0' }
    else if d == 1 { '1' }
    else if d == 2 { '2' }
    else if d == 3 { '3' }
    else if d == 4 { '4' }
    else if d == 5 { '5' }
    else if d == 6 { '6' }
    else if d == 7 { '7' }
    else if d == 8 { '8' }
    else { '9' }
}

/// The decimal digits of `n`.
pub fn decimal_chars(n: u64) -> (r: Vec<char>)
    ensures
        r@ == decimal(n as nat),
{
    let mut m = n;
    let mut acc: Vec<char> = Vec::new();
    while m >= 10
        invariant
            decimal(n as nat) == decimal(m as nat) + acc@,
        decreases m,
    {
        let d = digit(m % 10);
        acc.insert(0, d);
        assert(decimal(m as nat) == decimal((m / 10) as nat).push(digit_char((m % 10) as int)));
        assert(decimal((m / 10) as nat).push(d) + acc@.drop_first() =~= decimal((m / 10) as nat)
            + acc@);
        m = m / 10;
    }
    let d = digit(m);
    acc.insert(0, d);
    assert(decimal(m as nat) =~= seq![d]);
    assert(decimal(n as nat) =~= acc@);
    acc
}

/// `n` in decimal, left-padded with zeros to `width` digits.
pub fn zero_padded_decimal(n: u64, width: usize) -> (r: Vec<char>)
    ensures
        r@ == zero_padded(decimal(n as nat), width as nat),
{
    let digits = decimal_chars(n);
    if digits.len() >= width {
        return digits;
    }
    let mut r: Vec<char> = Vec::new();
    let pad = width - digits.len();
    let mut i: usize = 0;
    while i < pad
        invariant
            i <= pad,
            r@ == Seq::new(i as nat, |k: int| '0'),
        decreases pad - i,
    {
        r.push('0');
        i = i + 1;
        assert(r@ =~= Seq::new(i as nat, |k: int| '0'));
    }
    crate::text::extend_chars(&mut r, &digits);
    r
}

/// The digits `d` grouped by threes from the right.
pub fn group_digits(d: &Vec<char>) -> (r: Vec<char>)
    ensures
        r@ == group_thousands(d@),
    decreases d.len(),
{
    if d.len() <= 3 {
        return d.clone();
    }
    let cut = d.len() - 3;
    let mut head: Vec<char> = Vec::new();
    let mut i: usize = 0;
    while i < cut
        invariant
            i <= cut,
            cut == d.len() - 3,
            head@ == d@.take(i as int),
        decreases cut - i,
    {
        head.push(d[i]);
        i = i + 1;
        assert(d@.take(i as int) == d@.take((i - 1) as int).push(d@[i - 1]));
    }
    let mut r = group_digits(&head);
    r.push(',');
    let mut j: usize = cut;
    while j < d.len()
        invariant
            cut <= j <= d.len(),
            cut == d.len() - 3,
            r@ == group_thousands(d@.take(cut as int)).push(',') + d@.subrange(cut as int, j as int),
        decreases d.len() - j,
    {
        r.push(d[j]);
        j = j + 1;
        assert(d@.subrange(cut as int, j as int) == d@.subrange(cut as int, (j - 1) as int).push(d@[j - 1]));
    }
    assert(d@.subrange(cut as int, d.len() as int) == d@.skip(cut as int));
    r
}

} // verus!

verus! {

/// Decimal digits are '0'..'9'.
pub proof fn lemma_decimal_digits(n: nat)
    ensures
        forall|i: int| 0 <= i < decimal(n).len() ==> '0' <= #[trigger] decimal(n)[i] <= '9',
        decimal(n).len() >= 1,
        decimal(n).len() > 1 ==> decimal(n)[0] != '0',
    decreases n,
{
    if n >= 10 {
        lemma_decimal_digits(n / 10);
        assert(decimal(n)[0] == decimal(n / 10)[0]);
        if n / 10 < 10 {
            assert(decimal(n / 10) == seq![digit_char((n / 10) as int)]);
            assert(digit_char((n / 10) as int) != '0');
        } else {
            lemma_decimal_nonempty(n / 100);
            assert(decimal(n / 10).len() > 1);
        }
        assert forall|i: int| 0 <= i < decimal(n).len() implies '0' <= #[trigger] decimal(n)[i] <= '9' by {
            if i < decimal(n).len() - 1 {
                assert(decimal(n)[i] == decimal(n / 10)[i]);
            }
        }
    }
}

proof fn lemma_digit_char_injective(a: int, b: int)
    requires
        0 <= a < 10,
        0 <= b < 10,
        digit_char(a) == digit_char(b),
    ensures
        a == b,
{
}

/// Different numbers have different decimal representations.
pub proof fn lemma_decimal_injective(a: nat, b: nat)
    requires
        decimal(a) == decimal(b),
    ensures
        a == b,
    decreases a,
{
    if a < 10 && b < 10 {
        assert(decimal(a) == seq![digit_char(a as int)]);
        assert(decimal(b) == seq![digit_char(b as int)]);
        assert(decimal(a)[0] == decimal(b)[0]);
        assert(seq![digit_char(a as int)][0] == digit_char(a as int));
        assert(seq![digit_char(b as int)][0] == digit_char(b as int));
        assert(digit_char(a as int) == digit_char(b as int));
        lemma_digit_char_injective(a as int, b as int);
    } else if a >= 10 && b >= 10 {
        assert(decimal(a).drop_last() == decimal(a / 10));
        assert(decimal(b).drop_last() == decimal(b / 10));
        lemma_decimal_injective(a / 10, b / 10);
        assert(decimal(a).last() == digit_char((a % 10) as int));
        assert(decimal(b).last() == digit_char((b % 10) as int));
        assert(decimal(a).last() == decimal(b).last());
        lemma_digit_char_injective((a % 10) as int, (b % 10) as int);
    } else if a >= 10 {
        lemma_decimal_nonempty(a / 10);
        assert(decimal(a).len() >= 2);
    } else {
        lemma_decimal_nonempty(b / 10);
        assert(decimal(b).len() >= 2);
    }
}

/// Different numbers have different zero-padded representations.
pub proof fn lemma_padded_decimal_injective(a: nat, b: nat, width: nat)
    requires
        a != b,
    ensures
        zero_padded(decimal(a), width) != zero_padded(decimal(b), width),
{
    lemma_decimal_digits(a);
    lemma_decimal_digits(b);
    let (da, db) = (decimal(a), decimal(b));
    let (pa, pb) = (zero_padded(da, width), zero_padded(db, width));
    if pa == pb {
        if da.len() == db.len() {
            if da.len() >= width {
                lemma_decimal_injective(a, b);
            } else {
                assert(da =~= pa.skip(width - da.len()));
                assert(db =~= pb.skip(width - db.len()));
                lemma_decimal_injective(a, b);
            }
        } else if da.len() < db.len() {
            // the shorter one is padded with a zero where the longer one has its leading digit
            if db.len() >= width {
                let k = (db.len() - da.len()) as int;
                if da.len() >= width {
                } else {
                    assert(pb[0] == db[0]);
                    if db.len() > 1 {
                        assert(pa[0] == '0');
                    } else {
                        assert(da.len() < 1);
                    }
                }
            } else {
                let k = (width - db.len()) as int;
                assert(pb[k] == db[0]);
                assert(pa[k] == '0');
                assert(db.len() > 1);
            }
        } else {
            if da.len() >= width {
                assert(pa[0] == da[0]);
                if db.len() >= width {
                } else {
                    assert(pb[0] == '0');
                }
            } else {
                let k = (width - da.len()) as int;
                assert(pa[k] == da[0]);
                assert(pb[k] == '0');
                assert(da.len() > 1);
            }
        }
    }
}

/// The text without its commas.
pub open spec fn strip_commas(s: Seq<char>) -> Seq<char>
    decreases s.len(),
{
    if s.len() == 0 {
        s
    } else if s.last() == ',' {
        strip_commas(s.drop_last())
    } else {
        strip_commas(s.drop_last()).push(s.last())
    }
}

proof fn lemma_strip_commas_concat(a: Seq<char>, b: Seq<char>)
    ensures
        strip_commas(a + b) == strip_commas(a) + strip_commas(b),
    decreases b.len(),
{
    if b.len() == 0 {
        assert(a + b == a);
        assert(strip_commas(b) == b);
        assert(strip_commas(a) + strip_commas(b) == strip_commas(a));
    } else {
        lemma_strip_commas_concat(a, b.drop_last());
        assert((a + b).drop_last() == a + b.drop_last());
        assert((a + b).last() == b.last());
        if b.last() != ',' {
            assert(strip_commas(a) + strip_commas(b.drop_last()).push(b.last())
                == (strip_commas(a) + strip_commas(b.drop_last())).push(b.last()));
        }
    }
}

proof fn lemma_strip_commas_none(s: Seq<char>)
    requires
        forall|i: int| 0 <= i < s.len() ==> s[i] != ',',
    ensures
        strip_commas(s) == s,
    decreases s.len(),
{
    if s.len() > 0 {
        lemma_strip_commas_none(s.drop_last());
        assert(s.drop_last().push(s.last()) == s);
    }
}

/// Grouping digits by thousands only adds commas: removing them gives the
/// digits back.
pub proof fn law_grouping_keeps_digits(d: Seq<char>)
    requires
        forall|i: int| 0 <= i < d.len() ==> d[i] != ',',
    ensures
        strip_commas(group_thousands(d)) == d,
    decreases d.len(),
{
    if d.len() <= 3 {
        lemma_strip_commas_none(d);
    } else {
        let head = d.take(d.len() - 3);
        let tail = d.skip(d.len() - 3);
        assert forall|i: int| 0 <= i < head.len() implies head[i] != ',' by {
            assert(head[i] == d[i]);
        }
        law_grouping_keeps_digits(head);
        lemma_strip_commas_concat(group_thousands(head).push(','), tail);
        assert(group_thousands(head).push(',').drop_last() == group_thousands(head));
        assert(strip_commas(group_thousands(head).push(',')) == strip_commas(group_thousands(head)));
        assert forall|i: int| 0 <= i < tail.len() implies tail[i] != ',' by {
            assert(tail[i] == d[i + d.len() - 3]);
        }
        lemma_strip_commas_none(tail);
        assert(head + tail == d);
    }
}

} // verus!
