//! Character-level text operations with the meaning that std's `str` methods
//! have: `char::is_whitespace`, `str::trim`, `str::split` on a character, and
//! `u32::from_str`. They work on sequences of characters.
use vstd::prelude::*;

verus! {

broadcast use vstd::string::group_string_axioms;

/// Unicode's White_Space property, which `char::is_whitespace` tests.
pub open spec fn is_whitespace_spec(c: char) -> bool {
    let u = c as u32;
    ||| 0x09 <= u <= 0x0d
    ||| u == 0x20
    ||| u == 0x85
    ||| u == 0xa0
    ||| u == 0x1680
    ||| 0x2000 <= u <= 0x200a
    ||| u == 0x2028
    ||| u == 0x2029
    ||| u == 0x202f
    ||| u == 0x205f
    ||| u == 0x3000
}

/// The characters of `s` after leading white space is removed.
pub open spec fn trim_start_spec(s: Seq<char>) -> Seq<char>
    decreases s.len(),
{
    if s.len() > 0 && is_whitespace_spec(s[0]) {
        trim_start_spec(s.drop_first())
    } else {
        s
    }
}

/// The characters of `s` after trailing white space is removed.
pub open spec fn trim_end_spec(s: Seq<char>) -> Seq<char>
    decreases s.len(),
{
    if s.len() > 0 && is_whitespace_spec(s.last()) {
        trim_end_spec(s.drop_last())
    } else {
        s
    }
}

/// `str::trim`: white space removed at both ends.
pub open spec fn trim_spec(s: Seq<char>) -> Seq<char> {
    trim_end_spec(trim_start_spec(s))
}

/// `str::split` on a single separator character: the pieces between
/// separators, empty pieces included; there is always at least one piece.
pub open spec fn split_spec(s: Seq<char>, sep: char) -> Seq<Seq<char>>
    decreases s.len(),
{
    if s.len() == 0 {
        seq![Seq::<char>::empty()]
    } else {
        let init = split_spec(s.drop_last(), sep);
        if s.last() == sep {
            init.push(Seq::<char>::empty())
        } else {
            init.update(init.len() - 1, init.last().push(s.last()))
        }
    }
}

/// Whether `c` is one of the ASCII digits `0` to `9`.
pub open spec fn is_digit_spec(c: char) -> bool {
    '0' <= c <= '9'
}

/// The number that a string of decimal digits writes.
pub open spec fn decimal_value(d: Seq<char>) -> int
    decreases d.len(),
{
    if d.len() == 0 {
        0
    } else {
        decimal_value(d.drop_last()) * 10 + (d.last() as int - '0' as int)
    }
}

/// The digits of an unsigned number: the text without one leading `+`.
pub open spec fn unsigned_digits(s: Seq<char>) -> Seq<char> {
    if s.len() > 0 && s[0] == '+' {
        s.drop_first()
    } else {
        s
    }
}

/// `u32::from_str`: an optional `+`, then one or more ASCII digits whose value fits.
pub open spec fn parse_u32_spec(s: Seq<char>) -> Option<u32> {
    let d = unsigned_digits(s);
    if d.len() > 0 && (forall|i: int| 0 <= i < d.len() ==> is_digit_spec(#[trigger] d[i]))
        && decimal_value(d) <= u32::MAX {
        Some(decimal_value(d) as u32)
    } else {
        None
    }
}

/// The decimal digit character for `d` in `0..10`.
pub open spec fn digit_char(d: int) -> char {
    ('0' as int + d) as char
}

/// The usual decimal writing of `n`: no sign, no leading zeros.
pub open spec fn decimal_spec(n: nat) -> Seq<char>
    decreases n,
{
    if n < 10 {
        seq![digit_char(n as int)]
    } else {
        decimal_spec(n / 10).push(digit_char((n % 10) as int))
    }
}

/// The decimal writing of a number is a nonempty run of digits with that value.
pub proof fn lemma_decimal_spec(n: nat)
    ensures
        decimal_spec(n).len() > 0,
        forall|i: int| 0 <= i < decimal_spec(n).len() ==> is_digit_spec(#[trigger] decimal_spec(n)[i]),
        decimal_value(decimal_spec(n)) == n,
    decreases n,
{
    if n >= 10 {
        lemma_decimal_spec(n / 10);
        let s = decimal_spec(n);
        assert(s.drop_last() =~= decimal_spec(n / 10));
        let d = (n % 10) as int;
        assert(digit_char(d) as int - '0' as int == d);
        assert(n == (n / 10) * 10 + n % 10) by (nonlinear_arith);
        assert(s.last() == digit_char(d));
        assert(decimal_value(s) == decimal_value(s.drop_last()) * 10 + (s.last() as int
            - '0' as int));
    } else {
        let s = decimal_spec(n);
        assert(s.drop_last() =~= Seq::<char>::empty());
        assert(decimal_value(s.drop_last()) == 0);
        assert(s.last() == digit_char(n as int));
        assert(digit_char(n as int) as int - '0' as int == n);
        assert(decimal_value(s) == decimal_value(s.drop_last()) * 10 + (s.last() as int
            - '0' as int));
    }
}

/// The decimal writing of a number holds no character other than digits.
pub proof fn lemma_decimal_excludes(n: nat, c: char)
    requires
        !is_digit_spec(c),
    ensures
        !decimal_spec(n).contains(c),
{
    lemma_decimal_spec(n);
    if decimal_spec(n).contains(c) {
        let k = choose|k: int| 0 <= k < decimal_spec(n).len() && decimal_spec(n)[k] == c;
        assert(is_digit_spec(decimal_spec(n)[k]));
    }
}

/// Trimming removes one trailing line break from text that has no white
/// space and does not start empty.
pub proof fn lemma_trim_line(s: Seq<char>)
    requires
        s.len() > 0,
        forall|i: int| 0 <= i < s.len() ==> !is_whitespace_spec(#[trigger] s[i]),
    ensures
        trim_spec(s.push('\n')) == s,
{
    let t = s.push('\n');
    assert(t[0] == s[0]);
    assert(trim_start_spec(t) == t);
    assert(t.drop_last() =~= s);
    lemma_trim_plain(s);
    assert(trim_end_spec(s) == s) by {
        assert(!is_whitespace_spec(s[s.len() - 1]));
    }
}

/// `u32::from_str` reads back the decimal writing of every `u32`.
pub proof fn law_parse_u32_reads_decimal(n: u32)
    ensures
        parse_u32_spec(decimal_spec(n as nat)) == Some(n),
{
    lemma_decimal_spec(n as nat);
    let s = decimal_spec(n as nat);
    assert(unsigned_digits(s) == s);
}

/// Trimming leaves text without white space as it is.
pub proof fn lemma_trim_plain(s: Seq<char>)
    requires
        forall|i: int| 0 <= i < s.len() ==> !is_whitespace_spec(#[trigger] s[i]),
    ensures
        trim_spec(s) == s,
{
    if s.len() > 0 {
        assert(!is_whitespace_spec(s[0]));
        assert(!is_whitespace_spec(s.last()));
    }
}

/// Text without the separator is one piece.
pub proof fn lemma_split_without_sep(s: Seq<char>, sep: char)
    requires
        !s.contains(sep),
    ensures
        split_spec(s, sep) == seq![s],
    decreases s.len(),
{
    if s.len() > 0 {
        assert(!s.drop_last().contains(sep)) by {
            if s.drop_last().contains(sep) {
                let k = choose|k: int| 0 <= k < s.drop_last().len() && s.drop_last()[k] == sep;
                assert(s[k] == sep);
            }
        }
        lemma_split_without_sep(s.drop_last(), sep);
        assert(s.last() != sep) by {
            assert(s[s.len() - 1] == s.last());
        }
        assert(s.drop_last().push(s.last()) =~= s);
        assert(seq![s.drop_last()].update(0, s.drop_last().push(s.last())) =~= seq![s]);
    } else {
        assert(s =~= Seq::<char>::empty());
    }
}

/// Appending text without the separator extends the last piece.
pub proof fn lemma_split_append(t: Seq<char>, b: Seq<char>, sep: char)
    requires
        !b.contains(sep),
    ensures
        split_spec(t + b, sep) == split_spec(t, sep).update(
            split_spec(t, sep).len() - 1,
            split_spec(t, sep).last() + b,
        ),
    decreases b.len(),
{
    lemma_split_nonempty(t, sep);
    if b.len() == 0 {
        assert(t + b =~= t);
        assert(split_spec(t, sep).last() + b =~= split_spec(t, sep).last());
        assert(split_spec(t, sep).update(split_spec(t, sep).len() - 1, split_spec(t, sep).last())
            =~= split_spec(t, sep));
    } else {
        let b0 = b.drop_last();
        assert(!b0.contains(sep)) by {
            if b0.contains(sep) {
                let k = choose|k: int| 0 <= k < b0.len() && b0[k] == sep;
                assert(b[k] == sep);
            }
        }
        assert(b.last() != sep) by {
            assert(b[b.len() - 1] == b.last());
        }
        lemma_split_append(t, b0, sep);
        assert((t + b).drop_last() =~= t + b0);
        assert((t + b).last() == b.last());
        assert(split_spec(t, sep).last() + b0 + seq![b.last()] =~= split_spec(t, sep).last() + b);
        assert((split_spec(t, sep).last() + b0).push(b.last()) =~= split_spec(t, sep).last() + b);
        lemma_split_nonempty(t + b0, sep);
    }
}

/// A separator followed by text without it starts one more piece holding that text.
pub proof fn lemma_split_then_piece(t: Seq<char>, c: Seq<char>, sep: char)
    requires
        !c.contains(sep),
    ensures
        split_spec(t + seq![sep] + c, sep) == split_spec(t, sep).push(c),
{
    let ts = t + seq![sep];
    assert(ts.drop_last() =~= t);
    assert(ts.last() == sep);
    lemma_split_append(ts, c, sep);
    assert(Seq::<char>::empty() + c =~= c);
}

/// The characters of a string, in order.
pub fn chars_of(s: &str) -> (r: Vec<char>)
    ensures
        r@ == s@,
{
    let mut r: Vec<char> = Vec::new();
    for c in it: s.chars()
        invariant
            it.seq() == s@,
            r@ == it.seq().take(it.index() as int),
    {
        r.push(c);
    }
    r
}

/// `char::is_whitespace`.
pub fn is_whitespace(c: char) -> (r: bool)
    ensures
        r == is_whitespace_spec(c),
{
    let u = c as u32;
    (0x09 <= u && u <= 0x0d) || u == 0x20 || u == 0x85 || u == 0xa0 || u == 0x1680 || (0x2000 <= u
        && u <= 0x200a) || u == 0x2028 || u == 0x2029 || u == 0x202f || u == 0x205f || u == 0x3000
}

proof fn lemma_trim_start_skip(s: Seq<char>, i: int)
    requires
        0 <= i < s.len(),
        is_whitespace_spec(s[i]),
    ensures
        trim_start_spec(s.subrange(i, s.len() as int)) == trim_start_spec(
            s.subrange(i + 1, s.len() as int),
        ),
{
    assert(s.subrange(i, s.len() as int).drop_first() =~= s.subrange(i + 1, s.len() as int));
}

proof fn lemma_trim_end_skip(s: Seq<char>, j: int)
    requires
        0 < j <= s.len(),
        is_whitespace_spec(s[j - 1]),
    ensures
        trim_end_spec(s.subrange(0, j)) == trim_end_spec(s.subrange(0, j - 1)),
{
    assert(s.subrange(0, j).drop_last() =~= s.subrange(0, j - 1));
}

/// `str::trim` on a sequence of characters.
pub fn trim(s: &Vec<char>) -> (r: Vec<char>)
    ensures
        r@ == trim_spec(s@),
{
    let n = s.len();
    let mut i: usize = 0;
    assert(s@.subrange(0, n as int) =~= s@);
    while i < n && is_whitespace(s[i])
        invariant
            i <= n,
            n == s@.len(),
            trim_start_spec(s@) == trim_start_spec(s@.subrange(i as int, n as int)),
        decreases n - i,
    {
        proof {
            lemma_trim_start_skip(s@, i as int);
        }
        i = i + 1;
    }
    let ghost t = s@.subrange(i as int, n as int);
    assert(trim_start_spec(t) == t);
    let mut j: usize = n;
    assert(t.subrange(0, (j - i) as int) =~= t);
    while j > i && is_whitespace(s[j - 1])
        invariant
            i <= j <= n,
            n == s@.len(),
            t == s@.subrange(i as int, n as int),
            trim_end_spec(t) == trim_end_spec(t.subrange(0, (j - i) as int)),
        decreases j,
    {
        proof {
            lemma_trim_end_skip(t, (j - i) as int);
        }
        j = j - 1;
    }
    let mut r: Vec<char> = Vec::new();
    let mut k: usize = i;
    while k < j
        invariant
            i <= k <= j <= n,
            n == s@.len(),
            r@ == s@.subrange(i as int, k as int),
        decreases j - k,
    {
        r.push(s[k]);
        k = k + 1;
    }
    assert(r@ =~= t.subrange(0, (j - i) as int));
    r
}

proof fn lemma_split_nonempty(s: Seq<char>, sep: char)
    ensures
        split_spec(s, sep).len() >= 1,
    decreases s.len(),
{
    if s.len() > 0 {
        lemma_split_nonempty(s.drop_last(), sep);
    }
}

/// `str::split` on one character, collected.
pub fn split(s: &Vec<char>, sep: char) -> (r: Vec<Vec<char>>)
    ensures
        r@.len() == split_spec(s@, sep).len(),
        forall|k: int| 0 <= k < r@.len() ==> #[trigger] r@[k]@ == split_spec(s@, sep)[k],
{
    let mut done: Vec<Vec<char>> = Vec::new();
    let mut cur: Vec<char> = Vec::new();
    let mut i: usize = 0;
    while i < s.len()
        invariant
            i <= s@.len(),
            split_spec(s@.take(i as int), sep).len() == done@.len() + 1,
            forall|k: int|
                0 <= k < done@.len() ==> #[trigger] done@[k]@ == split_spec(s@.take(i as int), sep)[k],
            cur@ == split_spec(s@.take(i as int), sep).last(),
        decreases s@.len() - i,
    {
        let c = s[i];
        proof {
            assert(s@.take(i + 1).drop_last() =~= s@.take(i as int));
            lemma_split_nonempty(s@.take(i as int), sep);
        }
        if c == sep {
            done.push(cur);
            cur = Vec::new();
        } else {
            cur.push(c);
        }
        i = i + 1;
    }
    assert(s@.take(s@.len() as int) =~= s@);
    done.push(cur);
    done
}

/// The value of a string of decimal digits, or `None` when it exceeds `u32::MAX`.
fn digits_value(d: &Vec<char>) -> (r: Option<u32>)
    requires
        forall|i: int| 0 <= i < d@.len() ==> is_digit_spec(#[trigger] d@[i]),
    ensures
        decimal_value(d@) <= u32::MAX ==> r == Some(decimal_value(d@) as u32),
        decimal_value(d@) > u32::MAX ==> r is None,
{
    let mut v: u32 = 0;
    let mut i: usize = 0;
    while i < d.len()
        invariant
            i <= d@.len(),
            forall|k: int| 0 <= k < d@.len() ==> is_digit_spec(#[trigger] d@[k]),
            v == decimal_value(d@.take(i as int)),
        decreases d@.len() - i,
    {
        let c = d[i];
        let digit: u32 = (c as u32) - ('0' as u32);
        proof {
            assert(d@.take(i + 1).drop_last() =~= d@.take(i as int));
            assert(d@.take(i + 1).last() == c);
        }
        if v > 429496729 || (v == 429496729 && digit > 5) {
            proof {
                lemma_decimal_value_grows(d@, i + 1);
            }
            return None;
        }
        v = v * 10 + digit;
        i = i + 1;
    }
    assert(d@.take(d@.len() as int) =~= d@);
    Some(v)
}

proof fn lemma_decimal_value_grows(d: Seq<char>, i: int)
    requires
        0 <= i <= d.len(),
        forall|k: int| 0 <= k < d.len() ==> is_digit_spec(#[trigger] d[k]),
    ensures
        decimal_value(d.take(i)) <= decimal_value(d),
    decreases d.len() - i,
{
    if i < d.len() {
        lemma_decimal_value_grows(d, i + 1);
        assert(d.take(i + 1).drop_last() =~= d.take(i));
        lemma_decimal_value_nonneg(d.take(i));
    } else {
        assert(d.take(i) =~= d);
    }
}

proof fn lemma_decimal_value_nonneg(d: Seq<char>)
    requires
        forall|k: int| 0 <= k < d.len() ==> is_digit_spec(#[trigger] d[k]),
    ensures
        decimal_value(d) >= 0,
    decreases d.len(),
{
    if d.len() > 0 {
        lemma_decimal_value_nonneg(d.drop_last());
    }
}

/// `u32::from_str`, with `None` for every input that it rejects.
pub fn parse_u32(s: &Vec<char>) -> (r: Option<u32>)
    ensures
        r == parse_u32_spec(s@),
{
    let start: usize = if s.len() > 0 && s[0] == '+' {
        1
    } else {
        0
    };
    let mut d: Vec<char> = Vec::new();
    let mut i: usize = start;
    while i < s.len()
        invariant
            start <= i <= s@.len(),
            d@ == s@.subrange(start as int, i as int),
        decreases s@.len() - i,
    {
        d.push(s[i]);
        i = i + 1;
    }
    assert(d@ =~= unsigned_digits(s@));
    if d.len() == 0 {
        return None;
    }
    let mut k: usize = 0;
    while k < d.len()
        invariant
            k <= d@.len(),
            d@ == unsigned_digits(s@),
            forall|m: int| 0 <= m < k ==> is_digit_spec(#[trigger] d@[m]),
        decreases d@.len() - k,
    {
        let c = d[k];
        if !('0' <= c && c <= '9') {
            assert(!is_digit_spec(unsigned_digits(s@)[k as int]));
            return None;
        }
        k = k + 1;
    }
    digits_value(&d)
}

} // verus!
