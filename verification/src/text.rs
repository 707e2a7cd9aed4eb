//! Text as sequences of characters: decimal numerals, comparison and the
//! notion of one text occurring inside another.

use vstd::prelude::*;

verus! {

/// The character that writes the digit `d` (0 to 9).
pub open spec fn digit_char(d: nat) -> char {
    if d == 0 {
        '0'
    } else if d == 1 {
        '1'
    } else if d == 2 {
        '2'
    } else if d == 3 {
        '3'
    } else if d == 4 {
        '4'
    } else if d == 5 {
        '5'
    } else if d == 6 {
        '6'
    } else if d == 7 {
        '7'
    } else if d == 8 {
        '8'
    } else {
        '9'
    }
}

/// The decimal numeral of `n`, without leading zeros (`0` is written "0").
pub open spec fn decimal(n: nat) -> Seq<char>
    decreases n,
{
    if n < 10 {
        seq![digit_char(n)]
    } else {
        decimal(n / 10).push(digit_char(n % 10))
    }
}

/// The decimal numeral of a signed integer: a minus sign before the numeral
/// of the magnitude when the integer is negative.
pub open spec fn signed_decimal(i: int) -> Seq<char> {
    if i < 0 {
        seq!['-'] + decimal((-i) as nat)
    } else {
        decimal(i as nat)
    }
}

/// `needle` stands in `hay` starting at position `at`.
pub open spec fn occurs_at(hay: Seq<char>, needle: Seq<char>, at: int) -> bool {
    &&& 0 <= at
    &&& at + needle.len() <= hay.len()
    &&& hay.subrange(at, at + needle.len()) == needle
}

/// `needle` stands somewhere in `hay`.
pub open spec fn contains_text(hay: Seq<char>, needle: Seq<char>) -> bool {
    exists|at: int| occurs_at(hay, needle, at)
}

/// No character of `s` is `c`.
pub open spec fn free_of(s: Seq<char>, c: char) -> bool {
    forall|i: int| 0 <= i < s.len() ==> s[i] != c
}

/// No character of `s` from position `lo` up to, not including, `hi` is `c`.
/// The range is halved until single characters are left, so that a check
/// over a long literal unfolds to a shallow tree.
pub open spec fn range_free_of(s: Seq<char>, c: char, lo: int, hi: int) -> bool
    decreases hi - lo,
{
    if hi - lo <= 0 {
        true
    } else if hi - lo == 1 {
        s[lo] != c
    } else {
        let mid = lo + (hi - lo) / 2;
        range_free_of(s, c, lo, mid) && range_free_of(s, c, mid, hi)
    }
}

/// A range that was checked half by half holds no `c`.
pub proof fn lemma_range_free_of(s: Seq<char>, c: char, lo: int, hi: int)
    requires
        range_free_of(s, c, lo, hi),
    ensures
        forall|i: int| lo <= i < hi ==> s[i] != c,
    decreases hi - lo,
{
    if hi - lo >= 2 {
        let mid = lo + (hi - lo) / 2;
        lemma_range_free_of(s, c, lo, mid);
        lemma_range_free_of(s, c, mid, hi);
    }
}

/// At offset `m` the needle parts ways with `next` within the first three
/// characters of `next`: a needle whose first `m` characters end a text
/// cannot go on into `next`.
pub open spec fn diverges(needle: Seq<char>, m: int, next: Seq<char>) -> bool {
    ||| 0 < next.len() && next[0] != needle[m]
    ||| 1 < next.len() && m + 1 < needle.len() && next[1] != needle[m + 1]
    ||| 2 < next.len() && m + 2 < needle.len() && next[2] != needle[m + 2]
}

/// No occurrence of `needle` that begins before `next` runs on into it.
pub open spec fn stops(needle: Seq<char>, next: Seq<char>) -> bool {
    forall|m: int| 1 <= m < needle.len() ==> diverges(needle, m, next)
}

/// [`stops`] for the offsets from `lo` up to, not including, `hi`, halved as
/// in [`range_free_of`].
pub open spec fn range_stops(needle: Seq<char>, next: Seq<char>, lo: int, hi: int) -> bool
    decreases hi - lo,
{
    if hi - lo <= 0 {
        true
    } else if hi - lo == 1 {
        diverges(needle, lo, next)
    } else {
        let mid = lo + (hi - lo) / 2;
        range_stops(needle, next, lo, mid) && range_stops(needle, next, mid, hi)
    }
}

/// A range of offsets that was checked half by half stops the needle.
pub proof fn lemma_range_stops(needle: Seq<char>, next: Seq<char>, lo: int, hi: int)
    requires
        range_stops(needle, next, lo, hi),
    ensures
        forall|m: int| lo <= m < hi ==> diverges(needle, m, next),
    decreases hi - lo,
{
    if hi - lo >= 2 {
        let mid = lo + (hi - lo) / 2;
        lemma_range_stops(needle, next, lo, mid);
        lemma_range_stops(needle, next, mid, hi);
    }
}

/// A text that begins with a character that the needle lacks stops it.
pub proof fn lemma_stops_at_first(needle: Seq<char>, next: Seq<char>)
    requires
        next.len() > 0,
        free_of(needle, next[0]),
    ensures
        stops(needle, next),
{
}

/// The first `n` of `parts`, one after the other.
pub open spec fn join_first(parts: Seq<Seq<char>>, n: int) -> Seq<char>
    decreases n,
{
    if n <= 0 {
        Seq::<char>::empty()
    } else {
        join_first(parts, n - 1) + parts[n - 1]
    }
}

/// All of `parts`, one after the other.
pub open spec fn join(parts: Seq<Seq<char>>) -> Seq<char> {
    join_first(parts, parts.len() as int)
}

/// Part `k` stands in the joined text where the parts before it end.
pub proof fn lemma_join_part(parts: Seq<Seq<char>>, n: int, k: int)
    requires
        0 <= k < n <= parts.len(),
    ensures
        join_first(parts, k + 1).len() == join_first(parts, k).len() + parts[k].len(),
        join_first(parts, k + 1).len() <= join_first(parts, n).len(),
        forall|i: int|
            0 <= i < parts[k].len() ==> join_first(parts, n)[join_first(parts, k).len() + i]
                == #[trigger] parts[k][i],
    decreases n,
{
    if k < n - 1 {
        lemma_join_part(parts, n - 1, k);
    }
}

/// Every position of the joined text lies in one of the parts.
pub proof fn lemma_join_locate(parts: Seq<Seq<char>>, n: int, at: int) -> (k: int)
    requires
        0 <= n <= parts.len(),
        0 <= at < join_first(parts, n).len(),
    ensures
        0 <= k < n,
        join_first(parts, k).len() <= at < join_first(parts, k).len() + parts[k].len(),
    decreases n,
{
    if at >= join_first(parts, n - 1).len() {
        n - 1
    } else {
        lemma_join_locate(parts, n - 1, at)
    }
}

/// What stands in a part stands in the joined text.
pub proof fn lemma_join_contains(parts: Seq<Seq<char>>, k: int, needle: Seq<char>)
    requires
        0 <= k < parts.len(),
        contains_text(parts[k], needle),
    ensures
        contains_text(join(parts), needle),
{
    let hay = join(parts);
    let off = choose|off: int| occurs_at(parts[k], needle, off);
    let start = join_first(parts, k).len() as int;
    lemma_join_part(parts, parts.len() as int, k);
    assert forall|i: int| 0 <= i < needle.len() implies hay[start + off + i] == needle[i] by {
        assert(parts[k].subrange(off, off + needle.len())[i] == needle[i]);
        assert(hay[start + (off + i)] == parts[k][off + i]);
    }
    assert(hay.subrange(start + off, start + off + needle.len()) =~= needle);
    assert(occurs_at(hay, needle, start + off));
}

/// A part holds the needle's first character only where the needle cannot
/// run on beyond it: the part is the last, or the next part stops the needle.
pub open spec fn sealed(parts: Seq<Seq<char>>, k: int, needle: Seq<char>) -> bool {
    ||| free_of(parts[k], needle[0])
    ||| k + 1 == parts.len()
    ||| k + 1 < parts.len() && stops(needle, parts[k + 1])
}

/// In a text joined from sealed parts, every occurrence of the needle lies
/// within one part.
pub proof fn lemma_occurrence_in_join(parts: Seq<Seq<char>>, needle: Seq<char>, at: int) -> (k:
    int)
    requires
        needle.len() > 0,
        occurs_at(join(parts), needle, at),
        forall|k: int| 0 <= k < parts.len() ==> sealed(parts, k, needle),
    ensures
        0 <= k < parts.len(),
        occurs_at(parts[k], needle, at - join_first(parts, k).len()),
{
    let hay = join(parts);
    let n = parts.len() as int;
    assert forall|i: int| 0 <= i < needle.len() implies hay[at + i] == needle[i] by {
        assert(hay.subrange(at, at + needle.len())[i] == needle[i]);
    }
    let k = lemma_join_locate(parts, n, at);
    let start = join_first(parts, k).len() as int;
    let off = at - start;
    let end = start + parts[k].len();
    lemma_join_part(parts, n, k);
    assert(hay[start + off] == parts[k][off]);
    assert(hay[at + 0] == needle[0]);
    assert(sealed(parts, k, needle));
    if at + needle.len() > end {
        let m = end - at;
        assert(k + 1 < n);
        assert(diverges(needle, m, parts[k + 1]));
        lemma_join_part(parts, n, k + 1);
        let next = parts[k + 1];
        if 0 < next.len() && next[0] != needle[m] {
            assert(hay[end + 0] == next[0]);
            assert(hay[at + m] == needle[m]);
        } else if 1 < next.len() && m + 1 < needle.len() && next[1] != needle[m + 1] {
            assert(hay[end + 1] == next[1]);
            assert(hay[at + (m + 1)] == needle[m + 1]);
        } else {
            assert(hay[end + 2] == next[2]);
            assert(hay[at + (m + 2)] == needle[m + 2]);
        }
        assert(false);
    }
    assert forall|i: int| 0 <= i < needle.len() implies parts[k][off + i] == needle[i] by {
        assert(hay[start + (off + i)] == parts[k][off + i]);
        assert(hay[at + i] == needle[i]);
    }
    assert(parts[k].subrange(off, off + needle.len()) =~= needle);
    k
}

/// A text that holds the needle holds the needle's first character.
pub proof fn lemma_contains_first(hay: Seq<char>, needle: Seq<char>)
    requires
        needle.len() > 0,
        contains_text(hay, needle),
    ensures
        !free_of(hay, needle[0]),
{
    let at = choose|at: int| occurs_at(hay, needle, at);
    assert(hay.subrange(at, at + needle.len())[0] == needle[0]);
    assert(hay[at] == needle[0]);
}

/// Whether `c` is a decimal digit.
pub open spec fn is_digit(c: char) -> bool {
    c == '0' || c == '1' || c == '2' || c == '3' || c == '4' || c == '5' || c == '6' || c == '7'
        || c == '8' || c == '9'
}

/// A decimal numeral is made of digits, at least one.
pub proof fn lemma_decimal_digits(n: nat)
    ensures
        decimal(n).len() > 0,
        forall|i: int| 0 <= i < decimal(n).len() ==> is_digit(#[trigger] decimal(n)[i]),
    decreases n,
{
    if n >= 10 {
        lemma_decimal_digits(n / 10);
    }
}

/// One decimal digit as a string.
fn digit_str(d: u64) -> (s: &'static str)
    requires
        d < 10,
    ensures
        s@ == seq![digit_char(d as nat)],
{
    proof {
        reveal_strlit("0");
        reveal_strlit("1");
        reveal_strlit("2");
        reveal_strlit("3");
        reveal_strlit("4");
        reveal_strlit("5");
        reveal_strlit("6");
        reveal_strlit("7");
        reveal_strlit("8");
        reveal_strlit("9");
    }
    let s = if d == 0 {
        "0"
    } else if d == 1 {
        "1"
    } else if d == 2 {
        "2"
    } else if d == 3 {
        "3"
    } else if d == 4 {
        "4"
    } else if d == 5 {
        "5"
    } else if d == 6 {
        "6"
    } else if d == 7 {
        "7"
    } else if d == 8 {
        "8"
    } else {
        "9"
    };
    assert(s@ =~= seq![digit_char(d as nat)]);
    s
}

/// Appends the decimal numeral of `n` to `out`.
pub fn push_decimal(out: &mut String, n: u64)
    ensures
        final(out)@ == old(out)@ + decimal(n as nat),
    decreases n,
{
    if n >= 10 {
        push_decimal(out, n / 10);
    }
    let d = digit_str(n % 10);
    out.append(d);
    proof {
        if n >= 10 {
            assert(final(out)@ =~= old(out)@ + decimal((n / 10) as nat).push(
                digit_char((n % 10) as nat),
            ));
        }
    }
}

/// The decimal numeral of `n` as a string.
pub fn decimal_string(n: u64) -> (s: String)
    ensures
        s@ == decimal(n as nat),
{
    let mut s = String::new();
    push_decimal(&mut s, n);
    assert(s@ =~= decimal(n as nat));
    s
}

/// Appends the decimal numeral of the signed integer `i` to `out`.
pub fn push_signed_decimal(out: &mut String, i: i64)
    ensures
        final(out)@ == old(out)@ + signed_decimal(i as int),
{
    if i < 0 {
        out.append("-");
        let magnitude: u64 = (-(i + 1)) as u64 + 1;
        push_decimal(out, magnitude);
        proof {
            reveal_strlit("-");
            assert("-"@ =~= seq!['-']);
            assert(final(out)@ =~= old(out)@ + (seq!['-'] + decimal((-i) as nat)));
        }
    } else {
        push_decimal(out, i as u64);
    }
}

/// How a truth value is written.
pub open spec fn truth_text(b: bool) -> Seq<char> {
    if b {
        "true"@
    } else {
        "false"@
    }
}

/// How a truth value is written.
pub fn truth_str(b: bool) -> (s: &'static str)
    ensures
        s@ == truth_text(b),
{
    if b {
        "true"
    } else {
        "false"
    }
}

/// `s` without the characters `c` that end it.
pub open spec fn without_trailing(s: Seq<char>, c: char) -> Seq<char>
    decreases s.len(),
{
    if s.len() > 0 && s.last() == c {
        without_trailing(s.drop_last(), c)
    } else {
        s
    }
}

/// Dropping the characters `c` that end a text from its end first leaves
/// what dropping them from the whole text leaves.
proof fn lemma_without_trailing_step(s: Seq<char>, c: char, end: int)
    requires
        0 < end <= s.len(),
        s[end - 1] == c,
    ensures
        without_trailing(s.subrange(0, end), c) == without_trailing(s.subrange(0, end - 1), c),
{
    assert(s.subrange(0, end).drop_last() =~= s.subrange(0, end - 1));
}

/// The slice of `s` without every `c` at its end.
pub fn trim_trailing<'a>(s: &'a str, c: char) -> (r: &'a str)
    ensures
        r@ == without_trailing(s@, c),
{
    let mut end: usize = s.unicode_len();
    assert(s@.subrange(0, end as int) =~= s@);
    while end > 0 && s.get_char(end - 1) == c
        invariant
            end <= s@.len(),
            without_trailing(s@, c) == without_trailing(s@.subrange(0, end as int), c),
        decreases end,
    {
        proof {
            lemma_without_trailing_step(s@, c, end as int);
        }
        end = end - 1;
    }
    s.substring_char(0, end)
}

/// `s` without the white space that opens and ends it, as `str::trim` takes
/// white space.
pub uninterp spec fn trimmed(s: Seq<char>) -> Seq<char>;

/// `str::trim`: the slice without leading and trailing white space.
#[verifier::external_body]
pub(crate) fn trim<'a>(s: &'a str) -> (r: &'a str)
    ensures
        r@ == trimmed(s@),
{
    s.trim()
}

/// The first `n` characters of `s`, or all of `s` where it has no more.
pub open spec fn leading(s: Seq<char>, n: nat) -> Seq<char> {
    if s.len() <= n {
        s
    } else {
        s.subrange(0, n as int)
    }
}

/// The first `n` characters of `s`, or all of `s` where it has no more.
pub fn first_chars<'a>(s: &'a str, n: usize) -> (r: &'a str)
    ensures
        r@ == leading(s@, n as nat),
{
    if s.unicode_len() <= n {
        s
    } else {
        s.substring_char(0, n)
    }
}

/// Whether two texts are the same, character for character.
pub fn same_text(a: &str, b: &str) -> (same: bool)
    ensures
        same == (a@ == b@),
{
    let x = String::from_str(a);
    let y = String::from_str(b);
    x == y
}

} // verus!
