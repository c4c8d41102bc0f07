//! Text utilities over `char` sequences: trimming, searching, lines, fields and integers.

use vstd::prelude::*;
use vstd::string::*;

verus! {

/// The characters with the Unicode `White_Space` property, the set that `char::is_whitespace` tests.
pub open spec fn is_white_space(c: char) -> bool {
    ||| '\u{9}' <= c <= '\u{d}'
    ||| c == ' '
    ||| c == '\u{85}'
    ||| c == '\u{a0}'
    ||| c == '\u{1680}'
    ||| '\u{2000}' <= c <= '\u{200a}'
    ||| c == '\u{2028}'
    ||| c == '\u{2029}'
    ||| c == '\u{202f}'
    ||| c == '\u{205f}'
    ||| c == '\u{3000}'
}

/// Tests a character for the `White_Space` property.
pub fn white_space(c: char) -> (b: bool)
    ensures
        b == is_white_space(c),
{
    ('\u{9}' <= c && c <= '\u{d}') || c == ' ' || c == '\u{85}' || c == '\u{a0}' || c == '\u{1680}'
        || ('\u{2000}' <= c && c <= '\u{200a}') || c == '\u{2028}' || c == '\u{2029}' || c
        == '\u{202f}' || c == '\u{205f}' || c == '\u{3000}'
}

/// `s` without its leading white space.
pub open spec fn trim_start(s: Seq<char>) -> Seq<char>
    decreases s.len(),
{
    if s.len() > 0 && is_white_space(s[0]) {
        trim_start(s.drop_first())
    } else {
        s
    }
}

/// `s` without its trailing white space.
pub open spec fn trim_end(s: Seq<char>) -> Seq<char>
    decreases s.len(),
{
    if s.len() > 0 && is_white_space(s.last()) {
        trim_end(s.drop_last())
    } else {
        s
    }
}

/// `s` without leading and trailing white space, as `str::trim` gives it.
pub open spec fn trim(s: Seq<char>) -> Seq<char> {
    trim_end(trim_start(s))
}

/// `s` without the leading copies of `c`, as `str::trim_start_matches(c)` gives it.
pub open spec fn strip_leading(s: Seq<char>, c: char) -> Seq<char>
    decreases s.len(),
{
    if s.len() > 0 && s[0] == c {
        strip_leading(s.drop_first(), c)
    } else {
        s
    }
}

/// The characters of a string slice, one element each.
pub fn chars_of(s: &str) -> (v: Vec<char>)
    ensures
        v@ == s@,
{
    let n = s.unicode_len();
    let mut v: Vec<char> = Vec::new();
    let mut i: usize = 0;
    while i < n
        invariant
            n == s@.len(),
            i <= n,
            v@ == s@.take(i as int),
        decreases n - i,
    {
        v.push(s.get_char(i));
        proof {
            assert(s@.take(i + 1) =~= s@.take(i as int).push(s@[i as int]));
        }
        i = i + 1;
    }
    proof {
        assert(s@.take(n as int) =~= s@);
    }
    v
}

/// The bounds `(lo, hi)` of `v[start..end]` once its leading and trailing white space is removed.
pub fn trim_bounds(v: &Vec<char>, start: usize, end: usize) -> (r: (usize, usize))
    requires
        start <= end <= v.len(),
    ensures
        start <= r.0 <= r.1 <= end,
        v@.subrange(r.0 as int, r.1 as int) == trim(v@.subrange(start as int, end as int)),
{
    let ghost s = v@.subrange(start as int, end as int);
    let mut lo = start;
    while lo < end && white_space(v[lo])
        invariant
            start <= lo <= end <= v.len(),
            s == v@.subrange(start as int, end as int),
            trim_start(s) == trim_start(v@.subrange(lo as int, end as int)),
        decreases end - lo,
    {
        proof {
            assert(v@.subrange(lo as int, end as int).drop_first() =~= v@.subrange(
                lo + 1,
                end as int,
            ));
        }
        lo = lo + 1;
    }
    let mut hi = end;
    while hi > lo && white_space(v[hi - 1])
        invariant
            start <= lo <= hi <= end <= v.len(),
            trim_start(s) == v@.subrange(lo as int, end as int),
            trim(s) == trim_end(v@.subrange(lo as int, hi as int)),
        decreases hi - lo,
    {
        proof {
            assert(v@.subrange(lo as int, hi as int).drop_last() =~= v@.subrange(
                lo as int,
                hi - 1,
            ));
        }
        hi = hi - 1;
    }
    (lo, hi)
}

/// The position of the first `c` in `s`, or the length of `s` when there is none.
pub open spec fn index_of(s: Seq<char>, c: char) -> nat
    decreases s.len(),
{
    if s.len() == 0 {
        0
    } else if s[0] == c {
        0
    } else {
        1 + index_of(s.drop_first(), c)
    }
}

/// `index_of` is a position in `s` or its end; before it no `c` occurs, and at it `c` occurs.
pub proof fn lemma_index_of(s: Seq<char>, c: char)
    ensures
        index_of(s, c) <= s.len(),
        index_of(s, c) < s.len() ==> s[index_of(s, c) as int] == c,
        forall|j: int| 0 <= j < index_of(s, c) ==> s[j] != c,
    decreases s.len(),
{
    if s.len() > 0 && s[0] != c {
        lemma_index_of(s.drop_first(), c);
        assert forall|j: int| 0 <= j < index_of(s, c) implies s[j] != c by {
            if j > 0 {
                assert(s[j] == s.drop_first()[j - 1]);
            }
        }
    }
}

/// The position of the first `c` in `v[lo..hi]`, or `hi`.
pub fn find_char(v: &Vec<char>, lo: usize, hi: usize, c: char) -> (k: usize)
    requires
        lo <= hi <= v.len(),
    ensures
        lo <= k <= hi,
        k - lo == index_of(v@.subrange(lo as int, hi as int), c),
{
    let mut k = lo;
    while k < hi && v[k] != c
        invariant
            lo <= k <= hi <= v.len(),
            index_of(v@.subrange(lo as int, hi as int), c) == (k - lo) + index_of(
                v@.subrange(k as int, hi as int),
                c,
            ),
        decreases hi - k,
    {
        proof {
            assert(v@.subrange(k as int, hi as int).drop_first() =~= v@.subrange(k + 1, hi as int));
        }
        k = k + 1;
    }
    k
}

/// A line without the carriage return that ends it, if any.
pub open spec fn strip_cr(l: Seq<char>) -> Seq<char> {
    if l.len() > 0 && l.last() == '\r' {
        l.drop_last()
    } else {
        l
    }
}

/// The lines of `s`, as `str::lines` gives them: split at `\n`, a `\r` before the `\n` removed,
/// and no empty line after a final `\n`.
pub open spec fn lines(s: Seq<char>) -> Seq<Seq<char>>
    decreases s.len(),
{
    if s.len() == 0 {
        seq![]
    } else {
        let k = index_of(s, '\n');
        proof {
            lemma_index_of(s, '\n');
        }
        if k < s.len() {
            seq![strip_cr(s.take(k as int))] + lines(s.skip(k + 1int))
        } else {
            seq![s]
        }
    }
}

/// The texts of a sequence of strings.
pub open spec fn texts(v: Seq<String>) -> Seq<Seq<char>> {
    v.map_values(|l: String| l@)
}

/// The lines of a text, each as a string of its own.
pub fn lines_of(s: &str) -> (r: Vec<String>)
    ensures
        texts(r@) == lines(s@),
{
    let v = chars_of(s);
    let n = v.len();
    let mut out: Vec<String> = Vec::new();
    let mut p: usize = 0;
    proof {
        assert(v@.subrange(0, n as int) =~= v@);
        assert(texts(out@) =~= seq![]);
    }
    while p < n
        invariant
            p <= n == v@.len(),
            v@ == s@,
            texts(out@) + lines(v@.subrange(p as int, n as int)) == lines(s@),
        decreases n - p,
    {
        let k = find_char(&v, p, n, '\n');
        let ghost t = v@.subrange(p as int, n as int);
        proof {
            lemma_index_of(t, '\n');
        }
        let mut e = k;
        if k < n && k > p && v[k - 1] == '\r' {
            e = k - 1;
        }
        let line = s.substring_char(p, e).to_owned();
        let ghost old_out = out@;
        out.push(line);
        proof {
            assert(texts(out@) =~= texts(old_out).push(line@));
            if k < n {
                assert(t.take(k - p) =~= v@.subrange(p as int, k as int));
                assert(t.skip(k - p + 1) =~= v@.subrange(k + 1, n as int));
                assert(line@ =~= strip_cr(t.take(k - p)));
                assert(lines(t) == seq![strip_cr(t.take(k - p))] + lines(t.skip(k - p + 1)));
                assert(texts(out@) + lines(v@.subrange(k + 1, n as int)) =~= texts(old_out) + lines(t));
            } else {
                assert(line@ =~= t);
                assert(lines(v@.subrange(n as int, n as int)) =~= seq![]);
                assert(texts(out@) + lines(v@.subrange(n as int, n as int)) =~= texts(old_out) + lines(t));
            }
        }
        p = if k < n {
            k + 1
        } else {
            n
        };
    }
    proof {
        assert(lines(v@.subrange(n as int, n as int)) =~= seq![]);
        assert(texts(out@) + seq![] =~= texts(out@));
    }
    out
}

/// The line holds a `:`, so that splitting it at `:` gives at least two parts.
pub open spec fn has_second_field(l: Seq<char>) -> bool {
    index_of(l, ':') < l.len()
}

/// The part of the line before its first `:`.
pub open spec fn first_field(l: Seq<char>) -> Seq<char> {
    l.take(index_of(l, ':') as int)
}

/// The part of the line between its first and its second `:` (or its end).
pub open spec fn second_field(l: Seq<char>) -> Seq<char> {
    let r = l.skip(index_of(l, ':') + 1int);
    r.take(index_of(r, ':') as int)
}

/// The first two parts of a line split at `:`, when it has two.
pub fn split_fields(line: &str) -> (r: Option<(String, String)>)
    ensures
        r is Some <==> has_second_field(line@),
        r matches Some(p) ==> p.0@ == first_field(line@) && p.1@ == second_field(line@),
{
    let v = chars_of(line);
    let n = v.len();
    let k = find_char(&v, 0, n, ':');
    proof {
        assert(v@.subrange(0, n as int) =~= v@);
    }
    if k < n {
        let k2 = find_char(&v, k + 1, n, ':');
        proof {
            assert(line@.skip(k + 1) =~= v@.subrange(k + 1, n as int));
            assert(v@.subrange(k + 1, n as int).take(k2 - k - 1) =~= v@.subrange(k + 1, k2 as int));
            assert(line@.take(k as int) =~= v@.subrange(0, k as int));
        }
        Some((line.substring_char(0, k).to_owned(), line.substring_char(k + 1, k2).to_owned()))
    } else {
        None
    }
}

/// `n` occurs in `h` at position `i`.
pub open spec fn occurs_at(h: Seq<char>, n: Seq<char>, i: int) -> bool {
    h.subrange(i, i + n.len()) == n
}

/// `n` occurs somewhere in `h`, as `str::contains` tests it (the empty text occurs everywhere).
pub open spec fn contains(h: Seq<char>, n: Seq<char>) -> bool {
    exists|i: int| 0 <= i <= h.len() - n.len() && #[trigger] occurs_at(h, n, i)
}

/// Tests whether `needle` occurs in `haystack`.
pub fn str_contains(haystack: &str, needle: &str) -> (b: bool)
    ensures
        b == contains(haystack@, needle@),
{
    let h = chars_of(haystack);
    let n = chars_of(needle);
    let hl = h.len();
    let nl = n.len();
    if nl > hl {
        return false;
    }
    let mut i: usize = 0;
    while i <= hl - nl
        invariant
            nl <= hl,
            hl == h@.len(),
            nl == n@.len(),
            h@ == haystack@,
            n@ == needle@,
            i <= hl - nl + 1,
            forall|j: int| 0 <= j < i ==> !occurs_at(h@, n@, j),
        decreases hl - nl + 1 - i,
    {
        let mut k: usize = 0;
        while k < nl && h[i + k] == n[k]
            invariant
                i <= hl - nl,
                nl <= hl,
                hl == h@.len(),
                nl == n@.len(),
                k <= nl,
                forall|m: int| 0 <= m < k ==> h@[i + m] == n@[m],
            decreases nl - k,
        {
            k = k + 1;
        }
        if k == nl {
            proof {
                assert(h@.subrange(i as int, i + nl) =~= n@);
                assert(occurs_at(h@, n@, i as int));
            }
            return true;
        }
        proof {
            assert(h@.subrange(i as int, i + nl)[k as int] != n@[k as int]);
        }
        i = i + 1;
    }
    false
}

/// Containment is transitive: a text that contains `b` contains whatever `b` contains.
pub proof fn lemma_contains_transitive(a: Seq<char>, b: Seq<char>, c: Seq<char>)
    requires
        contains(a, b),
        contains(b, c),
    ensures
        contains(a, c),
{
    let i = choose|i: int| 0 <= i <= a.len() - b.len() && #[trigger] occurs_at(a, b, i);
    let j = choose|j: int| 0 <= j <= b.len() - c.len() && #[trigger] occurs_at(b, c, j);
    assert(a.subrange(i + j, i + j + c.len()) =~= c) by {
        assert forall|k: int| 0 <= k < c.len() implies a[i + j + k] == c[k] by {
            assert(b.subrange(j, j + c.len())[k] == c[k]);
            assert(a.subrange(i, i + b.len())[j + k] == b[j + k]);
        }
    }
    assert(occurs_at(a, c, i + j));
}

/// `c` is an ASCII decimal digit.
pub open spec fn is_digit(c: char) -> bool {
    '0' <= c <= '9'
}

/// The value of a sequence of decimal digits.
pub open spec fn decimal_value(d: Seq<char>) -> int
    decreases d.len(),
{
    if d.len() == 0 {
        0
    } else {
        decimal_value(d.drop_last()) * 10 + (d.last() as int - '0' as int)
    }
}

/// The digits of an integer text, after its sign if it has one.
pub open spec fn unsigned_part(s: Seq<char>) -> Seq<char> {
    if s.len() > 0 && (s[0] == '-' || s[0] == '+') {
        s.drop_first()
    } else {
        s
    }
}

/// What `str::parse::<i32>` gives: an optional `+` or `-`, then at least one decimal digit and
/// nothing else, with a value that fits in `i32`.
pub open spec fn parsed_i32(s: Seq<char>) -> Option<i32> {
    let d = unsigned_part(s);
    let v = if s.len() > 0 && s[0] == '-' {
        -decimal_value(d)
    } else {
        decimal_value(d)
    };
    if d.len() > 0 && (forall|i: int| 0 <= i < d.len() ==> is_digit(#[trigger] d[i])) && i32::MIN
        <= v <= i32::MAX {
        Some(v as i32)
    } else {
        None
    }
}

proof fn lemma_decimal_value_nonneg(d: Seq<char>)
    requires
        forall|i: int| 0 <= i < d.len() ==> is_digit(#[trigger] d[i]),
    ensures
        decimal_value(d) >= 0,
    decreases d.len(),
{
    if d.len() > 0 {
        lemma_decimal_value_nonneg(d.drop_last());
    }
}

/// Parses a decimal `i32` the way `str::parse::<i32>` does.
pub fn parse_i32(s: &str) -> (r: Option<i32>)
    ensures
        r == parsed_i32(s@),
{
    let v = chars_of(s);
    let n = v.len();
    let neg = n > 0 && v[0] == '-';
    let start: usize = if n > 0 && (v[0] == '-' || v[0] == '+') {
        1
    } else {
        0
    };
    let ghost d = unsigned_part(s@);
    proof {
        assert(d =~= v@.subrange(start as int, n as int));
    }
    if start == n {
        return None;
    }
    let limit: u64 = 0x8000_0000;
    let mut acc: u64 = 0;
    let mut big = false;
    let mut k: usize = start;
    while k < n
        invariant
            start <= k <= n == v@.len(),
            v@ == s@,
            d == v@.subrange(start as int, n as int),
            d == unsigned_part(s@),
            limit == 0x8000_0000,
            forall|i: int| 0 <= i < k - start ==> is_digit(#[trigger] d[i]),
            !big ==> acc == decimal_value(d.take(k - start)) && acc <= limit,
            big ==> decimal_value(d.take(k - start)) > limit,
        decreases n - k,
    {
        let c = v[k];
        if !('0' <= c && c <= '9') {
            proof {
                assert(!is_digit(d[k - start]));
            }
            return None;
        }
        let dig = (c as u32 - '0' as u32) as u64;
        proof {
            assert(d.take(k - start + 1).drop_last() =~= d.take(k - start));
            assert(d.take(k - start + 1).last() == c);
            lemma_decimal_value_nonneg(d.take(k - start));
        }
        if !big {
            let next = acc * 10 + dig;
            if next > limit {
                big = true;
            } else {
                acc = next;
            }
        }
        k = k + 1;
    }
    proof {
        assert(d.take(n - start) =~= d);
    }
    if big {
        None
    } else if neg {
        Some((0 - acc as i64) as i32)
    } else if acc < limit {
        Some(acc as i32)
    } else {
        None
    }
}

/// The lower-case form of a text, as `str::to_lowercase` maps it by the Unicode case tables.
pub uninterp spec fn lowercase(s: Seq<char>) -> Seq<char>;

/// The lower-case form of a text, from `str::to_lowercase`; the contract names the result
/// `lowercase` of the text and says nothing more of it.
#[verifier::external_body]
pub(crate) fn to_lowercase(s: &str) -> (r: String)
    ensures
        r@ == lowercase(s@),
{
    s.to_lowercase()
}

/// Appends a character, by `String::push`.
#[verifier::external_body]
pub(crate) fn push_char(s: &mut String, c: char)
    ensures
        final(s)@ == old(s)@.push(c),
{
    s.push(c)
}

/// Removes the last character, by `String::pop`: it is handed back, or `None` when the string is empty.
#[verifier::external_body]
pub(crate) fn pop_char(s: &mut String) -> (r: Option<char>)
    ensures
        old(s)@.len() == 0 ==> r is None && final(s)@ == old(s)@,
        old(s)@.len() > 0 ==> r == Some(old(s)@.last()) && final(s)@ == old(s)@.drop_last(),
{
    s.pop()
}

} // verus!
