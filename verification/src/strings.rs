//! Character-level string operations with exact contracts: substring search,
//! field splitting, replacement and decimal parsing.
use vstd::prelude::*;

use crate::text::str_eq;

verus! {

/// `pat` occurs in `s` at position `i`.
pub open spec fn occurs_at(s: Seq<char>, pat: Seq<char>, i: int) -> bool {
    0 <= i && i + pat.len() <= s.len() && s.subrange(i, i + pat.len()) == pat
}

/// `pat` occurs somewhere in `s`.
pub open spec fn has_infix(s: Seq<char>, pat: Seq<char>) -> bool {
    exists|i: int| occurs_at(s, pat, i)
}

/// Whether `needle` occurs in `hay`, as `str::contains` with a string pattern.
pub fn contains_str(hay: &str, needle: &str) -> (r: bool)
    ensures
        r == has_infix(hay@, needle@),
{
    let n = hay.unicode_len();
    let m = needle.unicode_len();
    if m > n {
        assert forall|i: int| !occurs_at(hay@, needle@, i) by {}
        return false;
    }
    let last = n - m;
    let mut i: usize = 0;
    loop
        invariant
            n == hay@.len(),
            m == needle@.len(),
            last == n - m,
            0 <= i <= last,
            forall|j: int| 0 <= j < i ==> !occurs_at(hay@, needle@, j),
        decreases last - i,
    {
        let part = hay.substring_char(i, i + m);
        if str_eq(part, needle) {
            assert(occurs_at(hay@, needle@, i as int));
            return true;
        }
        if i == last {
            assert forall|j: int| !occurs_at(hay@, needle@, j) by {
                if 0 <= j && j + m <= n {
                    assert(j <= i);
                }
            }
            return false;
        }
        i = i + 1;
    }
}

/// Position of the first `c` in `s`.
pub open spec fn first_index_of(s: Seq<char>, c: char) -> Option<int>
    decreases s.len(),
{
    if s.len() == 0 {
        None
    } else if s[0] == c {
        Some(0)
    } else {
        match first_index_of(s.drop_first(), c) {
            Some(i) => Some(i + 1),
            None => None,
        }
    }
}

/// The pieces of `s` between occurrences of `sep`, at most `n` of them:
/// the last piece keeps the rest of the text, separators included, as
/// `str::splitn` gives them.
pub open spec fn splitn_spec(s: Seq<char>, n: nat, sep: char) -> Seq<Seq<char>>
    decreases n,
{
    if n <= 1 {
        seq![s]
    } else {
        match first_index_of(s, sep) {
            None => seq![s],
            Some(i) => seq![s.take(i)] + splitn_spec(s.skip(i + 1), (n - 1) as nat, sep),
        }
    }
}

proof fn lemma_first_index_of(s: Seq<char>, c: char)
    ensures
        match first_index_of(s, c) {
            Some(i) => 0 <= i < s.len() && s[i] == c && forall|j: int| 0 <= j < i ==> s[j] != c,
            None => forall|j: int| 0 <= j < s.len() ==> s[j] != c,
        },
    decreases s.len(),
{
    if s.len() > 0 {
        lemma_first_index_of(s.drop_first(), c);
        if s[0] != c {
            match first_index_of(s.drop_first(), c) {
                Some(i) => {
                    assert forall|j: int| 0 <= j < i + 1 implies s[j] != c by {
                        if j > 0 {
                            assert(s[j] == s.drop_first()[j - 1]);
                        }
                    }
                },
                None => {
                    assert forall|j: int| 0 <= j < s.len() implies s[j] != c by {
                        if j > 0 {
                            assert(s[j] == s.drop_first()[j - 1]);
                        }
                    }
                },
            }
        }
    }
}

/// Finds the first `c` at or after position `from`.
fn find_char_from(s: &str, c: char, from: usize) -> (r: Option<usize>)
    requires
        from <= s@.len(),
    ensures
        match r {
            Some(i) => from <= i < s@.len() && s@[i as int] == c && forall|j: int|
                from <= j < i ==> s@[j] != c,
            None => forall|j: int| from <= j < s@.len() ==> s@[j] != c,
        },
{
    let n = s.unicode_len();
    let mut i = from;
    while i < n
        invariant
            n == s@.len(),
            from <= i <= n,
            forall|j: int| from <= j < i ==> s@[j] != c,
        decreases n - i,
    {
        if s.get_char(i) == c {
            return Some(i);
        }
        i = i + 1;
    }
    None
}

proof fn lemma_first_index_matches(s: Seq<char>, c: char, i: int)
    requires
        0 <= i < s.len(),
        s[i] == c,
        forall|j: int| 0 <= j < i ==> s[j] != c,
    ensures
        first_index_of(s, c) == Some(i),
{
    lemma_first_index_of(s, c);
    match first_index_of(s, c) {
        Some(k) => {
            if k < i {
            } else if k > i {
            }
        },
        None => {},
    }
}

proof fn lemma_first_index_none(s: Seq<char>, c: char)
    requires
        forall|j: int| 0 <= j < s.len() ==> s[j] != c,
    ensures
        first_index_of(s, c) is None,
{
    lemma_first_index_of(s, c);
    match first_index_of(s, c) {
        Some(k) => {
            assert(s[k] != c);
        },
        None => {},
    }
}

/// Splits `s` at `sep` into at most `n` pieces, as `str::splitn`.
pub fn split_fields(s: &str, n: usize, sep: char) -> (parts: Vec<String>)
    requires
        n >= 1,
    ensures
        parts@.len() == splitn_spec(s@, n as nat, sep).len(),
        forall|k: int| 0 <= k < parts@.len() ==> #[trigger] parts@[k]@ == splitn_spec(s@, n as nat, sep)[k],
{
    let len = s.unicode_len();
    let mut parts: Vec<String> = Vec::new();
    let mut start: usize = 0;
    let mut left: usize = n;
    assert(s@.skip(0) =~= s@);
    assert(parts@.map_values(|p: String| p@) + splitn_spec(s@, n as nat, sep) =~= splitn_spec(s@, n as nat, sep));
    loop
        invariant
            len == s@.len(),
            start <= len,
            1 <= left <= n,
            parts@.len() + left == n,
            forall|k: int| 0 <= k < parts@.len() ==> #[trigger] parts@[k]@ == splitn_spec(s@, n as nat, sep)[k],
            splitn_spec(s@, n as nat, sep) == parts@.map_values(|p: String| p@) + splitn_spec(
                s@.skip(start as int),
                left as nat,
                sep,
            ),
        decreases left,
    {
        let ghost rest: Seq<char> = s@.skip(start as int);
        if left == 1 {
            let piece = s.substring_char(start, len);
            parts.push(piece.to_string());
            assert(piece@ =~= rest);
            assert(parts@.map_values(|p: String| p@) =~= splitn_spec(s@, n as nat, sep));
            return parts;
        }
        match find_char_from(s, sep, start) {
            None => {
                proof {
                    lemma_first_index_none(rest, sep);
                }
                let piece = s.substring_char(start, len);
                parts.push(piece.to_string());
                assert(piece@ =~= rest);
                assert(parts@.map_values(|p: String| p@) =~= splitn_spec(s@, n as nat, sep));
                return parts;
            },
            Some(i) => {
                proof {
                    lemma_first_index_matches(rest, sep, i - start);
                    assert(rest.take(i - start) =~= s@.subrange(start as int, i as int));
                    assert(rest.skip(i - start + 1) =~= s@.skip(i + 1));
                }
                let piece = s.substring_char(start, i);
                parts.push(piece.to_string());
                assert(parts@.map_values(|p: String| p@) =~= splitn_spec(s@, n as nat, sep).take(
                    parts@.len() as int,
                )) by {
                    assert(parts@.map_values(|p: String| p@)[parts@.len() - 1] == rest.take(
                        i - start,
                    ));
                }
                start = i + 1;
                left = left - 1;
            },
        }
    }
}

/// An ASCII decimal digit.
pub open spec fn is_digit(c: char) -> bool {
    '0' <= c && c <= '9'
}

/// Every character of `s` is a decimal digit.
pub open spec fn all_digits(s: Seq<char>) -> bool {
    forall|i: int| 0 <= i < s.len() ==> is_digit(#[trigger] s[i])
}

/// The number written by a string of decimal digits.
pub open spec fn digits_value(s: Seq<char>) -> nat
    decreases s.len(),
{
    if s.len() == 0 {
        0
    } else {
        digits_value(s.drop_last()) * 10 + (s.last() as nat - '0' as nat) as nat
    }
}

/// What `str::parse::<u32>` gives: an optional `+` sign followed by one or
/// more decimal digits whose value fits in 32 bits; anything else fails.
pub open spec fn parsed_u32(s: Seq<char>) -> Option<u32> {
    let body = if s.len() > 0 && s[0] == '+' {
        s.drop_first()
    } else {
        s
    };
    if body.len() > 0 && all_digits(body) && digits_value(body) <= u32::MAX {
        Some(digits_value(body) as u32)
    } else {
        None
    }
}

proof fn lemma_digits_value_grows(t: Seq<char>, k: int)
    requires
        0 <= k <= t.len(),
        forall|i: int| 0 <= i < t.len() ==> is_digit(#[trigger] t[i]),
    ensures
        digits_value(t) >= digits_value(t.take(k)),
    decreases t.len(),
{
    if k < t.len() {
        assert(t.drop_last().take(k) =~= t.take(k));
        assert forall|i: int| 0 <= i < t.drop_last().len() implies is_digit(#[trigger] t.drop_last()[i]) by {
            assert(t.drop_last()[i] == t[i]);
        }
        lemma_digits_value_grows(t.drop_last(), k);
    } else {
        assert(t.take(k) =~= t);
    }
}

/// Parses a decimal `u32` exactly as `str::parse::<u32>` does.
pub fn parse_u32(s: &str) -> (r: Option<u32>)
    ensures
        r == parsed_u32(s@),
{
    let n = s.unicode_len();
    let mut start: usize = 0;
    if n > 0 && s.get_char(0) == '+' {
        start = 1;
    }
    let ghost body = if s@.len() > 0 && s@[0] == '+' {
        s@.drop_first()
    } else {
        s@
    };
    assert(body =~= s@.subrange(start as int, n as int));
    if start == n {
        return None;
    }
    let mut v: u64 = 0;
    let mut i: usize = start;
    assert(s@.subrange(start as int, start as int) =~= Seq::<char>::empty());
    while i < n
        invariant
            n == s@.len(),
            start < n,
            start <= i <= n,
            body =~= s@.subrange(start as int, n as int),
            body == (if s@.len() > 0 && s@[0] == '+' {
                s@.drop_first()
            } else {
                s@
            }),
            v == digits_value(s@.subrange(start as int, i as int)),
            v <= u32::MAX,
            forall|j: int| start <= j < i ==> is_digit(#[trigger] s@[j]),
        decreases n - i,
    {
        let c = s.get_char(i);
        if !('0' <= c && c <= '9') {
            assert(body[i - start] == s@[i as int]);
            assert(!is_digit(body[i - start]));
            assert(!all_digits(body));
            return None;
        }
        let d: u64 = (c as u32 - '0' as u32) as u64;
        proof {
            let pre = s@.subrange(start as int, i as int + 1);
            assert(pre.drop_last() =~= s@.subrange(start as int, i as int));
            assert(pre.last() == c);
        }
        v = v * 10 + d;
        assert(v == digits_value(s@.subrange(start as int, i as int + 1)));
        if v > 0xFFFF_FFFFu64 {
            proof {
                if all_digits(body) {
                    lemma_digits_value_grows(body, i - start + 1);
                    assert(body.take(i - start + 1) =~= s@.subrange(start as int, i as int + 1));
                }
            }
            return None;
        }
        i = i + 1;
    }
    proof {
        assert forall|j: int| 0 <= j < body.len() implies is_digit(#[trigger] body[j]) by {
            assert(body[j] == s@[start + j]);
        }
        assert(all_digits(body));
    }
    Some(v as u32)
}

/// `s` with every occurrence of `from` replaced by `to`, scanning left to
/// right without overlaps, as `str::replace` does for a non-empty pattern.
pub open spec fn replaced(s: Seq<char>, from: Seq<char>, to: Seq<char>) -> Seq<char>
    decreases s.len(),
{
    if from.len() == 0 || s.len() < from.len() {
        s
    } else if s.take(from.len() as int) == from {
        to + replaced(s.skip(from.len() as int), from, to)
    } else {
        seq![s[0]] + replaced(s.drop_first(), from, to)
    }
}

/// Replaces every occurrence of the non-empty pattern `from` by `to`.
pub fn replace_all(s: &str, from: &str, to: &str) -> (out: String)
    requires
        from@.len() > 0,
    ensures
        out@ == replaced(s@, from@, to@),
{
    let n = s.unicode_len();
    let m = from.unicode_len();
    let mut out = String::new();
    let mut i: usize = 0;
    assert(s@.skip(0) =~= s@);
    while i < n
        invariant
            n == s@.len(),
            m == from@.len(),
            m > 0,
            i <= n,
            out@ + replaced(s@.skip(i as int), from@, to@) == replaced(s@, from@, to@),
        decreases n - i,
    {
        let ghost rest = s@.skip(i as int);
        if m <= n - i && str_eq(s.substring_char(i, i + m), from) {
            assert(rest.take(m as int) =~= s@.subrange(i as int, i + m));
            assert(rest.skip(m as int) =~= s@.skip(i + m));
            out.append(to);
            i = i + m;
            assert(out@ + replaced(s@.skip(i as int), from@, to@) =~= replaced(s@, from@, to@));
        } else {
            if m <= n - i {
                assert(rest.take(m as int) =~= s@.subrange(i as int, i + m));
            }
            let one = s.substring_char(i, i + 1);
            assert(one@ =~= seq![rest[0]]);
            assert(rest.drop_first() =~= s@.skip(i + 1));
            out.append(one);
            i = i + 1;
            assert(out@ + replaced(s@.skip(i as int), from@, to@) =~= replaced(s@, from@, to@));
        }
    }
    assert(s@.skip(n as int) =~= Seq::<char>::empty());
    assert(out@ + Seq::<char>::empty() =~= out@);
    out
}

/// Characters with the Unicode `White_Space` property, which
/// `char::is_whitespace` and `str::trim` go by.
pub open spec fn is_white_space(c: char) -> bool {
    ||| '\u{9}' <= c <= '\u{d}'
    ||| c == ' '
    ||| c == '\u{85}'
    ||| c == '\u{a0}'
    ||| c == '\u{1680}'
    ||| '\u{2000}' <= c <= '\u{200a}'
    ||| c == '\u{2028}'
    ||| c == '\u{2029}'
    ||| c == '\u{202f}'
    ||| c == '\u{205f}'
    ||| c == '\u{3000}'
}

/// `s` without its leading white space.
pub open spec fn trim_start(s: Seq<char>) -> Seq<char>
    decreases s.len(),
{
    if s.len() > 0 && is_white_space(s[0]) {
        trim_start(s.drop_first())
    } else {
        s
    }
}

/// `s` without its trailing white space.
pub open spec fn trim_end(s: Seq<char>) -> Seq<char>
    decreases s.len(),
{
    if s.len() > 0 && is_white_space(s.last()) {
        trim_end(s.drop_last())
    } else {
        s
    }
}

/// `s` without leading and trailing white space, as `str::trim` gives it.
pub open spec fn trimmed(s: Seq<char>) -> Seq<char> {
    trim_end(trim_start(s))
}

fn white_space(c: char) -> (b: bool)
    ensures
        b == is_white_space(c),
{
    ('\u{9}' <= c && c <= '\u{d}') || c == ' ' || c == '\u{85}' || c == '\u{a0}' || c == '\u{1680}'
        || ('\u{2000}' <= c && c <= '\u{200a}') || c == '\u{2028}' || c == '\u{2029}' || c
        == '\u{202f}' || c == '\u{205f}' || c == '\u{3000}'
}

proof fn lemma_trim_start_at(s: Seq<char>, lo: int)
    requires
        0 <= lo <= s.len(),
        forall|j: int| 0 <= j < lo ==> is_white_space(#[trigger] s[j]),
        lo == s.len() || !is_white_space(s[lo]),
    ensures
        trim_start(s) == s.subrange(lo, s.len() as int),
    decreases lo,
{
    if lo == 0 {
        assert(s.subrange(0, s.len() as int) =~= s);
    } else {
        let t = s.drop_first();
        assert forall|j: int| 0 <= j < lo - 1 implies is_white_space(#[trigger] t[j]) by {
            assert(t[j] == s[j + 1]);
        }
        lemma_trim_start_at(t, lo - 1);
        assert(t.subrange(lo - 1, t.len() as int) =~= s.subrange(lo, s.len() as int));
    }
}

proof fn lemma_trim_end_at(s: Seq<char>, hi: int)
    requires
        0 <= hi <= s.len(),
        forall|j: int| hi <= j < s.len() ==> is_white_space(#[trigger] s[j]),
        hi == 0 || !is_white_space(s[hi - 1]),
    ensures
        trim_end(s) == s.subrange(0, hi),
    decreases s.len() - hi,
{
    if hi == s.len() {
        assert(s.subrange(0, hi) =~= s);
    } else {
        let t = s.drop_last();
        assert forall|j: int| hi <= j < t.len() implies is_white_space(#[trigger] t[j]) by {
            assert(t[j] == s[j]);
        }
        lemma_trim_end_at(t, hi);
        assert(t.subrange(0, hi) =~= s.subrange(0, hi));
    }
}

/// `s` without leading and trailing white space, as `str::trim` does it.
pub fn trim_str(s: &str) -> (t: &str)
    ensures
        t@ == trimmed(s@),
{
    let n = s.unicode_len();
    let mut lo: usize = 0;
    while lo < n && white_space(s.get_char(lo))
        invariant
            n == s@.len(),
            lo <= n,
            forall|j: int| 0 <= j < lo ==> is_white_space(#[trigger] s@[j]),
        decreases n - lo,
    {
        lo = lo + 1;
    }
    proof {
        lemma_trim_start_at(s@, lo as int);
    }
    let ghost rest = s@.subrange(lo as int, n as int);
    let mut hi: usize = n;
    while hi > lo && white_space(s.get_char(hi - 1))
        invariant
            n == s@.len(),
            lo <= hi <= n,
            rest == s@.subrange(lo as int, n as int),
            forall|j: int| hi <= j < n ==> is_white_space(#[trigger] s@[j]),
        decreases hi,
    {
        hi = hi - 1;
    }
    proof {
        assert forall|j: int| hi - lo <= j < rest.len() implies is_white_space(#[trigger] rest[j]) by {
            assert(rest[j] == s@[j + lo]);
        }
        if hi > lo {
            assert(rest[hi - lo - 1] == s@[hi - 1]);
        }
        lemma_trim_end_at(rest, hi - lo);
        assert(rest.subrange(0, hi - lo) =~= s@.subrange(lo as int, hi as int));
    }
    s.substring_char(lo, hi)
}

} // verus!
