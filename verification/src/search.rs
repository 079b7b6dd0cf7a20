//! The shared search primitive.
//!
//! Everything the library does reduces to one operation: find the first
//! occurrence of a pattern at or after an offset, measured in characters.
//! `first_match_from` is the mathematical statement of that search, and
//! `bracket_span` / `prefix_span` describe the two ways a span is cut out of
//! the source around it. The executable functions here are proved against
//! those definitions; the rest of the library is a thin layer over them.

use vstd::prelude::*;
use vstd::string::StrSliceExecFns;

verus! {

/// The pattern `pat` occurs in `s` starting exactly at position `i`.
pub open spec fn match_at(s: Seq<char>, pat: Seq<char>, i: int) -> bool {
    &&& 0 <= i
    &&& i + pat.len() <= s.len()
    &&& s.subrange(i, i + pat.len()) == pat
}

/// The position of the first occurrence of `pat` in `s` at or after `from`,
/// or `None` when there is none. An empty pattern never matches.
pub open spec fn first_match_from(s: Seq<char>, pat: Seq<char>, from: int) -> Option<int>
    decreases s.len() - from,
{
    if from < 0 || from + pat.len() > s.len() || pat.len() == 0 {
        None
    } else if match_at(s, pat, from) {
        Some(from)
    } else {
        first_match_from(s, pat, from + 1)
    }
}

/// A successful extraction: the content occupies `[start, end)` of the
/// source, and `resume` is the offset just past the consumed region, from
/// which a later search continues.
pub ghost struct Span {
    pub start: int,
    pub end: int,
    pub resume: int,
}

/// The outcome of a bracketed search from `from`: the first occurrence of
/// `delim_start`, then the first occurrence of `delim_end` after it, with the
/// content strictly between them. Zero-length content counts as no match.
pub open spec fn bracket_span(
    s: Seq<char>,
    delim_start: Seq<char>,
    delim_end: Seq<char>,
    from: int,
) -> Option<Span> {
    match first_match_from(s, delim_start, from) {
        None => None,
        Some(s_ix) => {
            let content_start = s_ix + delim_start.len();
            match first_match_from(s, delim_end, content_start) {
                None => None,
                Some(e_ix) => if e_ix == content_start {
                    None
                } else {
                    Some(Span { start: content_start, end: e_ix, resume: e_ix + delim_end.len() })
                },
            }
        },
    }
}

/// The outcome of a prefixed search from `from`: the first occurrence of
/// `delim`, followed by exactly `len` characters of content. No match when
/// fewer than `len` characters remain after the delimiter.
pub open spec fn prefix_span(s: Seq<char>, delim: Seq<char>, len: int, from: int) -> Option<
    Span,
> {
    match first_match_from(s, delim, from) {
        None => None,
        Some(s_ix) => {
            let content_start = s_ix + delim.len();
            if content_start + len <= s.len() {
                Some(
                    Span {
                        start: content_start,
                        end: content_start + len,
                        resume: content_start + len,
                    },
                )
            } else {
                None
            }
        },
    }
}

/// What a `Some` answer of `first_match_from` means: a match at the reported
/// position, and none earlier at or after `from`.
pub proof fn lemma_first_match_from_sound(s: Seq<char>, pat: Seq<char>, from: int, i: int)
    requires
        first_match_from(s, pat, from) == Some(i),
    ensures
        0 <= from <= i,
        pat.len() >= 1,
        i + pat.len() <= s.len(),
        match_at(s, pat, i),
        forall|j: int| from <= j < i ==> !match_at(s, pat, j),
    decreases s.len() - from,
{
    if !(from < 0 || from + pat.len() > s.len() || pat.len() == 0) {
        if !match_at(s, pat, from) {
            lemma_first_match_from_sound(s, pat, from + 1, i);
        }
    }
}

/// The converse: a match at `i` with none earlier pins the answer to `i`.
pub proof fn lemma_first_match_from_complete(s: Seq<char>, pat: Seq<char>, from: int, i: int)
    requires
        0 <= from <= i,
        pat.len() >= 1,
        match_at(s, pat, i),
        forall|j: int| from <= j < i ==> !match_at(s, pat, j),
    ensures
        first_match_from(s, pat, from) == Some(i),
    decreases i - from,
{
    if from < i {
        lemma_first_match_from_complete(s, pat, from + 1, i);
    }
}

/// When nothing at or after `from` matches, the search reports `None`.
pub proof fn lemma_first_match_from_none(s: Seq<char>, pat: Seq<char>, from: int)
    requires
        0 <= from,
        forall|j: int| from <= j ==> !match_at(s, pat, j),
    ensures
        first_match_from(s, pat, from) is None,
    decreases s.len() - from,
{
    if !(from + pat.len() > s.len() || pat.len() == 0) {
        lemma_first_match_from_none(s, pat, from + 1);
    }
}

/// A successful bracketed search always lands strictly ahead of where it
/// started, inside the source: the cursor a scanner takes from `resume` can
/// only move forward.
pub proof fn lemma_bracket_span_bounds(
    s: Seq<char>,
    delim_start: Seq<char>,
    delim_end: Seq<char>,
    from: int,
)
    requires
        0 <= from,
        bracket_span(s, delim_start, delim_end, from) is Some,
    ensures
        bracket_span(s, delim_start, delim_end, from) matches Some(sp) ==> from < sp.start
            && sp.start < sp.end && sp.end < sp.resume && sp.resume <= s.len(),
{
    let s_ix = first_match_from(s, delim_start, from)->Some_0;
    lemma_first_match_from_sound(s, delim_start, from, s_ix);
    let content_start = s_ix + delim_start.len();
    let e_ix = first_match_from(s, delim_end, content_start)->Some_0;
    lemma_first_match_from_sound(s, delim_end, content_start, e_ix);
}

/// The prefixed counterpart: a successful prefixed search also lands strictly
/// ahead of where it started, inside the source.
pub proof fn lemma_prefix_span_bounds(s: Seq<char>, delim: Seq<char>, len: int, from: int)
    requires
        0 <= from,
        0 <= len,
        prefix_span(s, delim, len, from) is Some,
    ensures
        prefix_span(s, delim, len, from) matches Some(sp) ==> from < sp.start && sp.start <= sp.end
            && sp.end == sp.resume && sp.resume <= s.len(),
{
    let s_ix = first_match_from(s, delim, from)->Some_0;
    lemma_first_match_from_sound(s, delim, from, s_ix);
}

/// The characters of a string, as a vector sharing its view. The length
/// bound records that a character count always fits in `usize`.
pub fn chars_of(s: &str) -> (r: Vec<char>)
    ensures
        r@ == s@,
        s@.len() <= usize::MAX,
{
    let n = s.unicode_len();
    let mut v: Vec<char> = Vec::new();
    let mut i: usize = 0;
    while i < n
        invariant
            n == s@.len(),
            i <= n,
            v@ == s@.subrange(0, i as int),
        decreases n - i,
    {
        let c = s.get_char(i);
        v.push(c);
        i += 1;
        proof {
            assert(v@ =~= s@.subrange(0, i as int));
        }
    }
    proof {
        assert(v@ =~= s@);
    }
    v
}

/// Does `pat` occur in `s` starting exactly at `i`?
fn match_at_exec(s: &Vec<char>, pat: &Vec<char>, i: usize) -> (r: bool)
    requires
        i + pat@.len() <= s@.len(),
    ensures
        r == match_at(s@, pat@, i as int),
{
    let n = s.len();
    let mut j: usize = 0;
    while j < pat.len()
        invariant
            n == s@.len(),
            i + pat@.len() <= s@.len(),
            j <= pat@.len(),
            forall|k: int| 0 <= k < j ==> s@[i + k] == pat@[k],
        decreases pat@.len() - j,
    {
        if s[i + j] != pat[j] {
            proof {
                assert(s@.subrange(i as int, i + pat@.len())[j as int] == s@[i + j]);
            }
            return false;
        }
        j += 1;
    }
    proof {
        assert(s@.subrange(i as int, i + pat@.len()) =~= pat@);
    }
    true
}

/// The first occurrence of `pat` in `s` at or after `from`.
pub fn find_from(s: &Vec<char>, pat: &Vec<char>, from: usize) -> (r: Option<usize>)
    ensures
        (match r {
            Some(i) => first_match_from(s@, pat@, from as int) == Some(i as int),
            None => first_match_from(s@, pat@, from as int) is None,
        }),
{
    if pat.len() == 0 || s.len() < pat.len() || from > s.len() - pat.len() {
        return None;
    }
    let last = s.len() - pat.len();
    let mut i: usize = from;
    while i <= last
        invariant
            pat@.len() >= 1,
            from <= i <= last + 1,
            last == s@.len() - pat@.len(),
            last < usize::MAX,
            forall|j: int| from <= j < i ==> !match_at(s@, pat@, j),
        decreases last + 1 - i,
    {
        if match_at_exec(s, pat, i) {
            proof {
                lemma_first_match_from_complete(s@, pat@, from as int, i as int);
            }
            return Some(i);
        }
        i += 1;
    }
    proof {
        assert forall|j: int| from <= j implies !match_at(s@, pat@, j) by {
            if j <= last {
                assert(!match_at(s@, pat@, j));
            }
        };
        lemma_first_match_from_none(s@, pat@, from as int);
    }
    None
}

/// The bracketed search of the whole library: the content between the first
/// occurrence of `delim_start` at or after `from` and the first occurrence of
/// `delim_end` after it, together with the offset to resume scanning from.
pub fn extract_bracketed<'a>(
    s: &'a str,
    delim_start: &str,
    delim_end: &str,
    from: usize,
) -> (r: Option<(&'a str, usize)>)
    ensures
        (match bracket_span(s@, delim_start@, delim_end@, from as int) {
            Some(sp) => r matches Some(t) && t.0@ == s@.subrange(sp.start, sp.end) && t.1
                == sp.resume,
            None => r is None,
        }),
{
    let sv = chars_of(s);
    let dsv = chars_of(delim_start);
    let dev = chars_of(delim_end);
    match find_from(&sv, &dsv, from) {
        None => None,
        Some(s_ix) => {
            proof {
                lemma_first_match_from_sound(sv@, dsv@, from as int, s_ix as int);
            }
            let content_start = s_ix + dsv.len();
            match find_from(&sv, &dev, content_start) {
                None => None,
                Some(e_ix) => {
                    proof {
                        lemma_first_match_from_sound(
                            sv@,
                            dev@,
                            content_start as int,
                            e_ix as int,
                        );
                    }
                    if e_ix == content_start {
                        None
                    } else {
                        let content = s.substring_char(content_start, e_ix);
                        Some((content, e_ix + dev.len()))
                    }
                },
            }
        },
    }
}

/// The prefixed search: exactly `len` characters immediately after the first
/// occurrence of `delim` at or after `from`, together with the offset just
/// past them.
pub fn extract_prefixed<'a>(s: &'a str, delim: &str, len: usize, from: usize) -> (r: Option<
    (&'a str, usize),
>)
    ensures
        (match prefix_span(s@, delim@, len as int, from as int) {
            Some(sp) => r matches Some(t) && t.0@ == s@.subrange(sp.start, sp.end) && t.1
                == sp.resume,
            None => r is None,
        }),
{
    let sv = chars_of(s);
    let dv = chars_of(delim);
    match find_from(&sv, &dv, from) {
        None => None,
        Some(s_ix) => {
            proof {
                lemma_first_match_from_sound(sv@, dv@, from as int, s_ix as int);
            }
            let content_start = s_ix + dv.len();
            let n = s.unicode_len();
            if len <= n - content_start {
                let content_end = content_start + len;
                Some((s.substring_char(content_start, content_end), content_end))
            } else {
                None
            }
        },
    }
}

/// Relies on `str::parse` through `core::str::FromStr` to convert an
/// extracted span into the caller's value type. A span that does not parse is
/// a contract violation between the caller and its data, not a missing value,
/// so this aborts rather than reporting no match.
#[verifier::external_body]
pub(crate) fn parse_or_abort<T: core::str::FromStr>(s: &str) -> T {
    s.parse::<T>().ok().unwrap()
}

} // verus!
