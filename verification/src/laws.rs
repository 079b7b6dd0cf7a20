//! Laws of the search primitive.
//!
//! Each proof function here states a property of `bracket_span` or
//! `prefix_span` that every extraction of the library inherits through its
//! contract: what a matched-delimiter search returns, when it fails, how
//! successive extractions relate, and that wrapping a value in delimiters and
//! extracting gives it back.

use vstd::prelude::*;

use crate::search::Span;
use crate::search::bracket_span;
use crate::search::first_match_from;
use crate::search::lemma_first_match_from_complete;
use crate::search::lemma_first_match_from_none;
use crate::search::lemma_first_match_from_sound;
use crate::search::match_at;
use crate::search::prefix_span;

verus! {

/// A matched-delimiter search over the whole source extracts exactly the
/// characters strictly between the first occurrence of the delimiter and the
/// next occurrence after it, provided they enclose non-empty content.
pub proof fn lemma_matched_between_occurrences(
    s: Seq<char>,
    d: Seq<char>,
    first: int,
    second: int,
)
    requires
        first_match_from(s, d, 0) == Some(first),
        first_match_from(s, d, first + d.len()) == Some(second),
        second > first + d.len(),
    ensures
        (bracket_span(s, d, d, 0) == Some(
            Span { start: first + d.len(), end: second, resume: second + d.len() },
        )),
{
}

/// A matched-delimiter search fails when the delimiter occurs at most once in
/// the source.
pub proof fn lemma_matched_needs_two_occurrences(s: Seq<char>, d: Seq<char>)
    requires
        forall|j1: int, j2: int|
            #[trigger] match_at(s, d, j1) && #[trigger] match_at(s, d, j2) ==> j1 == j2,
    ensures
        bracket_span(s, d, d, 0) is None,
{
    match first_match_from(s, d, 0) {
        None => {},
        Some(first) => {
            lemma_first_match_from_sound(s, d, 0, first);
            assert forall|j: int| first + d.len() <= j implies !match_at(s, d, j) by {
                if match_at(s, d, j) {
                    assert(match_at(s, d, first));
                }
            };
            lemma_first_match_from_none(s, d, first + d.len());
        },
    }
}

/// A matched-delimiter search fails when the two occurrences it finds are
/// adjacent, so that the content between them has zero length.
pub proof fn lemma_matched_empty_content(s: Seq<char>, d: Seq<char>, first: int)
    requires
        first_match_from(s, d, 0) == Some(first),
        match_at(s, d, first + d.len()),
    ensures
        bracket_span(s, d, d, 0) is None,
{
    lemma_first_match_from_sound(s, d, 0, first);
    lemma_first_match_from_complete(s, d, first + d.len(), first + d.len());
}

/// The closing delimiter counts only from the end of the opening match
/// onward: when it occurs nowhere from there on, the search fails, no matter
/// how often it occurs earlier in the source.
pub proof fn lemma_mismatched_end_only_before_start(
    s: Seq<char>,
    delim_start: Seq<char>,
    delim_end: Seq<char>,
    s_ix: int,
)
    requires
        first_match_from(s, delim_start, 0) == Some(s_ix),
        forall|j: int| s_ix + delim_start.len() <= j ==> !match_at(s, delim_end, j),
    ensures
        bracket_span(s, delim_start, delim_end, 0) is None,
{
    lemma_first_match_from_sound(s, delim_start, 0, s_ix);
    lemma_first_match_from_none(s, delim_end, s_ix + delim_start.len());
}

/// Two successive successful extractions consume disjoint regions of the
/// source, in left-to-right order: the second span begins past everything the
/// first consumed.
pub proof fn lemma_successive_spans_ordered(
    s: Seq<char>,
    delim_start: Seq<char>,
    delim_end: Seq<char>,
    from: int,
    sp1: Span,
    sp2: Span,
)
    requires
        0 <= from,
        bracket_span(s, delim_start, delim_end, from) == Some(sp1),
        bracket_span(s, delim_start, delim_end, sp1.resume) == Some(sp2),
    ensures
        sp1.end < sp1.resume <= sp2.start,
        sp2.start < sp2.end,
{
    let s_ix1 = first_match_from(s, delim_start, from)->Some_0;
    lemma_first_match_from_sound(s, delim_start, from, s_ix1);
    let e_ix1 = first_match_from(s, delim_end, s_ix1 + delim_start.len())->Some_0;
    lemma_first_match_from_sound(s, delim_end, s_ix1 + delim_start.len(), e_ix1);
    let s_ix2 = first_match_from(s, delim_start, sp1.resume)->Some_0;
    lemma_first_match_from_sound(s, delim_start, sp1.resume, s_ix2);
    let e_ix2 = first_match_from(s, delim_end, s_ix2 + delim_start.len())->Some_0;
    lemma_first_match_from_sound(s, delim_end, s_ix2 + delim_start.len(), e_ix2);
}

/// A prefixed search takes exactly `len` characters immediately after the
/// first occurrence of the delimiter, and fails when fewer than `len`
/// characters remain after it.
pub proof fn lemma_prefixed_exact(s: Seq<char>, d: Seq<char>, len: int, s_ix: int)
    requires
        0 <= len,
        first_match_from(s, d, 0) == Some(s_ix),
    ensures
        s_ix + d.len() + len <= s.len() ==> prefix_span(s, d, len, 0) == Some(
            Span { start: s_ix + d.len(), end: s_ix + d.len() + len, resume: s_ix + d.len() + len },
        ),
        s_ix + d.len() + len > s.len() ==> prefix_span(s, d, len, 0) is None,
{
}

/// Round trip: wrapping a non-empty value in a delimiter and extracting with
/// that delimiter gives the value back, provided the delimiter occurs nowhere
/// in the value followed by the closing delimiter. For a single-character
/// delimiter this just says the delimiter does not occur in the value.
pub proof fn lemma_round_trip(v: Seq<char>, d: Seq<char>)
    requires
        d.len() >= 1,
        v.len() >= 1,
        forall|j: int| 0 <= j < v.len() ==> !match_at(v + d, d, j),
    ensures
        (bracket_span(d + v + d, d, d, 0) == Some(
            Span {
                start: d.len() as int,
                end: d.len() + v.len() as int,
                resume: d.len() + v.len() + d.len() as int,
            },
        )),
        (d + v + d).subrange(d.len() as int, d.len() + v.len() as int) == v,
{
    let s = d + v + d;
    let tail = v + d;
    assert(s.subrange(0, d.len() as int) =~= d);
    assert(match_at(s, d, 0));
    lemma_first_match_from_complete(s, d, 0, 0);
    let e = d.len() + v.len() as int;
    assert(s.subrange(e, e + d.len()) =~= d);
    assert(match_at(s, d, e));
    assert forall|j: int| d.len() <= j < e implies !match_at(s, d, j) by {
        if match_at(s, d, j) {
            let k = j - d.len();
            assert(s.subrange(j, j + d.len()) =~= tail.subrange(k, k + d.len()));
            assert(tail.subrange(k, k + d.len()) == d);
            assert(match_at(tail, d, k));
        }
    };
    lemma_first_match_from_complete(s, d, d.len() as int, e);
    assert(s.subrange(d.len() as int, e) =~= v);
}

} // verus!
