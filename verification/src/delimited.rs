//! A stateful scanner over a delimited string.
//!
//! The scanner borrows its source and keeps a cursor, a character offset that
//! starts at zero. Each extraction searches forward from the cursor and, on
//! success, advances it just past the consumed region, so successive calls
//! walk the source left to right without re-reading what came before. A
//! failed extraction leaves the cursor untouched.

use vstd::prelude::*;

use crate::search::bracket_span;
use crate::search::extract_bracketed;
use crate::search::lemma_bracket_span_bounds;
use crate::search::parse_or_abort;

verus! {

/// A source string together with the cursor the extractions advance.
pub struct Delimited<'a> {
    s: &'a str,
    ix: usize,
}

impl<'a> Delimited<'a> {
    /// The characters of the source being scanned.
    pub closed spec fn src(self) -> Seq<char> {
        self.s@
    }

    /// The current cursor, as a character offset into the source.
    pub closed spec fn cursor(self) -> int {
        self.ix as int
    }

    /// Returns a new delimited string, with the cursor at the start.
    #[must_use]
    pub fn new(s: &'a str) -> (d: Delimited<'a>)
        ensures
            d.src() == s@,
            d.cursor() == 0,
    {
        Delimited { s, ix: 0 }
    }

    /// Returns the next value between the supplied matched delimiters.
    ///
    /// Advances the cursor to the end of the matched value, if found.
    ///
    /// # Panics
    ///
    /// If the matched value cannot be parsed to the specified type.
    #[must_use]
    pub fn matched<T>(&mut self, delim: &str) -> (r: Option<T>) where T: core::str::FromStr
        ensures
            final(self).src() == old(self).src(),
            old(self).cursor() <= final(self).cursor(),
            (match bracket_span(old(self).src(), delim@, delim@, old(self).cursor()) {
                Some(sp) => r is Some && final(self).cursor() == sp.resume,
                None => r is None && final(self).cursor() == old(self).cursor(),
            }),
    {
        match self.matched_s(delim) {
            Some(m) => Some(parse_or_abort::<T>(m)),
            None => None,
        }
    }

    /// Returns the next string value between matched delimiters.
    ///
    /// Advances the cursor to the end of the matched value, if found.
    #[must_use]
    pub fn matched_s(&mut self, delim: &str) -> (r: Option<&'a str>)
        ensures
            final(self).src() == old(self).src(),
            old(self).cursor() <= final(self).cursor(),
            (match bracket_span(old(self).src(), delim@, delim@, old(self).cursor()) {
                Some(sp) => r matches Some(v) && v@ == old(self).src().subrange(
                    sp.start,
                    sp.end,
                ) && final(self).cursor() == sp.resume,
                None => r is None && final(self).cursor() == old(self).cursor(),
            }),
    {
        self.mismatched_s(delim, delim)
    }

    /// Returns the next value between mismatched delimiters.
    ///
    /// Advances the cursor to the end of the matched value, if found.
    ///
    /// # Panics
    ///
    /// If the matched value cannot be parsed to the specified type.
    #[must_use]
    pub fn mismatched<T>(&mut self, delim_start: &str, delim_end: &str) -> (r: Option<T>) where T: core::str::FromStr
        ensures
            final(self).src() == old(self).src(),
            old(self).cursor() <= final(self).cursor(),
            (match bracket_span(old(self).src(), delim_start@, delim_end@, old(self).cursor()) {
                Some(sp) => r is Some && final(self).cursor() == sp.resume,
                None => r is None && final(self).cursor() == old(self).cursor(),
            }),
    {
        match self.mismatched_s(delim_start, delim_end) {
            Some(m) => Some(parse_or_abort::<T>(m)),
            None => None,
        }
    }

    /// Returns the next string value between mismatched delimiters.
    ///
    /// Advances the cursor to the end of the matched value, if found.
    #[must_use]
    pub fn mismatched_s(&mut self, delim_start: &str, delim_end: &str) -> (r: Option<&'a str>)
        ensures
            final(self).src() == old(self).src(),
            old(self).cursor() <= final(self).cursor(),
            (match bracket_span(old(self).src(), delim_start@, delim_end@, old(self).cursor()) {
                Some(sp) => r matches Some(v) && v@ == old(self).src().subrange(
                    sp.start,
                    sp.end,
                ) && final(self).cursor() == sp.resume,
                None => r is None && final(self).cursor() == old(self).cursor(),
            }),
    {
        self.delimited(delim_start, delim_end)
    }

    /// Applies the bracketed search from the cursor: on success the content
    /// between the two delimiter occurrences is returned and the cursor moves
    /// just past the end delimiter; on failure nothing changes.
    pub fn delimited(&mut self, delim_start: &str, delim_end: &str) -> (r: Option<&'a str>)
        ensures
            final(self).src() == old(self).src(),
            old(self).cursor() <= final(self).cursor(),
            (match bracket_span(old(self).src(), delim_start@, delim_end@, old(self).cursor()) {
                Some(sp) => r matches Some(v) && v@ == old(self).src().subrange(
                    sp.start,
                    sp.end,
                ) && final(self).cursor() == sp.resume,
                None => r is None && final(self).cursor() == old(self).cursor(),
            }),
    {
        match extract_bracketed(self.s, delim_start, delim_end, self.ix) {
            Some((content, resume)) => {
                proof {
                    lemma_bracket_span_bounds(self.s@, delim_start@, delim_end@, self.ix as int);
                }
                self.ix = resume;
                Some(content)
            },
            None => None,
        }
    }
}

} // verus!
