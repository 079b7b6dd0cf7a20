//! Extraction of delimited substrings.
//!
//! A source string is searched for a span enclosed between two delimiter
//! occurrences (or following a single delimiter, for the fixed-length form).
//! The search can be driven statelessly, with an explicit starting offset, or
//! through a scanner that keeps a cursor and walks forward across repeated
//! extractions. All offsets are measured in characters, so slicing can never
//! split a multi-byte character.

pub mod delimited;
pub mod delimited_static;
pub mod laws;
pub mod search;

use vstd::prelude::*;

use crate::search::bracket_span;
use crate::search::extract_bracketed;
use crate::search::extract_prefixed;
use crate::search::lemma_bracket_span_bounds;
use crate::search::parse_or_abort;
use crate::search::prefix_span;

verus! {

/// A delimited string: the source together with a cursor that the
/// `consume_*` extractions advance past each successfully consumed region.
pub struct Delimited<'a> {
    s: &'a str,
    ix: usize,
}

impl<'a> Delimited<'a> {
    /// The characters of the source being consumed.
    pub closed spec fn src(self) -> Seq<char> {
        self.s@
    }

    /// The current cursor, as a character offset into the source.
    pub closed spec fn cursor(self) -> int {
        self.ix as int
    }

    /// Returns a new delimited string, with the cursor at the start.
    pub fn new(s: &'a str) -> (d: Delimited<'a>)
        ensures
            d.src() == s@,
            d.cursor() == 0,
    {
        Delimited { s, ix: 0 }
    }

    /// Returns the next value between matched delimiters, consuming it: on
    /// success the cursor moves just past the closing delimiter.
    ///
    /// # Panics
    ///
    /// If the matched value cannot be parsed to the specified type.
    pub fn consume_matched<T>(&mut self, delim: &str) -> (r: Option<T>) where
        T: core::str::FromStr,

        ensures
            final(self).src() == old(self).src(),
            old(self).cursor() <= final(self).cursor(),
            (match bracket_span(old(self).src(), delim@, delim@, old(self).cursor()) {
                Some(sp) => r is Some && final(self).cursor() == sp.resume,
                None => r is None && final(self).cursor() == old(self).cursor(),
            }),
    {
        match self.consume_matched_s(delim) {
            Some(m) => Some(parse_or_abort::<T>(m)),
            None => None,
        }
    }

    /// Returns the next string value between matched delimiters, consuming
    /// it: on success the cursor moves just past the closing delimiter.
    pub fn consume_matched_s(&mut self, delim: &str) -> (r: Option<&'a str>)
        ensures
            final(self).src() == old(self).src(),
            old(self).cursor() <= final(self).cursor(),
            (match bracket_span(old(self).src(), delim@, delim@, old(self).cursor()) {
                Some(sp) => r matches Some(v) && v@ == old(self).src().subrange(
                    sp.start,
                    sp.end,
                ) && final(self).cursor() == sp.resume,
                None => r is None && final(self).cursor() == old(self).cursor(),
            }),
    {
        self.consume_mismatched_s(delim, delim)
    }

    /// Returns the next value between mismatched delimiters, consuming it: on
    /// success the cursor moves just past the closing delimiter.
    ///
    /// # Panics
    ///
    /// If the matched value cannot be parsed to the specified type.
    pub fn consume_mismatched<T>(&mut self, delim_start: &str, delim_end: &str) -> (r: Option<
        T,
    >) where T: core::str::FromStr
        ensures
            final(self).src() == old(self).src(),
            old(self).cursor() <= final(self).cursor(),
            (match bracket_span(old(self).src(), delim_start@, delim_end@, old(self).cursor()) {
                Some(sp) => r is Some && final(self).cursor() == sp.resume,
                None => r is None && final(self).cursor() == old(self).cursor(),
            }),
    {
        match self.consume_mismatched_s(delim_start, delim_end) {
            Some(m) => Some(parse_or_abort::<T>(m)),
            None => None,
        }
    }

    /// Returns the next string value between mismatched delimiters, consuming
    /// it: on success the cursor moves just past the closing delimiter.
    pub fn consume_mismatched_s(&mut self, delim_start: &str, delim_end: &str) -> (r: Option<
        &'a str,
    >)
        ensures
            final(self).src() == old(self).src(),
            old(self).cursor() <= final(self).cursor(),
            (match bracket_span(old(self).src(), delim_start@, delim_end@, old(self).cursor()) {
                Some(sp) => r matches Some(v) && v@ == old(self).src().subrange(
                    sp.start,
                    sp.end,
                ) && final(self).cursor() == sp.resume,
                None => r is None && final(self).cursor() == old(self).cursor(),
            }),
    {
        match extract_bracketed(self.s, delim_start, delim_end, self.ix) {
            Some((content, resume)) => {
                proof {
                    lemma_bracket_span_bounds(self.s@, delim_start@, delim_end@, self.ix as int);
                }
                self.ix = resume;
                Some(content)
            },
            None => None,
        }
    }

    /// Returns the next value following a prefix delimiter, consuming it: on
    /// success the cursor moves just past the extracted characters.
    ///
    /// # Arguments
    ///
    /// * `delim` - The prefix delimiter pattern.
    /// * `len` - The number of characters to consume after it.
    ///
    /// # Panics
    ///
    /// If the prefixed value cannot be parsed to the specified type.
    pub fn consume_prefixed<T>(&mut self, delim: &str, len: usize) -> (r: Option<T>) where
        T: core::str::FromStr,

        ensures
            final(self).src() == old(self).src(),
            old(self).cursor() <= final(self).cursor(),
            (match prefix_span(old(self).src(), delim@, len as int, old(self).cursor()) {
                Some(sp) => r is Some && final(self).cursor() == sp.resume,
                None => r is None && final(self).cursor() == old(self).cursor(),
            }),
    {
        match self.consume_prefixed_s(delim, len) {
            Some(m) => Some(parse_or_abort::<T>(m)),
            None => None,
        }
    }

    /// Returns the next substring following a prefix delimiter, consuming it:
    /// on success the cursor moves just past the extracted characters.
    ///
    /// # Arguments
    ///
    /// * `delim` - The prefix delimiter pattern.
    /// * `len` - The number of characters to consume after it.
    pub fn consume_prefixed_s(&mut self, delim: &str, len: usize) -> (r: Option<&'a str>)
        ensures
            final(self).src() == old(self).src(),
            old(self).cursor() <= final(self).cursor(),
            (match prefix_span(old(self).src(), delim@, len as int, old(self).cursor()) {
                Some(sp) => r matches Some(v) && v@ == old(self).src().subrange(
                    sp.start,
                    sp.end,
                ) && final(self).cursor() == sp.resume,
                None => r is None && final(self).cursor() == old(self).cursor(),
            }),
    {
        match extract_prefixed(self.s, delim, len, self.ix) {
            Some((content, resume)) => {
                proof {
                    crate::search::lemma_prefix_span_bounds(
                        self.s@,
                        delim@,
                        len as int,
                        self.ix as int,
                    );
                }
                self.ix = resume;
                Some(content)
            },
            None => None,
        }
    }

    /// Returns a value between matched delimiters.
    ///
    /// # Arguments
    ///
    /// * `s` - The delimited string to search.
    /// * `delim` - The delimiter to match within.
    ///
    /// # Panics
    ///
    /// If the matched value cannot be parsed to the specified type.
    pub fn matched<T>(s: &str, delim: &str) -> (r: Option<T>) where T: core::str::FromStr
        ensures
            r is Some <==> bracket_span(s@, delim@, delim@, 0) is Some,
    {
        Delimited::matched_from(s, delim, 0)
    }

    /// Returns a value between matched delimiters from part of a string.
    ///
    /// # Arguments
    ///
    /// * `s` - The delimited string to search.
    /// * `delim` - The delimiter to match within.
    /// * `from_ix` - The character offset to search from.
    ///
    /// # Panics
    ///
    /// If the matched value cannot be parsed to the specified type.
    pub fn matched_from<T>(s: &str, delim: &str, from_ix: usize) -> (r: Option<T>) where
        T: core::str::FromStr,

        ensures
            r is Some <==> bracket_span(s@, delim@, delim@, from_ix as int) is Some,
    {
        if let Some(m) = Delimited::matched_substr_from(s, delim, from_ix) {
            Some(parse_or_abort::<T>(m))
        } else {
            None
        }
    }

    /// Returns a substring between enclosing matched delimiters.
    ///
    /// # Arguments
    ///
    /// * `s` - The delimited string to search.
    /// * `delim` - The enclosing delimiter.
    pub fn matched_substr(s: &'a str, delim: &str) -> (r: Option<&'a str>)
        ensures
            (match bracket_span(s@, delim@, delim@, 0) {
                Some(sp) => r matches Some(v) && v@ == s@.subrange(sp.start, sp.end),
                None => r is None,
            }),
    {
        Delimited::mismatched_substr(s, delim, delim)
    }

    /// Returns a substring between enclosing matched delimiters from part of
    /// a string.
    ///
    /// # Arguments
    ///
    /// * `s` - The delimited string to search.
    /// * `delim` - The enclosing delimiter.
    /// * `from_ix` - The character offset to search from.
    pub fn matched_substr_from(s: &'a str, delim: &str, from_ix: usize) -> (r: Option<&'a str>)
        ensures
            (match bracket_span(s@, delim@, delim@, from_ix as int) {
                Some(sp) => r matches Some(v) && v@ == s@.subrange(sp.start, sp.end),
                None => r is None,
            }),
    {
        Delimited::mismatched_substr_from(s, delim, delim, from_ix)
    }

    /// Returns a value between mismatched delimiters.
    ///
    /// # Arguments
    ///
    /// * `s` - The delimited string to search.
    /// * `delim_start` - The opening delimiter.
    /// * `delim_end` - The closing delimiter.
    ///
    /// # Panics
    ///
    /// If the matched value cannot be parsed to the specified type.
    pub fn mismatched<T>(s: &str, delim_start: &str, delim_end: &str) -> (r: Option<T>) where
        T: core::str::FromStr,

        ensures
            r is Some <==> bracket_span(s@, delim_start@, delim_end@, 0) is Some,
    {
        Delimited::mismatched_from(s, delim_start, delim_end, 0)
    }

    /// Returns a value between mismatched delimiters from part of a string.
    ///
    /// # Arguments
    ///
    /// * `s` - The delimited string to search.
    /// * `delim_start` - The opening delimiter.
    /// * `delim_end` - The closing delimiter.
    /// * `from_ix` - The character offset to start searching from.
    ///
    /// # Panics
    ///
    /// If the matched value cannot be parsed to the specified type.
    pub fn mismatched_from<T>(s: &str, delim_start: &str, delim_end: &str, from_ix: usize) -> (r:
        Option<T>) where T: core::str::FromStr
        ensures
            r is Some <==> bracket_span(s@, delim_start@, delim_end@, from_ix as int) is Some,
    {
        if let Some(m) = Delimited::mismatched_substr_from(s, delim_start, delim_end, from_ix) {
            Some(parse_or_abort::<T>(m))
        } else {
            None
        }
    }

    /// Returns a substring between enclosing mismatched delimiters.
    ///
    /// # Arguments
    ///
    /// * `s` - The delimited string to search.
    /// * `delim_start` - The opening delimiter.
    /// * `delim_end` - The closing delimiter.
    fn mismatched_substr(s: &'a str, delim_start: &str, delim_end: &str) -> (r: Option<&'a str>)
        ensures
            (match bracket_span(s@, delim_start@, delim_end@, 0) {
                Some(sp) => r matches Some(v) && v@ == s@.subrange(sp.start, sp.end),
                None => r is None,
            }),
    {
        Delimited::mismatched_substr_from(s, delim_start, delim_end, 0)
    }

    /// Returns a substring between enclosing mismatched delimiters from part
    /// of a string.
    ///
    /// # Arguments
    ///
    /// * `s` - The delimited string to search.
    /// * `delim_start` - The opening delimiter.
    /// * `delim_end` - The closing delimiter.
    /// * `from_ix` - The character offset to start searching from.
    pub fn mismatched_substr_from(
        s: &'a str,
        delim_start: &str,
        delim_end: &str,
        from_ix: usize,
    ) -> (r: Option<&'a str>)
        ensures
            (match bracket_span(s@, delim_start@, delim_end@, from_ix as int) {
                Some(sp) => r matches Some(v) && v@ == s@.subrange(sp.start, sp.end),
                None => r is None,
            }),
    {
        match extract_bracketed(s, delim_start, delim_end, from_ix) {
            Some((content, _resume)) => Some(content),
            None => None,
        }
    }

    /// Returns a value prefixed by a delimiter.
    ///
    /// # Arguments
    ///
    /// * `s` - The delimited string to search.
    /// * `delim` - The delimiter prefix.
    /// * `len` - The length of the prefixed value, in characters.
    ///
    /// # Panics
    ///
    /// If the prefixed value cannot be parsed to the specified type.
    pub fn prefixed<T>(s: &str, delim: &str, len: usize) -> (r: Option<T>) where
        T: core::str::FromStr,

        ensures
            r is Some <==> prefix_span(s@, delim@, len as int, 0) is Some,
    {
        Delimited::prefixed_from(s, delim, len, 0)
    }

    /// Returns a value prefixed by a delimiter from part of a string.
    ///
    /// # Arguments
    ///
    /// * `s` - The delimited string to search.
    /// * `delim` - The delimiter prefix.
    /// * `len` - The length of the prefixed value, in characters.
    /// * `from_ix` - The character offset to search from.
    ///
    /// # Panics
    ///
    /// If the prefixed value cannot be parsed to the specified type.
    pub fn prefixed_from<T>(s: &str, delim: &str, len: usize, from_ix: usize) -> (r: Option<
        T,
    >) where T: core::str::FromStr
        ensures
            r is Some <==> prefix_span(s@, delim@, len as int, from_ix as int) is Some,
    {
        if let Some(m) = Delimited::prefixed_substr_from(s, delim, len, from_ix) {
            Some(parse_or_abort::<T>(m))
        } else {
            None
        }
    }

    /// Returns a substring of exactly `len` characters following a prefix
    /// delimiter.
    ///
    /// # Arguments
    ///
    /// * `s` - The delimited string to search.
    /// * `delim` - The prefix delimiter.
    /// * `len` - The length of the prefixed substring, in characters.
    pub fn prefixed_substr(s: &'a str, delim: &str, len: usize) -> (r: Option<&'a str>)
        ensures
            (match prefix_span(s@, delim@, len as int, 0) {
                Some(sp) => r matches Some(v) && v@ == s@.subrange(sp.start, sp.end),
                None => r is None,
            }),
    {
        Delimited::prefixed_substr_from(s, delim, len, 0)
    }

    /// Returns a substring of exactly `len` characters following a prefix
    /// delimiter from part of a string.
    ///
    /// # Arguments
    ///
    /// * `s` - The delimited string to search.
    /// * `delim` - The prefix delimiter.
    /// * `len` - The length of the prefixed substring, in characters.
    /// * `from_ix` - The character offset to start searching from.
    fn prefixed_substr_from(s: &'a str, delim: &str, len: usize, from_ix: usize) -> (r: Option<
        &'a str,
    >)
        ensures
            (match prefix_span(s@, delim@, len as int, from_ix as int) {
                Some(sp) => r matches Some(v) && v@ == s@.subrange(sp.start, sp.end),
                None => r is None,
            }),
    {
        match extract_prefixed(s, delim, len, from_ix) {
            Some((content, _resume)) => Some(content),
            None => None,
        }
    }
}

} // verus!
