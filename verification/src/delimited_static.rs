//! Stateless extraction from the start of a string.
//!
//! These free functions perform a single bracketed or prefixed search over
//! the whole source, with no cursor and no mutation: calling them twice on
//! the same input gives the same answer. The offset they search from is
//! always zero; a caller that manages its own position uses the scanner or
//! the offset-taking functions instead.

use vstd::prelude::*;

use crate::search::bracket_span;
use crate::search::extract_bracketed;
use crate::search::extract_prefixed;
use crate::search::parse_or_abort;
use crate::search::prefix_span;

verus! {

/// Returns a value between matched delimiters.
///
/// # Arguments
///
/// * `s` - The delimited string to search.
/// * `delim` - The delimiter to match within.
///
/// # Panics
///
/// If the matched value cannot be parsed to the specified type.
pub fn matched<T>(s: &str, delim: &str) -> (r: Option<T>) where T: core::str::FromStr
    ensures
        r is Some <==> bracket_span(s@, delim@, delim@, 0) is Some,
{
    if let Some(m) = matched_s(s, delim) {
        Some(parse_or_abort::<T>(m))
    } else {
        None
    }
}

/// Returns a substring between enclosing matched delimiters.
///
/// # Arguments
///
/// * `s` - The delimited string to search.
/// * `delim` - The enclosing delimiter.
pub fn matched_s<'a>(s: &'a str, delim: &str) -> (r: Option<&'a str>)
    ensures
        (match bracket_span(s@, delim@, delim@, 0) {
            Some(sp) => r matches Some(v) && v@ == s@.subrange(sp.start, sp.end),
            None => r is None,
        }),
{
    mismatched_s(s, delim, delim)
}

/// Returns a value between mismatched delimiters.
///
/// # Arguments
///
/// * `s` - The delimited string to search.
/// * `delim_start` - The opening delimiter.
/// * `delim_end` - The closing delimiter.
///
/// # Panics
///
/// If the matched value cannot be parsed to the specified type.
pub fn mismatched<T>(s: &str, delim_start: &str, delim_end: &str) -> (r: Option<T>) where
    T: core::str::FromStr,

    ensures
        r is Some <==> bracket_span(s@, delim_start@, delim_end@, 0) is Some,
{
    if let Some(m) = mismatched_s(s, delim_start, delim_end) {
        Some(parse_or_abort::<T>(m))
    } else {
        None
    }
}

/// Returns a substring between enclosing mismatched delimiters.
///
/// # Arguments
///
/// * `s` - The delimited string to search.
/// * `delim_start` - The opening delimiter.
/// * `delim_end` - The closing delimiter.
pub fn mismatched_s<'a>(s: &'a str, delim_start: &str, delim_end: &str) -> (r: Option<&'a str>)
    ensures
        (match bracket_span(s@, delim_start@, delim_end@, 0) {
            Some(sp) => r matches Some(v) && v@ == s@.subrange(sp.start, sp.end),
            None => r is None,
        }),
{
    match extract_bracketed(s, delim_start, delim_end, 0) {
        Some((content, _resume)) => Some(content),
        None => None,
    }
}

/// Returns a value prefixed by a delimiter.
///
/// # Arguments
///
/// * `s` - The delimited string to search.
/// * `delim` - The delimiter prefix.
/// * `len` - The length of the prefixed value, in characters.
///
/// # Panics
///
/// If the prefixed value cannot be parsed to the specified type.
pub fn prefixed<T>(s: &str, delim: &str, len: usize) -> (r: Option<T>) where
    T: core::str::FromStr,

    ensures
        r is Some <==> prefix_span(s@, delim@, len as int, 0) is Some,
{
    if let Some(m) = prefixed_s(s, delim, len) {
        Some(parse_or_abort::<T>(m))
    } else {
        None
    }
}

/// Returns a substring of exactly `len` characters following a prefix
/// delimiter, or nothing when the delimiter is absent or fewer than `len`
/// characters remain after it.
///
/// # Arguments
///
/// * `s` - The delimited string to search.
/// * `delim` - The prefix delimiter.
/// * `len` - The length of the prefixed substring, in characters.
pub fn prefixed_s<'a>(s: &'a str, delim: &str, len: usize) -> (r: Option<&'a str>)
    ensures
        (match prefix_span(s@, delim@, len as int, 0) {
            Some(sp) => r matches Some(v) && v@ == s@.subrange(sp.start, sp.end),
            None => r is None,
        }),
{
    match extract_prefixed(s, delim, len, 0) {
        Some((content, _resume)) => Some(content),
        None => None,
    }
}

} // verus!
