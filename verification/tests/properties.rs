use delim::Delimited;
use delim::delimited_static::matched;
use delim::delimited_static::matched_s;
use delim::delimited_static::mismatched_s;
use delim::delimited_static::prefixed_s;

/// The extracted span lies strictly between the first and second occurrence
/// of the delimiter; later occurrences play no part.
#[test]
fn prop_matched_first_pair() {
    assert_eq!(matched_s("x:ab:cd:e", ":"), Some("ab"));
}

/// Zero-length content between adjacent delimiters is no match, not an empty
/// result.
#[test]
fn prop_matched_adjacent_delimiters() {
    assert_eq!(matched_s("a::b", ":"), None);
}

/// The closing delimiter only counts after the opening match: one that occurs
/// earlier in the source does not end the span.
#[test]
fn prop_mismatched_end_before_start() {
    assert_eq!(mismatched_s("x;y:z", ":", ";"), None);
}

/// A failed extraction leaves the scanner where it was: the next call still
/// sees the whole remainder.
#[test]
fn prop_scanner_failure_keeps_cursor() {
    let mut d = delim::delimited::Delimited::new("a:1:b");

    assert_eq!(d.mismatched_s("<", ">"), None);
    assert_eq!(d.matched_s(":"), Some("1"));
    assert_eq!(d.matched_s(":"), None);
}

/// Successive scanner calls partition the source into its delimited values,
/// left to right, and fail once they are exhausted.
#[test]
fn prop_scanner_partitions_source() {
    let mut d = delim::delimited::Delimited::new("aaa :12: bbb :34: ccc");

    assert_eq!(d.matched_s(":"), Some("12"));
    assert_eq!(d.matched_s(":"), Some("34"));
    assert_eq!(d.matched_s(":"), None);
}

/// The consuming scanner partitions mismatched pairs the same way.
#[test]
fn prop_consume_mismatched_in_order() {
    let mut d = Delimited::new("k[1]m[2]n");

    assert_eq!(d.consume_mismatched_s("[", "]"), Some("1"));
    assert_eq!(d.consume_mismatched_s("[", "]"), Some("2"));
    assert_eq!(d.consume_mismatched_s("[", "]"), None);
}

/// Prefixed extraction takes exactly `len` characters after the delimiter.
#[test]
fn prop_prefixed_exact_length() {
    assert_eq!(prefixed_s("abc<12def", "<", 5), Some("12def"));
}

/// Prefixed extraction fails rather than truncate when fewer than `len`
/// characters remain.
#[test]
fn prop_prefixed_insufficient_remainder() {
    assert_eq!(prefixed_s("abc<1", "<", 2), None);
}

/// A prefixed extraction of length zero succeeds with an empty span: the
/// zero-length policy applies to bracketed content only.
#[test]
fn prop_prefixed_zero_length() {
    assert_eq!(prefixed_s("a<b", "<", 0), Some(""));
}

/// The consuming prefixed scanner walks forward through the source.
#[test]
fn prop_consume_prefixed_in_order() {
    let mut d = Delimited::new("a<12b<34c");

    assert_eq!(d.consume_prefixed_s("<", 2), Some("12"));
    assert_eq!(d.consume_prefixed::<usize>("<", 2), Some(34));
    assert_eq!(d.consume_prefixed_s("<", 2), None);
}

/// Round trip: a value wrapped in delimiters parses back to itself.
#[test]
fn prop_round_trip_typed() {
    let v: i64 = 3847;
    let s = format!(":{}:", v);

    assert_eq!(matched(&s, ":"), Some(v));

    let w: i32 = -25;
    let t = format!("|{}|", w);

    assert_eq!(matched(&t, "|"), Some(w));
}

/// Round trip on the span itself, without parsing.
#[test]
fn prop_round_trip_span() {
    let s = format!("#{}#", "payload");

    assert_eq!(matched_s(&s, "#"), Some("payload"));
}

/// Delimiters longer than one character are consumed whole.
#[test]
fn prop_multi_character_delimiters() {
    assert_eq!(mismatched_s("ab<<12>>cd", "<<", ">>"), Some("12"));
    assert_eq!(matched_s("ab--12--cd", "--"), Some("12"));
}

/// Offsets and spans are measured in characters, so multi-byte text is sliced
/// on character boundaries.
#[test]
fn prop_multi_byte_source() {
    assert_eq!(matched_s("héllo:12:ø", ":"), Some("12"));
    assert_eq!(matched_s("aé12éb", "é"), Some("12"));
    assert_eq!(prefixed_s("αβ<γδε", "<", 2), Some("γδ"));
}

/// An empty delimiter never matches anything.
#[test]
fn prop_empty_delimiter() {
    assert_eq!(matched_s("abc", ""), None);
}

/// The offset-taking forms start their search at the given character offset.
#[test]
fn prop_search_from_offset() {
    assert_eq!(Delimited::matched_substr_from("x:1:y:2:z", ":", 4), Some("2"));
    assert_eq!(Delimited::matched_from::<i32>("x:1:y:2:z", ":", 4), Some(2));
    assert_eq!(Delimited::mismatched_substr_from("a(1)b(2)c", "(", ")", 4), Some("2"));
    assert_eq!(Delimited::mismatched_from::<i32>("a(1)b(2)c", "(", ")", 4), Some(2));
    assert_eq!(Delimited::prefixed_from::<i32>("a<1b<2c", "<", 1, 3), Some(2));
}

/// The whole-string forms are the offset-zero instances of the same search.
#[test]
fn prop_search_whole_string() {
    assert_eq!(Delimited::matched_substr("x:1:y", ":"), Some("1"));
    assert_eq!(Delimited::mismatched::<i32>("a(1)b", "(", ")"), Some(1));
    assert_eq!(Delimited::prefixed::<i32>("a<1b", "<", 1), Some(1));
    assert_eq!(Delimited::prefixed_substr("a<1b", "<", 1), Some("1"));
}

/// The consuming scanner reports no match on an empty source and stays
/// usable.
#[test]
fn prop_consume_empty_source() {
    let mut d = Delimited::new("");

    assert_eq!(d.consume_matched_s(":"), None);
    assert_eq!(d.consume_mismatched::<usize>(":", ";"), None);
    assert_eq!(d.consume_prefixed_s("<", 1), None);
}
