use delim::delimited::Delimited;

// #region tests: matched

#[test]
fn delimited_matched() {
    let mut d = Delimited::new("aaa :12: bbb :34: ccc");

    // Consume first value (expecting 12)
    let first = d.matched(":");

    // Consume second value (expecting 34)
    let second = d.matched(":");

    assert_eq!(first, Some(12));
    assert_eq!(second, Some(34));
}

#[test]
fn matched_empty() {
    let mut d = Delimited::new("");

    assert_eq!(d.matched::<usize>(":"), None);
}

#[test]
fn matched_missing_start() {
    let mut d = Delimited::new("abc:12def");

    assert_eq!(d.matched::<usize>(":"), None);
}

#[test]
fn matched_missing_end() {
    let mut d = Delimited::new("abc12:def");

    assert_eq!(d.matched::<usize>(":"), None);
}

#[test]
fn matched_missing_both() {
    let mut d = Delimited::new("abc12def");

    assert_eq!(d.matched::<usize>(":"), None);
}

#[test]
fn matched_uneven_delimiters() {
    let mut d = Delimited::new("abc:12:def:34ghi");

    assert_eq!(d.matched(":"), Some(12));
    assert_eq!(d.matched::<usize>(":"), None);
}

#[test]
fn matched_empty_delimited_value() {
    let mut d = Delimited::new("abc::def");

    assert_eq!(d.matched::<usize>(":"), None);
}

// #endregion tests: matched

// #region tests: mismatched

#[test]
fn mismatched() {
    let mut d = Delimited::new("aaa :12; bbb +34| ccc");

    // Consume first value (expecting 12)
    let first = d.mismatched(":", ";");

    // Consume second value (expecting 34)
    let second = d.mismatched("+", "|");

    assert_eq!(first, Some(12));
    assert_eq!(second, Some(34));
}

// #endregion tests: mismatched

// #region tests: delimited

#[test]
fn delimited() {
    let mut d = Delimited::new("abc:12;def");

    assert_eq!(d.delimited(":", ";"), Some("12"));
}

// #endregion tests: delimited
