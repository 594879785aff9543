use psiphon_tui::text::{format_i64, format_u64, sort_strings, text_is, text_le_exec};

#[test]
fn decimal_rendering() {
    assert_eq!(format_u64(0), "0");
    assert_eq!(format_u64(7), "7");
    assert_eq!(format_u64(10), "10");
    assert_eq!(format_u64(1234567890), "1234567890");
    assert_eq!(format_u64(u64::MAX), "18446744073709551615");
    assert_eq!(format_i64(-1), "-1");
    assert_eq!(format_i64(-90), "-90");
    assert_eq!(format_i64(i64::MIN), "-9223372036854775808");
    assert_eq!(format_i64(i64::MAX), "9223372036854775807");
}

#[test]
fn text_order() {
    assert!(text_le_exec("", ""));
    assert!(text_le_exec("", "a"));
    assert!(!text_le_exec("a", ""));
    assert!(text_le_exec("AB", "AC"));
    assert!(!text_le_exec("AC", "AB"));
    assert!(text_le_exec("AB", "ABC"));
    assert!(text_le_exec("Z", "a"));
    assert!(text_le_exec("é", "ü"));
}

#[test]
fn sorting_regions() {
    let v: Vec<String> = ["US", "DE", "CA", "DE", "AT"].iter().map(|s| s.to_string()).collect();
    let sorted = sort_strings(v);
    assert_eq!(sorted, vec!["AT", "CA", "DE", "DE", "US"]);
    assert!(sort_strings(Vec::new()).is_empty());
}

#[test]
fn sorting_matches_std_order() {
    let v: Vec<String> = ["b", "a", "ä", "B", "", "ab", "z"].iter().map(|s| s.to_string()).collect();
    let mut expected = v.clone();
    expected.sort();
    assert_eq!(sort_strings(v), expected);
}

#[test]
fn literal_comparison() {
    assert!(text_is("Error", "Error"));
    assert!(!text_is("Error", "error"));
    assert!(!text_is("", "x"));
}
