use flowtee::cfg::Impulse;
use flowtee::scan::{ScanState, count_in_window, search_counts, window_found};

#[test]
fn scan_impulse_is_recorded_at_most_once() {
    let mut scan = ScanState::new();
    let ok = "hello".to_string();
    let newly = scan.feed(b"hello", Some(&ok), None);
    assert_eq!(newly, Some(Impulse::ScanOk));
    assert_eq!(scan.impulse, Some(Impulse::ScanOk));
    // the buffer keeps matching, but nothing new is ever recorded
    let again = scan.feed(b"hello hello", Some(&ok), None);
    assert_eq!(again, None);
    let third = scan.feed(b"hello", Some(&ok), None);
    assert_eq!(third, None);
    assert_eq!(scan.impulse, Some(Impulse::ScanOk));
}

#[test]
fn error_pattern_wins_when_both_match() {
    let mut scan = ScanState::new();
    let ok = "ok".to_string();
    let err = "bad".to_string();
    let newly = scan.feed(b"badok", Some(&ok), Some(&err));
    assert_eq!(newly, Some(Impulse::ScanErr));
}

#[test]
fn error_pattern_is_tested_before_success() {
    let mut scan = ScanState::new();
    let ok = "done".to_string();
    let err = "fail".to_string();
    // only the success pattern is present in the output
    let newly = scan.feed(b"all done", Some(&ok), Some(&err));
    assert_eq!(newly, Some(Impulse::ScanOk));
}

#[test]
fn match_outside_trailing_window_is_not_found() {
    // the pattern sits at the start; the window holds only the last
    // 2 x 5 = 10 bytes of the buffer, so it is missed
    let mut scan = ScanState::new();
    let ok = "hello".to_string();
    let newly = scan.feed(b"hello then quite a lot more text", Some(&ok), None);
    assert_eq!(newly, None);
    assert_eq!(scan.impulse, None);
}

#[test]
fn window_clamps_to_short_buffer() {
    // buffer shorter than twice the pattern: the window is the whole buffer
    assert!(window_found(b"hi", b"hi"));
    assert!(window_found(b"ahi", b"hi"));
    assert!(!window_found(b"h", b"hi"));
}

#[test]
fn ansi_escapes_are_stripped_before_matching() {
    let mut scan = ScanState::new();
    let ok = "hello".to_string();
    // the escape sequence splits the marker in the raw bytes
    let newly = scan.feed(b"he\x1b[31mllo", Some(&ok), None);
    assert_eq!(newly, Some(Impulse::ScanOk));
    assert_eq!(scan.buffer, b"hello".to_vec());
}

#[test]
fn missing_patterns_never_match() {
    let mut scan = ScanState::new();
    let newly = scan.feed(b"anything at all", None, None);
    assert_eq!(newly, None);
    assert_eq!(scan.impulse, None);
}

#[test]
fn window_counts_are_nonoverlapping() {
    // window of "ab" is the last 4 bytes, "abab": two occurrences
    assert_eq!(count_in_window(b"ababab", b"ab"), 2);
    // "aaaa" against "aa": non-overlapping occurrences only
    assert_eq!(count_in_window(b"aaaa", b"aa"), 2);
    assert_eq!(count_in_window(b"zzzz", b"ab"), 0);
}

#[test]
fn empty_pattern_matches_its_empty_window_once() {
    assert_eq!(count_in_window(b"whatever", b""), 1);
    assert_eq!(count_in_window(b"", b""), 1);
}

#[test]
fn search_counts_reports_each_term() {
    let terms = vec!["ab".to_string(), "zz".to_string(), "abab".to_string()];
    let counts = search_counts(b"ababab", &terms);
    assert_eq!(counts, vec![2, 0, 1]);
}
