use winky::text::{contains_lower, is_blank, split_on_char, trim_nonblank, trim_spaces};

#[test]
fn trim_removes_surrounding_whitespace() {
    assert_eq!(trim_spaces("  hello world \t\r\n"), "hello world");
    assert_eq!(trim_spaces("no-trim"), "no-trim");
    assert_eq!(trim_spaces(""), "");
    assert_eq!(trim_spaces(" \t \n "), "");
    // Non-ASCII whitespace counts too.
    assert_eq!(trim_spaces("\u{a0}x\u{3000}"), "x");
    // Interior whitespace is kept.
    assert_eq!(trim_spaces("  a  b  "), "a  b");
}

#[test]
fn blankness() {
    assert!(is_blank(""));
    assert!(is_blank("   \t"));
    assert!(!is_blank(" x "));
    assert_eq!(trim_nonblank("  "), None);
    assert_eq!(trim_nonblank(" x ").as_deref(), Some("x"));
}

#[test]
fn splitting_keeps_empty_pieces() {
    assert_eq!(split_on_char("a&b&c", '&'), vec!["a", "b", "c"]);
    assert_eq!(split_on_char("a&&b", '&'), vec!["a", "", "b"]);
    assert_eq!(split_on_char("", '&'), vec![""]);
    assert_eq!(split_on_char("&", '&'), vec!["", ""]);
    assert_eq!(split_on_char("abc", '&'), vec!["abc"]);
}

#[test]
fn case_insensitive_contains() {
    assert!(contains_lower("audio/WAV", "wav"));
    assert!(contains_lower("wav", "wav"));
    assert!(!contains_lower("wa", "wav"));
    assert!(!contains_lower("audio/ogg", "wav"));
    assert!(contains_lower("AuDiO/FlAc", "flac"));
    assert!(contains_lower("anything", ""));
}
