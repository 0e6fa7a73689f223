use httprint::text::{chars_of, contains_text};

#[test]
fn chars_are_collected_in_order() {
    assert_eq!(chars_of(""), Vec::<char>::new());
    assert_eq!(chars_of("a\u{e9}\u{1f600}z"), vec!['a', '\u{e9}', '\u{1f600}', 'z']);
}

#[test]
fn empty_needle_is_found_everywhere() {
    assert!(contains_text("", ""));
    assert!(contains_text("abc", ""));
}

#[test]
fn needle_is_found_at_each_position() {
    assert!(contains_text("abcde", "ab"));
    assert!(contains_text("abcde", "cd"));
    assert!(contains_text("abcde", "de"));
    assert!(contains_text("abcde", "abcde"));
    assert!(contains_text("aab", "ab"));
}

#[test]
fn absent_needle_is_not_found() {
    assert!(!contains_text("abcde", "ac"));
    assert!(!contains_text("abcde", "abcdef"));
    assert!(!contains_text("", "a"));
    assert!(!contains_text("abcde", "E"));
    assert!(!contains_text("ababab", "abb"));
}

#[test]
fn search_agrees_with_characters_beyond_ascii() {
    assert!(contains_text("na\u{ef}ve caf\u{e9}", "caf\u{e9}"));
    assert!(!contains_text("na\u{ef}ve cafe", "caf\u{e9}"));
}
