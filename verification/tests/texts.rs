use icie_judge::text::{
    bare_number, chars_of, contains_text, first_line, join3, same_text, split_at_slashes, strip_prefix,
};

#[test]
fn same_text_compares_characters() {
    assert!(same_text("abc", "abc"));
    assert!(!same_text("abc", "abd"));
    assert!(!same_text("abc", "ab"));
    assert!(same_text("", ""));
}

#[test]
fn join3_concatenates() {
    assert_eq!(join3("a", "bc", "d"), "abcd");
    assert_eq!(join3("", "", ""), "");
}

#[test]
fn first_line_stops_at_line_feed() {
    assert_eq!(first_line("one\ntwo\nthree"), "one");
    assert_eq!(first_line("one"), "one");
    assert_eq!(first_line("\n"), "");
    assert_eq!(first_line("żółw\nx"), "żółw");
}

#[test]
fn chars_of_lists_characters() {
    assert_eq!(chars_of("aż!"), vec!['a', 'ż', '!']);
    assert_eq!(chars_of(""), Vec::<char>::new());
}

#[test]
fn contains_text_finds_runs() {
    assert!(contains_text("SPOJ.com - Authorisation required", "Authorisation required"));
    assert!(contains_text("abc", ""));
    assert!(contains_text("", ""));
    assert!(contains_text("abc", "abc"));
    assert!(contains_text("aab", "ab"));
    assert!(!contains_text("abc", "abcd"));
    assert!(!contains_text("abc", "ac"));
    assert!(!contains_text("", "a"));
}

#[test]
fn split_cuts_at_every_slash() {
    assert_eq!(split_at_slashes("a/b/c"), vec!["a", "b", "c"]);
    assert_eq!(split_at_slashes("abc"), vec!["abc"]);
    assert_eq!(split_at_slashes(""), vec![""]);
    assert_eq!(split_at_slashes("/"), vec!["", ""]);
    assert_eq!(split_at_slashes("a//b/"), vec!["a", "", "b", ""]);
}

#[test]
fn strip_prefix_gives_what_follows() {
    assert_eq!(strip_prefix("https://x", "https://"), Some("x"));
    assert_eq!(strip_prefix("https://", "https://"), Some(""));
    assert_eq!(strip_prefix("http://x", "https://"), None);
    assert_eq!(strip_prefix("ht", "https://"), None);
    assert_eq!(strip_prefix("abc", ""), Some("abc"));
    assert_eq!(strip_prefix("żółw", "żó"), Some("łw"));
}

#[test]
fn bare_numbers_are_digits_with_one_point_at_most() {
    for text in ["0", "42", "42.5", "5.", ".5", "000.000"] {
        assert!(bare_number(text), "{}", text);
    }
    for text in ["", ".", "..", "1.2.3", "-1", "+1", "1e5", "NaN", "inf", "4 2", "٣", "42\n"] {
        assert!(!bare_number(text), "{:?}", text);
    }
}
