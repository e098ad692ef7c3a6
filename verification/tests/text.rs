use cursus::text::{
    chars_of, compare_spans, concat2, concat3, concat4, contains_char, count_occurrences, text_eq,
};

#[test]
fn characters_are_counted_and_compared_as_characters() {
    assert_eq!(chars_of("a\u{e9}b"), vec!['a', '\u{e9}', 'b']);
    assert!(text_eq("\u{e9}t\u{e9}", "\u{e9}t\u{e9}"));
    assert!(!text_eq("abc", "abd"));
    assert!(!text_eq("ab", "abc"));
    assert_eq!(count_occurrences("a.b.c", '.'), 2);
    assert_eq!(count_occurrences("", '.'), 0);
    assert!(contains_char("step name", ' '));
    assert!(!contains_char("step_name", ' '));
}

#[test]
fn spans_compare_lexicographically() {
    let a = chars_of("abcabd");
    assert!(compare_spans(&a, 0, 3, &a, 3, 6) < 0);
    assert!(compare_spans(&a, 3, 6, &a, 0, 3) > 0);
    assert_eq!(compare_spans(&a, 0, 2, &a, 3, 5), 0);
    assert!(compare_spans(&a, 0, 2, &a, 0, 3) < 0);
    assert!(compare_spans(&a, 0, 0, &a, 0, 0) == 0);
}

#[test]
fn texts_concatenate() {
    assert_eq!(concat2("a", "b"), "ab");
    assert_eq!(concat3("'", "x", "'"), "'x'");
    assert_eq!(concat4("a ", "cron", " needs ", "x"), "a cron needs x");
}
