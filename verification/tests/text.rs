use downonspot::text::{contains_char, count_occurrences, split_on, starts_with};

#[test]
fn split_on_keeps_empty_pieces() {
    assert_eq!(split_on("a::b", ':'), vec!["a", "", "b"]);
    assert_eq!(split_on("", ':'), vec![""]);
    assert_eq!(split_on(":", ':'), vec!["", ""]);
    assert_eq!(split_on("spotify:track:x", ':'), vec!["spotify", "track", "x"]);
}

#[test]
fn split_then_join_round_trip() {
    for s in ["a:b:c", "::", "naïve:é", ""] {
        assert_eq!(split_on(s, ':').join(":"), s);
        assert_eq!(split_on(s, ':').len(), count_occurrences(s, ':') + 1);
    }
}

#[test]
fn char_queries() {
    assert_eq!(count_occurrences("a:b:c", ':'), 2);
    assert_eq!(count_occurrences("abc", ':'), 0);
    assert!(contains_char("a/b", '/'));
    assert!(!contains_char("ab", '/'));
    assert!(starts_with("spotify:x", "spotify:"));
    assert!(!starts_with("spot", "spotify:"));
    assert!(starts_with("x", ""));
}
