use rivet_head_api::text::{
    chars_of, ends_with, find_char, holds_text, same_chars, starts_with,
};

fn chars(text: &str) -> Vec<char> {
    text.chars().collect()
}

#[test]
fn chars_of_lists_the_characters() {
    assert_eq!(chars_of(""), Vec::<char>::new());
    assert_eq!(chars_of("abc"), vec!['a', 'b', 'c']);
    assert_eq!(chars_of("né"), vec!['n', 'é']);
}

#[test]
fn same_chars_is_equality() {
    assert!(same_chars(&chars(""), &chars("")));
    assert!(same_chars(&chars("abc"), &chars("abc")));
    assert!(!same_chars(&chars("abc"), &chars("abd")));
    assert!(!same_chars(&chars("abc"), &chars("ab")));
    assert!(!same_chars(&chars(""), &chars("a")));
}

#[test]
fn starts_with_looks_at_the_front() {
    assert!(starts_with(&chars("/diary/delete/x"), &chars("/diary/delete/")));
    assert!(starts_with(&chars("abc"), &chars("")));
    assert!(starts_with(&chars("abc"), &chars("abc")));
    assert!(!starts_with(&chars("abc"), &chars("bc")));
    assert!(!starts_with(&chars("ab"), &chars("abc")));
    assert!(!starts_with(&chars(""), &chars("a")));
}

#[test]
fn ends_with_looks_at_the_back() {
    assert!(ends_with(&chars("sub.example.app"), &chars(".example.app")));
    assert!(ends_with(&chars("abc"), &chars("")));
    assert!(ends_with(&chars("abc"), &chars("abc")));
    assert!(!ends_with(&chars("abc"), &chars("ab")));
    assert!(!ends_with(&chars("bc"), &chars("abc")));
    assert!(!ends_with(&chars(""), &chars("a")));
}

#[test]
fn find_char_gives_the_first_place_or_the_length() {
    let text = chars("a:b:c");
    assert_eq!(find_char(&text, ':', 0), 1);
    assert_eq!(find_char(&text, ':', 1), 1);
    assert_eq!(find_char(&text, ':', 2), 3);
    assert_eq!(find_char(&text, ':', 4), 5);
    assert_eq!(find_char(&text, ':', 5), 5);
    assert_eq!(find_char(&text, '/', 0), 5);
    assert_eq!(find_char(&chars(""), ':', 0), 0);
}

#[test]
fn holds_text_finds_a_run_anywhere() {
    assert!(holds_text(&chars("abcde"), &chars("abc")));
    assert!(holds_text(&chars("abcde"), &chars("bcd")));
    assert!(holds_text(&chars("abcde"), &chars("cde")));
    assert!(holds_text(&chars("abcde"), &chars("abcde")));
    assert!(holds_text(&chars("abcde"), &chars("e")));
    assert!(holds_text(&chars("abcde"), &chars("")));
    assert!(holds_text(&chars(""), &chars("")));
    assert!(holds_text(&chars("aab"), &chars("ab")));
    assert!(!holds_text(&chars("abcde"), &chars("ace")));
    assert!(!holds_text(&chars("abcde"), &chars("abcdef")));
    assert!(!holds_text(&chars("abcde"), &chars("ed")));
    assert!(!holds_text(&chars(""), &chars("a")));
}
