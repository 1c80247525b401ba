use rustdoc_text::chars::{append_joined, chars_of, same_chars, string_of_range};

#[test]
fn chars_of_gives_each_character() {
    assert_eq!(chars_of("a::é"), vec!['a', ':', ':', 'é']);
    assert_eq!(chars_of(""), Vec::<char>::new());
}

#[test]
fn a_range_of_characters_as_a_string() {
    let text = chars_of("héllo");
    assert_eq!(string_of_range(&text, 0, 5), "héllo");
    assert_eq!(string_of_range(&text, 1, 3), "él");
    assert_eq!(string_of_range(&text, 2, 2), "");
}

#[test]
fn same_chars_compares_text() {
    assert!(same_chars(&chars_of("struct"), &chars_of("struct")));
    assert!(same_chars(&[], &[]));
    assert!(!same_chars(&chars_of("struct"), &chars_of("static")));
    assert!(!same_chars(&chars_of("attr"), &chars_of("attribute")));
    assert!(!same_chars(&chars_of("a"), &[]));
}

#[test]
fn parts_are_joined_behind_what_is_there() {
    let parts = vec!["a".to_string(), "b".to_string(), "c".to_string()];
    let mut out = "x=".to_string();
    append_joined(&mut out, &parts, 3, "/");
    assert_eq!(out, "x=a/b/c");
}

#[test]
fn only_the_first_parts_are_joined() {
    let parts = vec!["a".to_string(), "b".to_string(), "c".to_string()];
    let mut out = String::new();
    append_joined(&mut out, &parts, 2, "::");
    assert_eq!(out, "a::b");
    let mut out = String::new();
    append_joined(&mut out, &parts, 1, "::");
    assert_eq!(out, "a");
    let mut out = "kept".to_string();
    append_joined(&mut out, &parts, 0, "::");
    assert_eq!(out, "kept");
}
