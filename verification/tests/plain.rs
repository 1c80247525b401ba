use rustdoc_text::plain::{digit, is_plain, risky_reference_at, word_at, DIGITS};

fn chars(text: &str) -> Vec<char> {
    text.chars().collect()
}

#[test]
fn ordinary_text_is_plain() {
    assert!(is_plain(""));
    assert!(is_plain("<p>Returns the first 3 items of a <code>Vec&lt;T&gt;</code>.</p>"));
    assert!(is_plain("fn get(&amp;self, key: &amp;str) -&gt; Option&lt;&amp;V&gt;"));
    assert!(is_plain("a &amp;&amp; b, x &amp; y, &amp;mut z;"));
    assert!(is_plain("§ 1. héllo → wörld … ⓘ"));
}

#[test]
fn a_numeral_outside_ascii_is_not_plain() {
    assert!(!is_plain("<p>1². x</p>"));
    assert!(!is_plain("1\u{0661}. x"));
    assert!(!is_plain("½"));
    assert!(!is_plain("title=\"Ⅳ\""));
    assert!(!is_plain("x³"));
}

#[test]
fn digits_of_ascii_are_plain() {
    assert!(is_plain("0123456789".get(..9).unwrap()));
    assert!(is_plain("1. one 22. two 333. three"));
}

#[test]
fn a_reference_by_number_is_not_plain() {
    assert!(!is_plain("&#178;"));
    assert!(!is_plain("&#xB2;"));
    assert!(!is_plain("&amp;#178;"));
    assert!(!is_plain("x&amp;#"));
    assert!(is_plain("&amp; #1"));
    assert!(is_plain("#178;"));
}

#[test]
fn a_reference_to_a_fraction_or_raised_digit_is_not_plain() {
    assert!(!is_plain("&sup2;"));
    assert!(!is_plain("&amp;sup2;"));
    assert!(!is_plain("1&amp;frac12;. x"));
    assert!(!is_plain("&amp;half;"));
    assert!(!is_plain("&amp;sup9"));
    assert!(!is_plain("&amp;frac00"));
    assert!(is_plain("&amp;sup"));
    assert!(is_plain("&amp;super::Item, &amp;fraction, &amp;half, &amp;halfway;"));
    assert!(is_plain("sup2; frac12; half;"));
    assert!(is_plain("&amp;fr ac12;"));
    assert!(is_plain("&amp;amp;sup2;"));
    assert!(is_plain("&amp;str &amp;self &amp;hal &amp;fra"));
}

#[test]
fn a_run_of_ten_digits_is_not_plain() {
    assert_eq!(DIGITS, 9);
    assert!(is_plain("123456789"));
    assert!(is_plain("123456789 123456789"));
    assert!(is_plain("123456789.123456789"));
    assert!(!is_plain("1234567890"));
    assert!(!is_plain("<ol start=\"18446744073709551615\">"));
    assert!(!is_plain("x00000000001"));
}

#[test]
fn a_word_stands_where_its_characters_stand() {
    let text = chars("a&amp;b");
    assert!(word_at(&text, 2, &chars("amp;")));
    assert!(word_at(&text, 0, &chars("a&")));
    assert!(word_at(&text, 7, &chars("")));
    assert!(word_at(&text, 6, &chars("b")));
    assert!(!word_at(&text, 1, &chars("amp;")));
    assert!(!word_at(&text, 6, &chars("bc")));
    assert!(!word_at(&text, 8, &chars("")));
    assert!(!word_at(&text, usize::MAX, &chars("a")));
}

#[test]
fn a_risky_reference_begins_with_an_ampersand() {
    let text = chars("sup2;&sup2;&amp;frac12;&amp;x");
    assert!(!risky_reference_at(&text, 0));
    assert!(risky_reference_at(&text, 5));
    assert!(risky_reference_at(&text, 11));
    assert!(!risky_reference_at(&text, 12));
    assert!(!risky_reference_at(&text, 23));
}

#[test]
fn the_digits_are_those_of_ascii() {
    for c in '0'..='9' {
        assert!(digit(c));
    }
    for c in ['/', ':', 'a', ' ', '²', '\u{0661}'] {
        assert!(!digit(c));
    }
}
