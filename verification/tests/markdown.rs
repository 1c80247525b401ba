use rustdoc_text::error::DocError;
use rustdoc_text::markdown::{
    description_line, finish_conversion, html_to_md, term_line, REFUSED,
};

#[test]
fn a_heading_becomes_markdown() {
    assert_eq!(html_to_md("<h1>Hello</h1>").unwrap(), "# Hello");
}

#[test]
fn scripts_styles_and_buttons_are_dropped() {
    let markup = "<h1>Hello</h1><p>one</p><script>var x = 1;</script><style>p{}</style>\
        <button>Copy</button><p>two</p>";
    assert_eq!(html_to_md(markup).unwrap(), "# Hello\n\none\n\ntwo");
}

#[test]
fn a_definition_list_is_written_line_by_line() {
    assert_eq!(html_to_md("<dl><dt>Term</dt><dd>Desc</dd></dl>").unwrap(), "Term:\nDesc");
}

#[test]
fn two_definitions_follow_each_other() {
    assert_eq!(
        html_to_md("<dl><dt>A</dt><dd>first</dd><dt>B</dt><dd>second</dd></dl>").unwrap(),
        "A:\nfirst\nB:\nsecond"
    );
}

#[test]
fn the_empty_markup_is_the_empty_text() {
    assert_eq!(html_to_md("").unwrap(), "");
}

#[test]
fn the_markdown_is_cleaned() {
    let markup = "<pre>x\n\n\n\n\ny</pre>";
    let markdown = html_to_md(markup).unwrap();
    assert_eq!(markdown, "x\n\ny");
}

#[test]
fn a_term_ends_in_colon_and_line_break() {
    assert_eq!(term_line("Term"), "Term:\n");
    assert_eq!(term_line(""), ":\n");
}

#[test]
fn a_description_ends_in_a_line_break() {
    assert_eq!(description_line("Desc"), "Desc\n");
    assert_eq!(description_line(""), "\n");
}

#[test]
fn finished_markdown_is_cleaned() {
    assert_eq!(finish_conversion(Ok("a\n\n\n\nb".to_string())), Ok("a\n\nb".to_string()));
}

#[test]
fn a_failure_keeps_its_cause() {
    let failure = std::io::Error::new(std::io::ErrorKind::InvalidData, "stream did not contain valid UTF-8");
    assert_eq!(
        finish_conversion(Err(failure)),
        Err(DocError::ConversionFailed("stream did not contain valid UTF-8".to_string()))
    );
}

fn refused() -> Result<String, DocError> {
    Err(DocError::ConversionFailed(REFUSED.to_string()))
}

#[test]
fn a_numbered_line_with_a_raised_digit_is_refused() {
    assert_eq!(html_to_md("<p>1². x</p>"), refused());
    assert_eq!(html_to_md("<p>1\u{0661}. x</p>"), refused());
}

#[test]
fn a_numeral_that_comes_of_a_reference_is_refused() {
    assert_eq!(html_to_md("<p>1&sup2;. x</p>"), refused());
    assert_eq!(html_to_md("<p>1&#178;. x</p>"), refused());
    assert_eq!(html_to_md("<p>1&sup2. x</p>"), refused());
}

#[test]
fn a_numeral_that_comes_of_a_reference_read_twice_is_refused() {
    assert_eq!(html_to_md("<p>1&amp;sup2;. x</p>"), refused());
    assert_eq!(html_to_md("<p>1&amp;#178;. x</p>"), refused());
    assert_eq!(html_to_md("<p>1&amp;frac12;. x</p>"), refused());
}

#[test]
fn a_reference_put_together_by_the_parser_is_refused() {
    assert_eq!(html_to_md("<p>1&amp;fr\0ac12;. x</p>"), refused());
    assert_eq!(html_to_md("<p>1&amp;fr</span>ac12;. x</p>"), refused());
    assert_eq!(html_to_md("<p>1\0². x</p>"), refused());
}

#[test]
fn a_numeral_in_a_dropped_element_is_refused_too() {
    assert_eq!(html_to_md("<p>a</p><script>1². x</script>"), refused());
    assert_eq!(html_to_md("<script>1&sup2;. x</script>"), refused());
}

#[test]
fn a_list_that_starts_near_the_largest_number_is_refused() {
    assert_eq!(
        html_to_md("<ol start=\"18446744073709551615\"><li>a</li><li>b</li></ol>"),
        refused()
    );
    assert_eq!(html_to_md("<ol start=\"4294967295\"><li>a</li><li>b</li></ol>"), refused());
}

#[test]
fn a_list_may_start_at_a_number() {
    assert_eq!(
        html_to_md("<ol start=\"5\"><li>a</li><li>b</li></ol>").unwrap(),
        "5.  a\n6.  b"
    );
    assert_eq!(
        html_to_md("<ol start=\"999999999\"><li>a</li><li>b</li></ol>").unwrap(),
        "999999999.  a\n1000000000.  b"
    );
}

#[test]
fn a_numbered_line_of_ascii_is_escaped() {
    assert_eq!(html_to_md("<p>1. x</p>").unwrap(), "1\\. x");
    assert_eq!(html_to_md("<p>12. x</p>").unwrap(), "12\\. x");
}

#[test]
fn ampersands_of_the_text_are_kept() {
    assert_eq!(html_to_md("<p>a &amp; b &amp;str &lt;T&gt;</p>").unwrap(), "a & b &str <T>");
}

#[test]
fn text_outside_ascii_is_kept() {
    assert_eq!(html_to_md("<p>§ héllo → wörld</p>").unwrap(), "§ héllo → wörld");
}
