use rustdoc_text::error::{append_decimal, append_status, DocError};

#[test]
fn each_error_has_its_message() {
    assert_eq!(DocError::UnknownKind.message(), "Matching variant not found");
    assert_eq!(DocError::InvalidIdentifier.message(), "The top level resource is always a module");
    assert_eq!(DocError::TransportError("connection refused".to_string()).message(), "connection refused");
    assert_eq!(
        DocError::HttpStatus(404).message(),
        "Failed to fetch documentation. Status: 404 Not Found"
    );
    assert_eq!(DocError::ContentNotFound.message(), "Could not find main content section");
    assert_eq!(DocError::ResourceNotFound.message(), "Could not find the resource");
    assert_eq!(
        DocError::ConversionFailed("bad input".to_string()).message(),
        "HTML to Markdown conversion failed: bad input"
    );
}

#[test]
fn a_status_is_written_with_the_words_it_is_known_by() {
    assert_eq!(
        DocError::HttpStatus(500).message(),
        "Failed to fetch documentation. Status: 500 Internal Server Error"
    );
    assert_eq!(
        DocError::HttpStatus(301).message(),
        "Failed to fetch documentation. Status: 301 Moved Permanently"
    );
    assert_eq!(
        DocError::HttpStatus(599).message(),
        "Failed to fetch documentation. Status: 599 <unknown status code>"
    );
}

#[test]
fn a_code_that_no_status_has_is_written_in_base_ten() {
    assert_eq!(DocError::HttpStatus(0).message(), "Failed to fetch documentation. Status: 0");
    assert_eq!(DocError::HttpStatus(7).message(), "Failed to fetch documentation. Status: 7");
    assert_eq!(DocError::HttpStatus(99).message(), "Failed to fetch documentation. Status: 99");
    assert_eq!(DocError::HttpStatus(1000).message(), "Failed to fetch documentation. Status: 1000");
    assert_eq!(DocError::HttpStatus(65535).message(), "Failed to fetch documentation. Status: 65535");
}

#[test]
fn a_status_is_appended_to_what_is_there() {
    let mut text = "s=".to_string();
    append_status(&mut text, 404);
    assert_eq!(text, "s=404 Not Found");
    let mut text = "s=".to_string();
    append_status(&mut text, 42);
    assert_eq!(text, "s=42");
}

#[test]
fn decimal_is_appended_to_what_is_there() {
    for n in [0u16, 9, 10, 11, 99, 100, 101, 1000, 4040, 9999, 10000, 65535] {
        let mut text = "n=".to_string();
        append_decimal(&mut text, n);
        assert_eq!(text, format!("n={}", n));
    }
}

#[test]
fn errors_of_different_kinds_differ() {
    assert_ne!(DocError::HttpStatus(404), DocError::TransportError("404".to_string()));
    assert_ne!(DocError::ContentNotFound, DocError::ResourceNotFound);
    assert_ne!(DocError::HttpStatus(404), DocError::HttpStatus(500));
}
