use rustdoc_text::error::DocError;
use rustdoc_text::fetch::{check_response, page_of, reports_success, Reply};

#[test]
fn a_success_hands_the_body_on() {
    assert_eq!(check_response(200, "<html></html>".to_string()), Ok("<html></html>".to_string()));
    assert_eq!(check_response(204, String::new()), Ok(String::new()));
}

#[test]
fn not_found_is_a_status_and_no_transport_error() {
    let page = check_response(404, "Not Found".to_string());
    assert_eq!(page, Err(DocError::HttpStatus(404)));
    assert!(!matches!(page, Err(DocError::TransportError(_))));
}

#[test]
fn success_is_from_200_to_299() {
    for status in [0u16, 100, 199, 300, 301, 404, 500, 503, 600, u16::MAX] {
        assert_eq!(check_response(status, "body".to_string()), Err(DocError::HttpStatus(status)));
    }
    for status in [200u16, 201, 250, 299] {
        assert_eq!(check_response(status, "body".to_string()), Ok("body".to_string()));
    }
}

#[test]
fn a_reply_with_a_page_gives_the_page() {
    let reply = Reply::Response { status: 200, body: "<html></html>".to_string() };
    assert_eq!(page_of(reply), Ok("<html></html>".to_string()));
}

#[test]
fn a_reply_with_another_status_gives_the_status() {
    let reply = Reply::Response { status: 404, body: "Not Found".to_string() };
    assert_eq!(page_of(reply), Err(DocError::HttpStatus(404)));
    let reply = Reply::Response { status: 503, body: String::new() };
    assert_eq!(page_of(reply), Err(DocError::HttpStatus(503)));
}

#[test]
fn no_reply_is_a_transport_error() {
    let reply = Reply::Unreachable("connection refused".to_string());
    assert_eq!(page_of(reply), Err(DocError::TransportError("connection refused".to_string())));
}

#[test]
fn only_the_codes_from_200_to_299_report_success() {
    for status in [200u16, 204, 299] {
        assert!(reports_success(status));
    }
    for status in [0u16, 199, 300, 404, 500, u16::MAX] {
        assert!(!reports_success(status));
    }
}
