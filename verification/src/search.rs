//! Searching the releases index: the address of a query, and the text of
//! the page that answers it.

use vstd::prelude::*;
use vstd::string::{StringExecFns, StringSliceAdditionalSpecFns};
use crate::error::{append_status, message_spec, status_spec, text_result, DocError, ErrorModel};
use crate::html::{select_inner_html, selected_inner_html};
use crate::markdown::{converted_to, html_to_md};

verus! {

/// The selector of the list that holds the results of a search.
pub const RESULTS: &'static str = ".recent-releases-container > ul";

/// Whether a byte is written as it is in a query: letters and digits of
/// ASCII, and `-`, `.`, `_`, `~`.
pub open spec fn is_unreserved(byte: u8) -> bool {
    ||| 0x30 <= byte <= 0x39
    ||| 0x41 <= byte <= 0x5a
    ||| 0x61 <= byte <= 0x7a
    ||| byte == 0x2d
    ||| byte == 0x2e
    ||| byte == 0x5f
    ||| byte == 0x7e
}

/// The digit of base sixteen for a value under sixteen, in upper case.
pub open spec fn hex_digit(value: u8) -> char {
    if value < 10 {
        (0x30 + value) as char
    } else {
        (0x41 + value - 10) as char
    }
}

/// One byte as a query holds it: itself, or `%` and its two digits of base
/// sixteen.
pub open spec fn encoded_byte(byte: u8) -> Seq<char> {
    if is_unreserved(byte) {
        seq![byte as char]
    } else {
        seq!['%', hex_digit(byte / 16), hex_digit(byte % 16)]
    }
}

/// Bytes as a query holds them, each encoded in its place.
pub open spec fn percent_encoded(bytes: Seq<u8>) -> Seq<char>
    decreases bytes.len(),
{
    if bytes.len() == 0 {
        Seq::empty()
    } else {
        percent_encoded(bytes.drop_last()) + encoded_byte(bytes.last())
    }
}

/// The address of the search for `query`.
pub open spec fn search_url_spec(query: Seq<u8>) -> Seq<char> {
    "https://docs.rs/releases/search?query="@ + percent_encoded(query)
}

/// Calls `urlencoding::encode`, which goes through the bytes of the text's
/// UTF-8 form, keeps each letter and digit of ASCII and each of `-`, `.`,
/// `_`, `~`, and writes any other byte as `%` and two upper-case digits of
/// base sixteen. The contract claims this of the result.
#[verifier::external_body]
pub(crate) fn encode_query(query: &str) -> (encoded: String)
    ensures
        encoded@ == percent_encoded(query.spec_bytes()),
{
    urlencoding::encode(query).into_owned()
}

/// The address of the search for `query`.
pub fn search_url(query: &str) -> (url: String)
    ensures
        url@ == search_url_spec(query.spec_bytes()),
{
    let mut url = String::new();
    url.append("https://docs.rs/releases/search?query=");
    let encoded = encode_query(query);
    url.append(encoded.as_str());
    url
}

/// Whether a character may stand in an encoded query: `%`, or one that is
/// written as it is.
pub open spec fn is_query_char(c: char) -> bool {
    c == '%' || (c as u32 <= 0x7f && is_unreserved(c as u8))
}

/// An encoded query holds nothing but `%`, letters and digits of ASCII and
/// `-`, `.`, `_`, `~`: no character of the query can end the address or
/// begin another of its parts.
pub proof fn lemma_percent_encoded_is_plain(bytes: Seq<u8>)
    ensures
        forall|i: int|
            0 <= i < percent_encoded(bytes).len() ==> is_query_char(
                #[trigger] percent_encoded(bytes)[i],
            ),
    decreases bytes.len(),
{
    if bytes.len() > 0 {
        let byte = bytes.last();
        lemma_percent_encoded_is_plain(bytes.drop_last());
        let last = encoded_byte(byte);
        assert forall|j: int| 0 <= j < last.len() implies is_query_char(#[trigger] last[j]) by {
            if is_unreserved(byte) {
                assert(last[0] == byte as char);
            } else {
                assert(byte / 16 < 16 && byte % 16 < 16);
                assert(is_query_char(hex_digit(byte / 16)));
                assert(is_query_char(hex_digit(byte % 16)));
            }
        }
        let head = percent_encoded(bytes.drop_last());
        let whole = percent_encoded(bytes);
        assert forall|i: int| 0 <= i < whole.len() implies is_query_char(#[trigger] whole[i]) by {
            if i < head.len() {
                assert(whole[i] == head[i]);
            } else {
                assert(whole[i] == last[i - head.len()]);
            }
        }
    }
}

/// The first region among those found; `ContentNotFound` where none was
/// found and where the search itself was refused.
pub open spec fn first_region_spec(found: Option<Seq<Seq<char>>>) -> Result<
    Seq<char>,
    ErrorModel,
> {
    match found {
        Some(regions) => if regions.len() >= 1 {
            Ok(regions[0])
        } else {
            Err(ErrorModel::ContentNotFound)
        },
        None => Err(ErrorModel::ContentNotFound),
    }
}

/// The first region among those found, or `ContentNotFound`.
pub fn first_region(found: Option<Vec<String>>) -> (region: Result<String, DocError>)
    ensures
        text_result(region) == first_region_spec(found.deep_view()),
{
    match found {
        Some(mut regions) => {
            if regions.len() >= 1 {
                let ghost texts = regions.deep_view();
                let region = regions.swap_remove(0);
                assert(region@ == texts[0]);
                Ok(region)
            } else {
                Err(DocError::ContentNotFound)
            }
        },
        None => Err(DocError::ContentNotFound),
    }
}

/// What processing a page of search results gives: the list of results is
/// taken out of the page, converted and cleaned.
pub open spec fn search_processed(html: Seq<char>, result: Result<String, DocError>) -> bool {
    match first_region_spec(selected_inner_html(html, RESULTS@)) {
        Ok(region) => converted_to(region, result),
        Err(error) => result matches Err(e) && e@ == error,
    }
}

/// Process HTML content to extract and convert search results to Markdown.
pub fn process_search_html(html: &str) -> (result: Result<String, DocError>)
    ensures
        search_processed(html@, result),
{
    match first_region(select_inner_html(html, RESULTS)) {
        Ok(region) => html_to_md(region.as_str()),
        Err(error) => Err(error),
    }
}

/// The account of an error that ended a search: that of any resolution,
/// but that a status is reported of the search results.
pub open spec fn search_message_spec(error: ErrorModel) -> Seq<char> {
    match error {
        ErrorModel::HttpStatus(code) => "Failed to fetch search results. Status: "@ + status_spec(
            code,
        ),
        _ => message_spec(error),
    }
}

/// The account of an error that ended a search.
pub fn search_message(error: &DocError) -> (text: String)
    ensures
        text@ == search_message_spec(error@),
{
    match error {
        DocError::HttpStatus(code) => {
            let mut text = "Failed to fetch search results. Status: ".to_owned();
            append_status(&mut text, *code);
            text
        },
        _ => error.message(),
    }
}

} // verus!
