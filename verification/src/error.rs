//! The ways in which resolving a documentation page can fail.

use vstd::prelude::*;
use vstd::string::StringExecFns;

verus! {

/// A failure of some stage of a resolution. Nothing is retried: the first
/// failure ends the request and is handed to the caller.
#[derive(PartialEq, Eq, Debug)]
pub enum DocError {
    /// A token names no item kind.
    UnknownKind,
    /// A kind other than module was asked of a path that has no container.
    InvalidIdentifier,
    /// The connection failed; the text is the transport's own account of it.
    TransportError(String),
    /// The server answered with a status outside the success range.
    HttpStatus(u16),
    /// The page does not hold exactly one main-content region.
    ContentNotFound,
    /// No entry of the container's listing names the item with a known kind.
    ResourceNotFound,
    /// The markup could not be converted; the text is the converter's reason.
    ConversionFailed(String),
}

/// What a [`DocError`] says, with its texts as sequences of characters.
pub ghost enum ErrorModel {
    UnknownKind,
    InvalidIdentifier,
    TransportError(Seq<char>),
    HttpStatus(u16),
    ContentNotFound,
    ResourceNotFound,
    ConversionFailed(Seq<char>),
}

impl View for DocError {
    type V = ErrorModel;

    open spec fn view(&self) -> ErrorModel {
        match self {
            DocError::UnknownKind => ErrorModel::UnknownKind,
            DocError::InvalidIdentifier => ErrorModel::InvalidIdentifier,
            DocError::TransportError(text) => ErrorModel::TransportError(text@),
            DocError::HttpStatus(code) => ErrorModel::HttpStatus(*code),
            DocError::ContentNotFound => ErrorModel::ContentNotFound,
            DocError::ResourceNotFound => ErrorModel::ResourceNotFound,
            DocError::ConversionFailed(text) => ErrorModel::ConversionFailed(text@),
        }
    }
}

/// The digit for a value under ten.
pub open spec fn digit(value: nat) -> char {
    (0x30 + value) as char
}

/// A number written in base ten, without sign or leading zero.
pub open spec fn decimal(n: nat) -> Seq<char>
    decreases n,
{
    if n < 10 {
        seq![digit(n)]
    } else {
        decimal(n / 10).push(digit(n % 10))
    }
}

/// A status as `reqwest` writes it, its code and the words it is known by,
/// such as `404 Not Found`; `None` for a code that no status has.
pub uninterp spec fn status_text(code: u16) -> Option<Seq<char>>;

/// Calls `reqwest::StatusCode::from_u16` and writes the status with its
/// `Display`. The contract claims only that the answer depends on the code
/// alone, and gives it its name.
#[verifier::external_body]
pub(crate) fn write_status(code: u16) -> (text: Option<String>)
    ensures
        text.deep_view() == status_text(code),
{
    reqwest::StatusCode::from_u16(code).ok().map(|status| status.to_string())
}

/// A status in a message: as `reqwest` writes it, or the bare number where
/// the code is no status.
pub open spec fn status_spec(code: u16) -> Seq<char> {
    match status_text(code) {
        Some(text) => text,
        None => decimal(code as nat),
    }
}

/// The account of an error that is shown to whoever asked.
pub open spec fn message_spec(error: ErrorModel) -> Seq<char> {
    match error {
        ErrorModel::UnknownKind => "Matching variant not found"@,
        ErrorModel::InvalidIdentifier => "The top level resource is always a module"@,
        ErrorModel::TransportError(text) => text,
        ErrorModel::HttpStatus(code) => "Failed to fetch documentation. Status: "@ + status_spec(
            code,
        ),
        ErrorModel::ContentNotFound => "Could not find main content section"@,
        ErrorModel::ResourceNotFound => "Could not find the resource"@,
        ErrorModel::ConversionFailed(text) => "HTML to Markdown conversion failed: "@ + text,
    }
}

/// Appends `n`, written in base ten, to `out`.
pub fn append_decimal(out: &mut String, n: u16)
    ensures
        final(out)@ == old(out)@ + decimal(n as nat),
    decreases n,
{
    if n >= 10 {
        append_decimal(out, n / 10);
    }
    let last: u8 = (n % 10) as u8;
    out.push((0x30u8 + last) as char);
    proof {
        if n >= 10 {
            assert(old(out)@ + decimal((n / 10) as nat).push(digit((n % 10) as nat)) == (old(
                out,
            )@ + decimal((n / 10) as nat)).push(digit((n % 10) as nat)));
        } else {
            assert(old(out)@ + seq![digit(n as nat)] == old(out)@.push(digit(n as nat)));
        }
    }
}

/// Appends the status with the code `code` to `out`.
pub fn append_status(out: &mut String, code: u16)
    ensures
        final(out)@ == old(out)@ + status_spec(code),
{
    match write_status(code) {
        Some(text) => out.append(text.as_str()),
        None => append_decimal(out, code),
    }
}

impl DocError {
    /// The account of this error that is shown to whoever asked.
    pub fn message(&self) -> (text: String)
        ensures
            text@ == message_spec(self@),
    {
        match self {
            DocError::UnknownKind => "Matching variant not found".to_owned(),
            DocError::InvalidIdentifier => "The top level resource is always a module".to_owned(),
            DocError::TransportError(text) => text.clone(),
            DocError::HttpStatus(code) => {
                let mut text = "Failed to fetch documentation. Status: ".to_owned();
                append_status(&mut text, *code);
                text
            },
            DocError::ContentNotFound => "Could not find main content section".to_owned(),
            DocError::ResourceNotFound => "Could not find the resource".to_owned(),
            DocError::ConversionFailed(cause) => {
                let mut text = "HTML to Markdown conversion failed: ".to_owned();
                text.append(cause.as_str());
                text
            },
        }
    }
}

/// A result as the contracts read it: the value, or what the error says.
pub open spec fn result_model<T>(result: Result<T, DocError>) -> Result<T, ErrorModel> {
    match result {
        Ok(value) => Ok(value),
        Err(error) => Err(error@),
    }
}

/// A result as the contracts read it: the text, or what the error says.
pub open spec fn text_result(result: Result<String, DocError>) -> Result<Seq<char>, ErrorModel> {
    match result {
        Ok(text) => Ok(text@),
        Err(error) => Err(error@),
    }
}

} // verus!
