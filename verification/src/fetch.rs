//! Judging what came of a fetch.
//!
//! The request itself is sent by the caller; what it brought, a response or
//! a failure to get one, comes here as a [`Reply`].

use vstd::prelude::*;
use crate::error::{text_result, DocError, ErrorModel};

verus! {

/// What came of one fetch.
#[derive(PartialEq, Eq, Debug)]
pub enum Reply {
    /// The server answered.
    Response { status: u16, body: String },
    /// No answer came; the text is the transport's account of why.
    Unreachable(String),
}

/// What a [`Reply`] holds, with its texts as sequences of characters.
pub ghost enum ReplyModel {
    Response { status: u16, body: Seq<char> },
    Unreachable(Seq<char>),
}

impl View for Reply {
    type V = ReplyModel;

    open spec fn view(&self) -> ReplyModel {
        match self {
            Reply::Response { status, body } => ReplyModel::Response {
                status: *status,
                body: body@,
            },
            Reply::Unreachable(text) => ReplyModel::Unreachable(text@),
        }
    }
}

/// Whether a status code reports success: the codes from 200 to 299.
pub open spec fn is_success(status: u16) -> bool {
    200 <= status < 300
}

/// What a response is worth: its body where the status reports success,
/// `HttpStatus` with the code where it does not.
pub open spec fn response_spec(status: u16, body: Seq<char>) -> Result<Seq<char>, ErrorModel> {
    if is_success(status) {
        Ok(body)
    } else {
        Err(ErrorModel::HttpStatus(status))
    }
}

/// What a reply is worth: what its response is worth, or `TransportError`
/// with the transport's account where no answer came.
pub open spec fn page_spec(reply: ReplyModel) -> Result<Seq<char>, ErrorModel> {
    match reply {
        ReplyModel::Response { status, body } => response_spec(status, body),
        ReplyModel::Unreachable(text) => Err(ErrorModel::TransportError(text)),
    }
}

/// Whether a status code reports success. Only then is the body of the
/// response worth reading.
pub fn reports_success(status: u16) -> (success: bool)
    ensures
        success == is_success(status),
{
    200 <= status && status < 300
}

/// The body of a response that reports success, or `HttpStatus` with the
/// code of one that does not.
pub fn check_response(status: u16, body: String) -> (page: Result<String, DocError>)
    ensures
        text_result(page) == response_spec(status, body@),
{
    if reports_success(status) {
        Ok(body)
    } else {
        Err(DocError::HttpStatus(status))
    }
}

/// The page that a reply brought, or the error that it amounts to.
pub fn page_of(reply: Reply) -> (page: Result<String, DocError>)
    ensures
        text_result(page) == page_spec(reply@),
{
    match reply {
        Reply::Response { status, body } => check_response(status, body),
        Reply::Unreachable(text) => Err(DocError::TransportError(text)),
    }
}

/// A status that reports no success surfaces as that status, and never as
/// a failure of the transport.
pub proof fn lemma_status_surfaces(status: u16, body: Seq<char>)
    requires
        !is_success(status),
    ensures
        page_spec(ReplyModel::Response { status, body }) == Err::<Seq<char>, ErrorModel>(
            ErrorModel::HttpStatus(status),
        ),
        !(page_spec(ReplyModel::Response { status, body }) matches Err(
            ErrorModel::TransportError(_),
        )),
{
}

} // verus!
