//! What came back from the one attempt to send a request, and what it means.

use crate::error::{TransportError, TransportErrorView};
use crate::model::{clone_optional_text, optional_text};
use vstd::prelude::*;

verus! {

/// The outcome of one HTTP POST, as the sender observed it.
#[derive(Debug, PartialEq, Eq)]
pub enum HttpReply {
    /// The server answered. `body` is `None` where its bytes are not text.
    Response { status: u16, body: Option<String> },
    /// No answer: the failure lies below HTTP (name lookup, connection, TLS).
    Failure { cause: String },
}

/// The mathematical value of an [`HttpReply`].
pub enum HttpReplyView {
    Response { status: u16, body: Option<Seq<char>> },
    Failure { cause: Seq<char> },
}

impl View for HttpReply {
    type V = HttpReplyView;

    open spec fn view(&self) -> HttpReplyView {
        match self {
            HttpReply::Response { status, body } => HttpReplyView::Response {
                status: *status,
                body: optional_text(*body),
            },
            HttpReply::Failure { cause } => HttpReplyView::Failure { cause: cause@ },
        }
    }
}

impl Clone for HttpReply {
    fn clone(&self) -> (copy: HttpReply)
        ensures
            copy@ == self@,
    {
        match self {
            HttpReply::Response { status, body } => HttpReply::Response {
                status: *status,
                body: clone_optional_text(body),
            },
            HttpReply::Failure { cause } => HttpReply::Failure { cause: cause.clone() },
        }
    }
}

/// Whether a status code reports success.
pub open spec fn is_success(status: u16) -> bool {
    200 <= status <= 299
}

/// A body as text; a fixed placeholder stands for one that is not text.
pub open spec fn body_text(body: Option<Seq<char>>) -> Seq<char> {
    match body {
        Some(text) => text,
        None => "(non-UTF-8 response)"@,
    }
}

/// The body of a successful reply, or the error that a reply amounts to.
pub open spec fn classified(reply: HttpReplyView) -> Result<Seq<char>, TransportErrorView> {
    match reply {
        HttpReplyView::Response { status, body } => if is_success(status) {
            Ok(body_text(body))
        } else {
            Err(TransportErrorView::Status { code: status, body: body_text(body) })
        },
        HttpReplyView::Failure { cause } => Err(TransportErrorView::Connection { cause }),
    }
}

/// The value of a classification's outcome.
pub open spec fn body_outcome(outcome: Result<String, TransportError>) -> Result<
    Seq<char>,
    TransportErrorView,
> {
    match outcome {
        Ok(text) => Ok(text@),
        Err(e) => Err(e@),
    }
}

/// Sorts a reply into the body of a success, a status error or a connection
/// error.
pub fn classify(reply: HttpReply) -> (outcome: Result<String, TransportError>)
    ensures
        body_outcome(outcome) == classified(reply@),
{
    match reply {
        HttpReply::Response { status, body } => {
            let text = match body {
                Some(text) => text,
                None => "(non-UTF-8 response)".to_owned(),
            };
            if 200 <= status && status <= 299 {
                Ok(text)
            } else {
                Err(TransportError::Status { code: status, body: text })
            }
        },
        HttpReply::Failure { cause } => Err(TransportError::Connection { cause }),
    }
}

} // verus!
