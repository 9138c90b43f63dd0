//! The failures of an arXiv tool.

use vstd::prelude::*;
use crate::content::{ErrorKind, NormalizedError, NormalizedErrorView, ArxivErrorKind};
use crate::effect::FailureView;
use crate::text::concat;

verus! {

/// Why an arXiv tool failed.
#[derive(Debug, PartialEq)]
pub enum McpArxivError {
    /// The request could not be sent, or its response could not be read.
    HttpError(String),
    /// arXiv answered with a status that is no success.
    ApiError(String),
}

impl View for McpArxivError {
    type V = FailureView;

    open spec fn view(&self) -> FailureView {
        match *self {
            McpArxivError::HttpError(detail) => FailureView {
                kind: ErrorKind::Arxiv(ArxivErrorKind::HttpError),
                detail: detail@,
            },
            McpArxivError::ApiError(detail) => FailureView {
                kind: ErrorKind::Arxiv(ArxivErrorKind::ApiError),
                detail: detail@,
            },
        }
    }
}

/// The message of a failure of kind `kind` with detail `detail`: the words
/// that belong to the kind, and then the detail, as it is.
pub open spec fn arxiv_message(kind: ArxivErrorKind, detail: Seq<char>) -> Seq<char> {
    match kind {
        ArxivErrorKind::HttpError => "HTTP request error: "@ + detail,
        ArxivErrorKind::ApiError => "API error: "@ + detail,
    }
}

impl McpArxivError {
    /// The kind of this failure.
    pub fn kind(&self) -> (kind: ArxivErrorKind)
        ensures
            self@.kind == ErrorKind::Arxiv(kind),
    {
        match self {
            McpArxivError::HttpError(_) => ArxivErrorKind::HttpError,
            McpArxivError::ApiError(_) => ArxivErrorKind::ApiError,
        }
    }

    /// The message for people.
    pub fn message(&self) -> (message: String)
        ensures
            self@.kind matches ErrorKind::Arxiv(kind) && message@ == arxiv_message(
                kind,
                self@.detail,
            ),
    {
        match self {
            McpArxivError::HttpError(detail) => concat("HTTP request error: ", detail.as_str()),
            McpArxivError::ApiError(detail) => concat("API error: ", detail.as_str()),
        }
    }

    /// This failure in the uniform shape: the same kind, and a message that
    /// ends in the detail.
    pub fn normalize(&self) -> (error: NormalizedError)
        ensures
            self@.kind matches ErrorKind::Arxiv(kind) && error@ == (NormalizedErrorView {
                domain: "arxiv"@,
                kind: self@.kind,
                message: arxiv_message(kind, self@.detail),
            }),
    {
        NormalizedError {
            domain: String::from_str("arxiv"),
            kind: ErrorKind::Arxiv(self.kind()),
            message: self.message(),
        }
    }
}

} // verus!
