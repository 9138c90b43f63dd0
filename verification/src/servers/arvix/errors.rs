//! The failures of an arXiv paper tool.

use vstd::prelude::*;
use crate::content::{ErrorKind, NormalizedError, NormalizedErrorView, ArxivErrorKind};
use crate::effect::FailureView;
use crate::servers::arxiv::errors::arxiv_message;
use crate::text::concat;

verus! {

/// Why an arXiv paper tool failed.
#[derive(Debug, PartialEq)]
pub enum McpArvixError {
    /// The request could not be sent, or its response could not be read.
    HttpError(String),
    /// arXiv, the file system or the PDF reader turned the request down.
    ApiError(String),
}

impl View for McpArvixError {
    type V = FailureView;

    open spec fn view(&self) -> FailureView {
        match *self {
            McpArvixError::HttpError(detail) => FailureView {
                kind: ErrorKind::Arxiv(ArxivErrorKind::HttpError),
                detail: detail@,
            },
            McpArvixError::ApiError(detail) => FailureView {
                kind: ErrorKind::Arxiv(ArxivErrorKind::ApiError),
                detail: detail@,
            },
        }
    }
}

impl McpArvixError {
    /// The kind of this failure.
    pub fn kind(&self) -> (kind: ArxivErrorKind)
        ensures
            self@.kind == ErrorKind::Arxiv(kind),
    {
        match self {
            McpArvixError::HttpError(_) => ArxivErrorKind::HttpError,
            McpArvixError::ApiError(_) => ArxivErrorKind::ApiError,
        }
    }

    /// The message for people.
    pub fn message(&self) -> (message: String)
        ensures
            self@.kind matches ErrorKind::Arxiv(kind) && message@ == arxiv_message(
                kind,
                self@.detail,
            ),
    {
        match self {
            McpArvixError::HttpError(detail) => concat("HTTP request error: ", detail.as_str()),
            McpArvixError::ApiError(detail) => concat("API error: ", detail.as_str()),
        }
    }

    /// This failure in the uniform shape: the same kind, and a message that
    /// ends in the detail.
    pub fn normalize(&self) -> (error: NormalizedError)
        ensures
            self@.kind matches ErrorKind::Arxiv(kind) && error@ == (NormalizedErrorView {
                domain: "arxiv"@,
                kind: self@.kind,
                message: arxiv_message(kind, self@.detail),
            }),
    {
        NormalizedError {
            domain: String::from_str("arxiv"),
            kind: ErrorKind::Arxiv(self.kind()),
            message: self.message(),
        }
    }
}

} // verus!
