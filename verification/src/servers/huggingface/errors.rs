//! The failures of a HuggingFace tool.

use vstd::prelude::*;
use crate::content::{ErrorKind, NormalizedError, NormalizedErrorView, HuggingFaceErrorKind};
use crate::effect::FailureView;
use crate::text::concat;

verus! {

/// Why a HuggingFace tool failed.
#[derive(Debug, PartialEq)]
pub enum McpHuggingFaceError {
    /// The request could not be sent, or its response could not be read.
    HttpError(String),
    /// The environment holds no API token.
    MissingToken,
    /// JSON could not be written or read.
    JsonParseError(String),
    /// HuggingFace turned the request down.
    ApiError(String),
}

impl View for McpHuggingFaceError {
    type V = FailureView;

    open spec fn view(&self) -> FailureView {
        match *self {
            McpHuggingFaceError::HttpError(detail) => FailureView {
                kind: ErrorKind::HuggingFace(HuggingFaceErrorKind::HttpError),
                detail: detail@,
            },
            McpHuggingFaceError::MissingToken => FailureView {
                kind: ErrorKind::HuggingFace(HuggingFaceErrorKind::MissingToken),
                detail: Seq::empty(),
            },
            McpHuggingFaceError::JsonParseError(detail) => FailureView {
                kind: ErrorKind::HuggingFace(HuggingFaceErrorKind::JsonParseError),
                detail: detail@,
            },
            McpHuggingFaceError::ApiError(detail) => FailureView {
                kind: ErrorKind::HuggingFace(HuggingFaceErrorKind::ApiError),
                detail: detail@,
            },
        }
    }
}

/// The message of a failure of kind `kind` with detail `detail`: the words
/// that belong to the kind, and then the detail, as it is.
pub open spec fn huggingface_message(kind: HuggingFaceErrorKind, detail: Seq<char>) -> Seq<char> {
    match kind {
        HuggingFaceErrorKind::HttpError => "HTTP request error: "@ + detail,
        HuggingFaceErrorKind::MissingToken => "Missing token"@ + detail,
        HuggingFaceErrorKind::JsonParseError => "Failed to parse JSON: "@ + detail,
        HuggingFaceErrorKind::ApiError => "API error: "@ + detail,
    }
}

impl McpHuggingFaceError {
    /// The kind of this failure.
    pub fn kind(&self) -> (kind: HuggingFaceErrorKind)
        ensures
            self@.kind == ErrorKind::HuggingFace(kind),
    {
        match self {
            McpHuggingFaceError::HttpError(_) => HuggingFaceErrorKind::HttpError,
            McpHuggingFaceError::MissingToken => HuggingFaceErrorKind::MissingToken,
            McpHuggingFaceError::JsonParseError(_) => HuggingFaceErrorKind::JsonParseError,
            McpHuggingFaceError::ApiError(_) => HuggingFaceErrorKind::ApiError,
        }
    }

    /// The message for people.
    pub fn message(&self) -> (message: String)
        ensures
            self@.kind matches ErrorKind::HuggingFace(kind) && message@ == huggingface_message(
                kind,
                self@.detail,
            ),
    {
        match self {
            McpHuggingFaceError::HttpError(detail) => concat(
                "HTTP request error: ",
                detail.as_str(),
            ),
            McpHuggingFaceError::MissingToken => {
                let message = String::from_str("Missing token");
                proof {
                    assert(message@ + Seq::<char>::empty() =~= message@);
                }
                message
            },
            McpHuggingFaceError::JsonParseError(detail) => concat(
                "Failed to parse JSON: ",
                detail.as_str(),
            ),
            McpHuggingFaceError::ApiError(detail) => concat("API error: ", detail.as_str()),
        }
    }

    /// This failure in the uniform shape: the same kind, and a message that
    /// ends in the detail.
    pub fn normalize(&self) -> (error: NormalizedError)
        ensures
            self@.kind matches ErrorKind::HuggingFace(kind) && error@ == (NormalizedErrorView {
                domain: "huggingface"@,
                kind: self@.kind,
                message: huggingface_message(kind, self@.detail),
            }),
    {
        NormalizedError {
            domain: String::from_str("huggingface"),
            kind: ErrorKind::HuggingFace(self.kind()),
            message: self.message(),
        }
    }
}

} // verus!
