//! The failures of a Replicate tool.

use vstd::prelude::*;
use crate::content::{ErrorKind, NormalizedError, NormalizedErrorView, ReplicateErrorKind};
use crate::effect::FailureView;
use crate::text::concat;

verus! {

/// Why a Replicate tool failed.
#[derive(Debug, PartialEq)]
pub enum McpReplicateError {
    /// The request could not be sent, or its response could not be read.
    HttpError(String),
    /// The environment holds no API token.
    MissingToken,
    /// Replicate answered with a status that is no success.
    ContentParseError(String),
    /// The response lacks what the tool looks for.
    InvalidResponse(String),
    /// The API token cannot stand in a header.
    InvalidHeaderValue,
}

impl View for McpReplicateError {
    type V = FailureView;

    open spec fn view(&self) -> FailureView {
        match *self {
            McpReplicateError::HttpError(detail) => FailureView {
                kind: ErrorKind::Replicate(ReplicateErrorKind::HttpError),
                detail: detail@,
            },
            McpReplicateError::MissingToken => FailureView {
                kind: ErrorKind::Replicate(ReplicateErrorKind::MissingToken),
                detail: Seq::empty(),
            },
            McpReplicateError::ContentParseError(detail) => FailureView {
                kind: ErrorKind::Replicate(ReplicateErrorKind::ContentParseError),
                detail: detail@,
            },
            McpReplicateError::InvalidResponse(detail) => FailureView {
                kind: ErrorKind::Replicate(ReplicateErrorKind::InvalidResponse),
                detail: detail@,
            },
            McpReplicateError::InvalidHeaderValue => FailureView {
                kind: ErrorKind::Replicate(ReplicateErrorKind::InvalidHeaderValue),
                detail: Seq::empty(),
            },
        }
    }
}

/// The message of a failure of kind `kind` with detail `detail`: the words
/// that belong to the kind, and then the detail, as it is.
pub open spec fn replicate_message(kind: ReplicateErrorKind, detail: Seq<char>) -> Seq<char> {
    match kind {
        ReplicateErrorKind::HttpError => "HTTP request error: "@ + detail,
        ReplicateErrorKind::MissingToken => "Missing token"@ + detail,
        ReplicateErrorKind::ContentParseError => "Failed to parse Content: "@ + detail,
        ReplicateErrorKind::InvalidResponse => "Invalid response: "@ + detail,
        ReplicateErrorKind::InvalidHeaderValue => "failed to parse header value"@ + detail,
    }
}

impl McpReplicateError {
    /// The kind of this failure.
    pub fn kind(&self) -> (kind: ReplicateErrorKind)
        ensures
            self@.kind == ErrorKind::Replicate(kind),
    {
        match self {
            McpReplicateError::HttpError(_) => ReplicateErrorKind::HttpError,
            McpReplicateError::MissingToken => ReplicateErrorKind::MissingToken,
            McpReplicateError::ContentParseError(_) => ReplicateErrorKind::ContentParseError,
            McpReplicateError::InvalidResponse(_) => ReplicateErrorKind::InvalidResponse,
            McpReplicateError::InvalidHeaderValue => ReplicateErrorKind::InvalidHeaderValue,
        }
    }

    /// The message for people.
    pub fn message(&self) -> (message: String)
        ensures
            self@.kind matches ErrorKind::Replicate(kind) && message@ == replicate_message(
                kind,
                self@.detail,
            ),
    {
        match self {
            McpReplicateError::HttpError(detail) => concat("HTTP request error: ", detail.as_str()),
            McpReplicateError::MissingToken => {
                let message = String::from_str("Missing token");
                proof {
                    assert(message@ + Seq::<char>::empty() =~= message@);
                }
                message
            },
            McpReplicateError::ContentParseError(detail) => concat(
                "Failed to parse Content: ",
                detail.as_str(),
            ),
            McpReplicateError::InvalidResponse(detail) => concat(
                "Invalid response: ",
                detail.as_str(),
            ),
            McpReplicateError::InvalidHeaderValue => {
                let message = String::from_str("failed to parse header value");
                proof {
                    assert(message@ + Seq::<char>::empty() =~= message@);
                }
                message
            },
        }
    }

    /// This failure in the uniform shape: the same kind, and a message that
    /// ends in the detail.
    pub fn normalize(&self) -> (error: NormalizedError)
        ensures
            self@.kind matches ErrorKind::Replicate(kind) && error@ == (NormalizedErrorView {
                domain: "replicate"@,
                kind: self@.kind,
                message: replicate_message(kind, self@.detail),
            }),
    {
        NormalizedError {
            domain: String::from_str("replicate"),
            kind: ErrorKind::Replicate(self.kind()),
            message: self.message(),
        }
    }
}

} // verus!
