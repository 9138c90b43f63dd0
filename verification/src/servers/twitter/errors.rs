//! The failures of a Twitter tool.

use vstd::prelude::*;
use crate::content::{ErrorKind, NormalizedError, NormalizedErrorView, TwitterErrorKind};
use crate::effect::FailureView;
use crate::text::concat;

verus! {

/// Why a Twitter tool failed.
#[derive(Debug, PartialEq)]
pub enum McpTwitterError {
    /// What Twitter handed back could not be written as JSON.
    ResponseSerializeError(String),
    /// The environment holds no API key.
    MissingTwitterApiKey,
    /// The environment holds no API secret.
    MissingTwitterApiSecret,
    /// The environment holds no access token.
    MissingTwitterAccessToken,
    /// The environment holds no access token secret.
    MissingTwitterAccessTokenSecret,
    /// Twitter turned the call down, or could not be reached.
    TwitterApiError(String),
    /// The latest ID is zero. The detail is the number as it was given.
    InvalidLatestID(String),
    /// The count is below zero. The detail is the number as it was given.
    InvalidCount(String),
    /// An argument cannot be used.
    InvalidInput(String),
    /// Twitter handed back no tweet.
    TweetNotFound,
    /// Twitter handed back no tweets.
    TweetsNotFound,
    /// The ID of the tweet to reply to is zero. The detail is the number as it was given.
    InvalidReplyID(String),
    /// The query cannot be used.
    InvalidQuery(String),
    /// The sort order is none that Twitter knows.
    InvalidSortOrder(String),
    /// Twitter handed back no user.
    UserNotFound,
}

impl View for McpTwitterError {
    type V = FailureView;

    open spec fn view(&self) -> FailureView {
        match *self {
            McpTwitterError::ResponseSerializeError(detail) => FailureView {
                kind: ErrorKind::Twitter(TwitterErrorKind::ResponseSerializeError),
                detail: detail@,
            },
            McpTwitterError::MissingTwitterApiKey => FailureView {
                kind: ErrorKind::Twitter(TwitterErrorKind::MissingTwitterApiKey),
                detail: Seq::empty(),
            },
            McpTwitterError::MissingTwitterApiSecret => FailureView {
                kind: ErrorKind::Twitter(TwitterErrorKind::MissingTwitterApiSecret),
                detail: Seq::empty(),
            },
            McpTwitterError::MissingTwitterAccessToken => FailureView {
                kind: ErrorKind::Twitter(TwitterErrorKind::MissingTwitterAccessToken),
                detail: Seq::empty(),
            },
            McpTwitterError::MissingTwitterAccessTokenSecret => FailureView {
                kind: ErrorKind::Twitter(TwitterErrorKind::MissingTwitterAccessTokenSecret),
                detail: Seq::empty(),
            },
            McpTwitterError::TwitterApiError(detail) => FailureView {
                kind: ErrorKind::Twitter(TwitterErrorKind::TwitterApiError),
                detail: detail@,
            },
            McpTwitterError::InvalidLatestID(detail) => FailureView {
                kind: ErrorKind::Twitter(TwitterErrorKind::InvalidLatestID),
                detail: detail@,
            },
            McpTwitterError::InvalidCount(detail) => FailureView {
                kind: ErrorKind::Twitter(TwitterErrorKind::InvalidCount),
                detail: detail@,
            },
            McpTwitterError::InvalidInput(detail) => FailureView {
                kind: ErrorKind::Twitter(TwitterErrorKind::InvalidInput),
                detail: detail@,
            },
            McpTwitterError::TweetNotFound => FailureView {
                kind: ErrorKind::Twitter(TwitterErrorKind::TweetNotFound),
                detail: Seq::empty(),
            },
            McpTwitterError::TweetsNotFound => FailureView {
                kind: ErrorKind::Twitter(TwitterErrorKind::TweetsNotFound),
                detail: Seq::empty(),
            },
            McpTwitterError::InvalidReplyID(detail) => FailureView {
                kind: ErrorKind::Twitter(TwitterErrorKind::InvalidReplyID),
                detail: detail@,
            },
            McpTwitterError::InvalidQuery(detail) => FailureView {
                kind: ErrorKind::Twitter(TwitterErrorKind::InvalidQuery),
                detail: detail@,
            },
            McpTwitterError::InvalidSortOrder(detail) => FailureView {
                kind: ErrorKind::Twitter(TwitterErrorKind::InvalidSortOrder),
                detail: detail@,
            },
            McpTwitterError::UserNotFound => FailureView {
                kind: ErrorKind::Twitter(TwitterErrorKind::UserNotFound),
                detail: Seq::empty(),
            },
        }
    }
}

/// The message of a failure of kind `kind` with detail `detail`: the words
/// that belong to the kind, and then the detail, as it is.
pub open spec fn twitter_message(kind: TwitterErrorKind, detail: Seq<char>) -> Seq<char> {
    match kind {
        TwitterErrorKind::ResponseSerializeError => "Failed to serialize response: "@ + detail,
        TwitterErrorKind::MissingTwitterApiKey => "Missing Twitter API Key"@ + detail,
        TwitterErrorKind::MissingTwitterApiSecret => "Missing Twitter API Secret"@ + detail,
        TwitterErrorKind::MissingTwitterAccessToken => "Missing Twitter Access Token"@ + detail,
        TwitterErrorKind::MissingTwitterAccessTokenSecret =>
            "Missing Twitter Access Token Secret"@ + detail,
        TwitterErrorKind::TwitterApiError => "Twitter API error: "@ + detail,
        TwitterErrorKind::InvalidLatestID => "Invalid latest id: "@ + detail,
        TwitterErrorKind::InvalidCount => "Invalid count: "@ + detail,
        TwitterErrorKind::InvalidInput => "Invalid input: "@ + detail,
        TwitterErrorKind::TweetNotFound => "Tweet not found"@ + detail,
        TwitterErrorKind::TweetsNotFound => "Tweets not found"@ + detail,
        TwitterErrorKind::InvalidReplyID => "Invalid reply id: "@ + detail,
        TwitterErrorKind::InvalidQuery => "Invalid query: "@ + detail,
        TwitterErrorKind::InvalidSortOrder => "Invalid sort order: "@ + detail,
        TwitterErrorKind::UserNotFound => "User not found"@ + detail,
    }
}

impl McpTwitterError {
    /// The kind of this failure.
    pub fn kind(&self) -> (kind: TwitterErrorKind)
        ensures
            self@.kind == ErrorKind::Twitter(kind),
    {
        match self {
            McpTwitterError::ResponseSerializeError(_) => TwitterErrorKind::ResponseSerializeError,
            McpTwitterError::MissingTwitterApiKey => TwitterErrorKind::MissingTwitterApiKey,
            McpTwitterError::MissingTwitterApiSecret => TwitterErrorKind::MissingTwitterApiSecret,
            McpTwitterError::MissingTwitterAccessToken =>
                TwitterErrorKind::MissingTwitterAccessToken,
            McpTwitterError::MissingTwitterAccessTokenSecret =>
                TwitterErrorKind::MissingTwitterAccessTokenSecret,
            McpTwitterError::TwitterApiError(_) => TwitterErrorKind::TwitterApiError,
            McpTwitterError::InvalidLatestID(_) => TwitterErrorKind::InvalidLatestID,
            McpTwitterError::InvalidCount(_) => TwitterErrorKind::InvalidCount,
            McpTwitterError::InvalidInput(_) => TwitterErrorKind::InvalidInput,
            McpTwitterError::TweetNotFound => TwitterErrorKind::TweetNotFound,
            McpTwitterError::TweetsNotFound => TwitterErrorKind::TweetsNotFound,
            McpTwitterError::InvalidReplyID(_) => TwitterErrorKind::InvalidReplyID,
            McpTwitterError::InvalidQuery(_) => TwitterErrorKind::InvalidQuery,
            McpTwitterError::InvalidSortOrder(_) => TwitterErrorKind::InvalidSortOrder,
            McpTwitterError::UserNotFound => TwitterErrorKind::UserNotFound,
        }
    }

    /// The message for people.
    pub fn message(&self) -> (message: String)
        ensures
            self@.kind matches ErrorKind::Twitter(kind) && message@ == twitter_message(
                kind,
                self@.detail,
            ),
    {
        match self {
            McpTwitterError::ResponseSerializeError(detail) => concat(
                "Failed to serialize response: ",
                detail.as_str(),
            ),
            McpTwitterError::MissingTwitterApiKey => {
                let message = String::from_str("Missing Twitter API Key");
                proof {
                    assert(message@ + Seq::<char>::empty() =~= message@);
                }
                message
            },
            McpTwitterError::MissingTwitterApiSecret => {
                let message = String::from_str("Missing Twitter API Secret");
                proof {
                    assert(message@ + Seq::<char>::empty() =~= message@);
                }
                message
            },
            McpTwitterError::MissingTwitterAccessToken => {
                let message = String::from_str("Missing Twitter Access Token");
                proof {
                    assert(message@ + Seq::<char>::empty() =~= message@);
                }
                message
            },
            McpTwitterError::MissingTwitterAccessTokenSecret => {
                let message = String::from_str("Missing Twitter Access Token Secret");
                proof {
                    assert(message@ + Seq::<char>::empty() =~= message@);
                }
                message
            },
            McpTwitterError::TwitterApiError(detail) => concat(
                "Twitter API error: ",
                detail.as_str(),
            ),
            McpTwitterError::InvalidLatestID(detail) => concat(
                "Invalid latest id: ",
                detail.as_str(),
            ),
            McpTwitterError::InvalidCount(detail) => concat("Invalid count: ", detail.as_str()),
            McpTwitterError::InvalidInput(detail) => concat("Invalid input: ", detail.as_str()),
            McpTwitterError::TweetNotFound => {
                let message = String::from_str("Tweet not found");
                proof {
                    assert(message@ + Seq::<char>::empty() =~= message@);
                }
                message
            },
            McpTwitterError::TweetsNotFound => {
                let message = String::from_str("Tweets not found");
                proof {
                    assert(message@ + Seq::<char>::empty() =~= message@);
                }
                message
            },
            McpTwitterError::InvalidReplyID(detail) => concat(
                "Invalid reply id: ",
                detail.as_str(),
            ),
            McpTwitterError::InvalidQuery(detail) => concat("Invalid query: ", detail.as_str()),
            McpTwitterError::InvalidSortOrder(detail) => concat(
                "Invalid sort order: ",
                detail.as_str(),
            ),
            McpTwitterError::UserNotFound => {
                let message = String::from_str("User not found");
                proof {
                    assert(message@ + Seq::<char>::empty() =~= message@);
                }
                message
            },
        }
    }

    /// This failure in the uniform shape: the same kind, and a message that
    /// ends in the detail.
    pub fn normalize(&self) -> (error: NormalizedError)
        ensures
            self@.kind matches ErrorKind::Twitter(kind) && error@ == (NormalizedErrorView {
                domain: "twitter"@,
                kind: self@.kind,
                message: twitter_message(kind, self@.detail),
            }),
    {
        NormalizedError {
            domain: String::from_str("twitter"),
            kind: ErrorKind::Twitter(self.kind()),
            message: self.message(),
        }
    }
}

} // verus!
