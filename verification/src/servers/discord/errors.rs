//! The failures of a Discord tool.

use vstd::prelude::*;
use crate::content::{ErrorKind, NormalizedError, NormalizedErrorView, DiscordErrorKind};
use crate::effect::FailureView;
use crate::text::concat;

verus! {

/// Why a Discord tool failed.
#[derive(Debug, PartialEq)]
pub enum McpDiscordError {
    /// What Discord handed back could not be written as JSON.
    ResponseSerializeError(String),
    /// The content cannot be sent.
    InvalidContent(String),
    /// No webhook could be had for the URL.
    InvalidWebhookURL(String),
    /// The user ID writes no number, or writes zero.
    InvalidUserID(String),
    /// The channel ID writes no number, or writes zero.
    InvalidChannelID(String),
    /// The message ID writes no number, or writes zero.
    InvalidMessageID(String),
    /// Discord turned the call down, or could not be reached.
    DiscordApiError(String),
    /// The role ID writes no number, or writes zero.
    InvalidRoleID(String),
    /// The guild ID writes no number, or writes zero.
    InvalidGuildID(String),
    /// The environment holds no bot token.
    MissingDiscordToken,
}

impl View for McpDiscordError {
    type V = FailureView;

    open spec fn view(&self) -> FailureView {
        match *self {
            McpDiscordError::ResponseSerializeError(detail) => FailureView {
                kind: ErrorKind::Discord(DiscordErrorKind::ResponseSerializeError),
                detail: detail@,
            },
            McpDiscordError::InvalidContent(detail) => FailureView {
                kind: ErrorKind::Discord(DiscordErrorKind::InvalidContent),
                detail: detail@,
            },
            McpDiscordError::InvalidWebhookURL(detail) => FailureView {
                kind: ErrorKind::Discord(DiscordErrorKind::InvalidWebhookURL),
                detail: detail@,
            },
            McpDiscordError::InvalidUserID(detail) => FailureView {
                kind: ErrorKind::Discord(DiscordErrorKind::InvalidUserID),
                detail: detail@,
            },
            McpDiscordError::InvalidChannelID(detail) => FailureView {
                kind: ErrorKind::Discord(DiscordErrorKind::InvalidChannelID),
                detail: detail@,
            },
            McpDiscordError::InvalidMessageID(detail) => FailureView {
                kind: ErrorKind::Discord(DiscordErrorKind::InvalidMessageID),
                detail: detail@,
            },
            McpDiscordError::DiscordApiError(detail) => FailureView {
                kind: ErrorKind::Discord(DiscordErrorKind::DiscordApiError),
                detail: detail@,
            },
            McpDiscordError::InvalidRoleID(detail) => FailureView {
                kind: ErrorKind::Discord(DiscordErrorKind::InvalidRoleID),
                detail: detail@,
            },
            McpDiscordError::InvalidGuildID(detail) => FailureView {
                kind: ErrorKind::Discord(DiscordErrorKind::InvalidGuildID),
                detail: detail@,
            },
            McpDiscordError::MissingDiscordToken => FailureView {
                kind: ErrorKind::Discord(DiscordErrorKind::MissingDiscordToken),
                detail: Seq::empty(),
            },
        }
    }
}

/// The message of a failure of kind `kind` with detail `detail`: the words
/// that belong to the kind, and then the detail, as it is.
pub open spec fn discord_message(kind: DiscordErrorKind, detail: Seq<char>) -> Seq<char> {
    match kind {
        DiscordErrorKind::ResponseSerializeError => "Failed to serialize response: "@ + detail,
        DiscordErrorKind::InvalidContent => "Invalid content: "@ + detail,
        DiscordErrorKind::InvalidWebhookURL => "Invalid WebhookURL: "@ + detail,
        DiscordErrorKind::InvalidUserID => "Invalid UserID: "@ + detail,
        DiscordErrorKind::InvalidChannelID => "Invalid ChannelID: "@ + detail,
        DiscordErrorKind::InvalidMessageID => "Invalid MessageID: "@ + detail,
        DiscordErrorKind::DiscordApiError => "Discord API error: "@ + detail,
        DiscordErrorKind::InvalidRoleID => "Invalid RoleID: "@ + detail,
        DiscordErrorKind::InvalidGuildID => "Invalid GuildID: "@ + detail,
        DiscordErrorKind::MissingDiscordToken => "Missing Discord Token"@ + detail,
    }
}

impl McpDiscordError {
    /// The kind of this failure.
    pub fn kind(&self) -> (kind: DiscordErrorKind)
        ensures
            self@.kind == ErrorKind::Discord(kind),
    {
        match self {
            McpDiscordError::ResponseSerializeError(_) => DiscordErrorKind::ResponseSerializeError,
            McpDiscordError::InvalidContent(_) => DiscordErrorKind::InvalidContent,
            McpDiscordError::InvalidWebhookURL(_) => DiscordErrorKind::InvalidWebhookURL,
            McpDiscordError::InvalidUserID(_) => DiscordErrorKind::InvalidUserID,
            McpDiscordError::InvalidChannelID(_) => DiscordErrorKind::InvalidChannelID,
            McpDiscordError::InvalidMessageID(_) => DiscordErrorKind::InvalidMessageID,
            McpDiscordError::DiscordApiError(_) => DiscordErrorKind::DiscordApiError,
            McpDiscordError::InvalidRoleID(_) => DiscordErrorKind::InvalidRoleID,
            McpDiscordError::InvalidGuildID(_) => DiscordErrorKind::InvalidGuildID,
            McpDiscordError::MissingDiscordToken => DiscordErrorKind::MissingDiscordToken,
        }
    }

    /// The message for people.
    pub fn message(&self) -> (message: String)
        ensures
            self@.kind matches ErrorKind::Discord(kind) && message@ == discord_message(
                kind,
                self@.detail,
            ),
    {
        match self {
            McpDiscordError::ResponseSerializeError(detail) => concat(
                "Failed to serialize response: ",
                detail.as_str(),
            ),
            McpDiscordError::InvalidContent(detail) => concat("Invalid content: ", detail.as_str()),
            McpDiscordError::InvalidWebhookURL(detail) => concat(
                "Invalid WebhookURL: ",
                detail.as_str(),
            ),
            McpDiscordError::InvalidUserID(detail) => concat("Invalid UserID: ", detail.as_str()),
            McpDiscordError::InvalidChannelID(detail) => concat(
                "Invalid ChannelID: ",
                detail.as_str(),
            ),
            McpDiscordError::InvalidMessageID(detail) => concat(
                "Invalid MessageID: ",
                detail.as_str(),
            ),
            McpDiscordError::DiscordApiError(detail) => concat(
                "Discord API error: ",
                detail.as_str(),
            ),
            McpDiscordError::InvalidRoleID(detail) => concat("Invalid RoleID: ", detail.as_str()),
            McpDiscordError::InvalidGuildID(detail) => concat("Invalid GuildID: ", detail.as_str()),
            McpDiscordError::MissingDiscordToken => {
                let message = String::from_str("Missing Discord Token");
                proof {
                    assert(message@ + Seq::<char>::empty() =~= message@);
                }
                message
            },
        }
    }

    /// This failure in the uniform shape: the same kind, and a message that
    /// ends in the detail.
    pub fn normalize(&self) -> (error: NormalizedError)
        ensures
            self@.kind matches ErrorKind::Discord(kind) && error@ == (NormalizedErrorView {
                domain: "discord"@,
                kind: self@.kind,
                message: discord_message(kind, self@.detail),
            }),
    {
        NormalizedError {
            domain: String::from_str("discord"),
            kind: ErrorKind::Discord(self.kind()),
            message: self.message(),
        }
    }
}

} // verus!
