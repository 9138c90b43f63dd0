//! What the Discord tools have in common: the token that they read from
//! the environment, the IDs that they read from their arguments, and how
//! they read the answer to a call.

use vstd::prelude::*;
use crate::content::{ContentEnvelope, DiscordErrorKind, ErrorKind, ToolResponseContent};
use crate::effect::{
    fails, failure_text, yields_text, DiscordCall, Effect, Outcome, Step,
};
use crate::servers::discord::errors::McpDiscordError;
use crate::text::{bounded_value, parse_unsigned};

verus! {

/// The mathematical value of a call into the Discord API.
pub enum DiscordCallView {
    CreateReaction { channel_id: u64, message_id: u64, emoji: Seq<char> },
    GetMember { guild_id: u64, user_id: u64 },
    AddRole { guild_id: u64, user_id: u64, role_id: u64 },
    GetMessages { channel_id: u64, limit: u8 },
    CreateDmChannel { user_id: u64 },
    Say { channel_id: u64, content: Seq<char> },
    ResolveWebhook { url: Seq<char> },
    ExecuteWebhook { url: Seq<char>, content: Seq<char> },
}

impl View for DiscordCall {
    type V = DiscordCallView;

    open spec fn view(&self) -> DiscordCallView {
        match *self {
            DiscordCall::CreateReaction {
                channel_id,
                message_id,
                emoji,
            } => DiscordCallView::CreateReaction { channel_id, message_id, emoji: emoji@ },
            DiscordCall::GetMember { guild_id, user_id } => DiscordCallView::GetMember {
                guild_id,
                user_id,
            },
            DiscordCall::AddRole { guild_id, user_id, role_id } => DiscordCallView::AddRole {
                guild_id,
                user_id,
                role_id,
            },
            DiscordCall::GetMessages { channel_id, limit } => DiscordCallView::GetMessages {
                channel_id,
                limit,
            },
            DiscordCall::CreateDmChannel { user_id } => DiscordCallView::CreateDmChannel { user_id },
            DiscordCall::Say { channel_id, content } => DiscordCallView::Say {
                channel_id,
                content: content@,
            },
            DiscordCall::ResolveWebhook { url } => DiscordCallView::ResolveWebhook { url: url@ },
            DiscordCall::ExecuteWebhook { url, content } => DiscordCallView::ExecuteWebhook {
                url: url@,
                content: content@,
            },
        }
    }
}

/// The step asks for `call`, made as the bot that `token` belongs to.
pub open spec fn calls(step: Step<McpDiscordError>, token: Seq<char>, call: DiscordCallView) -> bool {
    step matches Step::Perform(Effect::Discord { token: used, call: made }) && used@ == token
        && made@ == call
}

/// The ID that `text` writes: a whole number from 1 to `u64::MAX`, in
/// decimal digits. Zero is no ID.
pub open spec fn id_of(text: Seq<char>) -> Option<u64> {
    match bounded_value(text, u64::MAX as nat) {
        Some(id) => if id == 0 {
            None
        } else {
            Some(id as u64)
        },
        None => None,
    }
}

/// Reads the ID that `text` writes.
pub fn parse_id(text: &str) -> (id: Option<u64>)
    ensures
        id == id_of(text@),
        id matches Some(n) ==> n != 0,
{
    match parse_unsigned(text, u64::MAX) {
        Some(id) => {
            if id == 0 {
                None
            } else {
                Some(id)
            }
        },
        None => None,
    }
}

/// Whether no ID that `call` names is zero.
pub open spec fn names_no_zero(call: DiscordCallView) -> bool {
    match call {
        DiscordCallView::CreateReaction { channel_id, message_id, emoji } => channel_id != 0
            && message_id != 0,
        DiscordCallView::GetMember { guild_id, user_id } => guild_id != 0 && user_id != 0,
        DiscordCallView::AddRole { guild_id, user_id, role_id } => guild_id != 0 && user_id != 0
            && role_id != 0,
        DiscordCallView::GetMessages { channel_id, limit } => channel_id != 0,
        DiscordCallView::CreateDmChannel { user_id } => user_id != 0,
        DiscordCallView::Say { channel_id, content } => channel_id != 0,
        DiscordCallView::ResolveWebhook { url } => true,
        DiscordCallView::ExecuteWebhook { url, content } => true,
    }
}

/// The step ends the tool as the answer `reply` to a call that posts or
/// fetches messages has it: with the messages as JSON text, with
/// `ResponseSerializeError` where they could not be written as JSON, and
/// with `DiscordApiError` where the call failed.
pub open spec fn ends_with_messages(step: Step<McpDiscordError>, reply: Outcome) -> bool {
    match reply {
        Outcome::Text(text) => yields_text(step, text@),
        Outcome::Malformed(message) => fails(
            step,
            ErrorKind::Discord(DiscordErrorKind::ResponseSerializeError),
            message@,
        ),
        other => fails(
            step,
            ErrorKind::Discord(DiscordErrorKind::DiscordApiError),
            failure_text(other),
        ),
    }
}

/// Ends a tool as the answer `reply` to a call that posts or fetches
/// messages has it.
pub fn end_with_messages(reply: &Outcome) -> (step: Step<McpDiscordError>)
    ensures
        ends_with_messages(step, *reply),
{
    match reply {
        Outcome::Text(text) => Step::Done(
            Ok(ContentEnvelope::single(ToolResponseContent::text(text.clone()))),
        ),
        Outcome::Malformed(message) => Step::Done(
            Err(McpDiscordError::ResponseSerializeError(message.clone())),
        ),
        other => Step::Done(Err(McpDiscordError::DiscordApiError(other.failure()))),
    }
}

/// The step ends the tool with `DiscordApiError` and the message of
/// `outcome`.
pub open spec fn fails_on(step: Step<McpDiscordError>, outcome: Outcome) -> bool {
    fails(step, ErrorKind::Discord(DiscordErrorKind::DiscordApiError), failure_text(outcome))
}

} // verus!
