//! The tool that fetches the latest messages of a channel.

use vstd::prelude::*;
use crate::content::{DiscordErrorKind, ErrorKind};
use crate::dispatch::Number;
use crate::effect::{fails, find_pair, pair_value, DiscordCall, Effect, Outcome, Pair, Step};
use crate::servers::discord::call::{
    calls, end_with_messages, ends_with_messages, id_of, parse_id, DiscordCallView,
};
use crate::servers::discord::errors::McpDiscordError;

verus! {

/// The number of messages that are asked for where no limit is given.
pub const DEFAULT_LIMIT: u8 = 100;

/// The number of messages to ask for: the limit as a whole number, at
/// least 0 and at most 255, and the default where no limit is given.
pub open spec fn message_limit(limit: Option<Number>) -> u8 {
    match limit {
        None => DEFAULT_LIMIT,
        Some(number) => if number.below_zero {
            0
        } else if number.whole > u8::MAX {
            u8::MAX
        } else {
            number.whole as u8
        },
    }
}

/// The number of messages to ask for.
pub fn limit_of(limit: Option<&Number>) -> (most: u8)
    ensures
        most == message_limit(
            match limit {
                Some(number) => Some(*number),
                None => None,
            },
        ),
{
    match limit {
        None => DEFAULT_LIMIT,
        Some(number) => {
            if number.below_zero {
                0
            } else if number.whole > 255 {
                255
            } else {
                number.whole as u8
            }
        },
    }
}

/// What `get_channel_messages_tool` does, given the bot token that the
/// environment holds, if any, and the answers so far.
///
/// Without a token it fails, then for a channel ID that writes no ID.
/// It asks for the messages, and ends as the answer has it.
pub open spec fn get_channel_messages_step(
    step: Step<McpDiscordError>,
    token: Option<Seq<char>>,
    channel_id: Seq<char>,
    limit: Option<Number>,
    replies: Seq<Outcome>,
) -> bool {
    match token {
        None => fails(
            step,
            ErrorKind::Discord(DiscordErrorKind::MissingDiscordToken),
            Seq::empty(),
        ),
        Some(token) => match id_of(channel_id) {
            None => fails(step, ErrorKind::Discord(DiscordErrorKind::InvalidChannelID), channel_id),
            Some(channel) => if replies.len() == 0 {
                calls(
                    step,
                    token,
                    DiscordCallView::GetMessages { channel_id: channel, limit: message_limit(limit) },
                )
            } else {
                ends_with_messages(step, replies[0])
            },
        },
    }
}

/// Fetches at most `limit` messages of the channel `channel_id`: the next
/// thing to ask for, or the result, given the answers so far.
pub fn get_channel_messages_tool(
    env: &Vec<Pair>,
    channel_id: &str,
    limit: Option<&Number>,
    replies: &Vec<Outcome>,
) -> (step: Step<McpDiscordError>)
    ensures
        get_channel_messages_step(
            step,
            pair_value(env@, "DISCORD_TOKEN"@),
            channel_id@,
            match limit {
                Some(number) => Some(*number),
                None => None,
            },
            replies@,
        ),
{
    let token = match find_pair(env, "DISCORD_TOKEN") {
        Some(token) => token,
        None => {
            return Step::Done(Err(McpDiscordError::MissingDiscordToken));
        },
    };
    let channel = match parse_id(channel_id) {
        Some(id) => id,
        None => {
            return Step::Done(
                Err(McpDiscordError::InvalidChannelID(String::from_str(channel_id))),
            );
        },
    };
    if replies.len() == 0 {
        return Step::Perform(
            Effect::Discord {
                token: token.clone(),
                call: DiscordCall::GetMessages { channel_id: channel, limit: limit_of(limit) },
            },
        );
    }
    end_with_messages(&replies[0])
}

} // verus!
