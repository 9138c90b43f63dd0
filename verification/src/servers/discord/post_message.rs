//! The tool that posts a message to a channel.

use vstd::prelude::*;
use crate::content::{DiscordErrorKind, ErrorKind};
use crate::effect::{fails, find_pair, pair_value, DiscordCall, Effect, Outcome, Pair, Step};
use crate::servers::discord::call::{
    calls, end_with_messages, ends_with_messages, id_of, parse_id, DiscordCallView,
};
use crate::servers::discord::errors::McpDiscordError;

verus! {

/// What `post_message_tool` does, given the bot token that the
/// environment holds, if any, and the answers so far.
///
/// Without a token it fails, then for a channel ID that writes no ID.
/// It asks for the message to be posted, and ends as the answer has it.
pub open spec fn post_message_step(
    step: Step<McpDiscordError>,
    token: Option<Seq<char>>,
    discord_channel_id: Seq<char>,
    content: Seq<char>,
    replies: Seq<Outcome>,
) -> bool {
    match token {
        None => fails(
            step,
            ErrorKind::Discord(DiscordErrorKind::MissingDiscordToken),
            Seq::empty(),
        ),
        Some(token) => match id_of(discord_channel_id) {
            None => fails(
                step,
                ErrorKind::Discord(DiscordErrorKind::InvalidChannelID),
                discord_channel_id,
            ),
            Some(channel_id) => if replies.len() == 0 {
                calls(step, token, DiscordCallView::Say { channel_id, content })
            } else {
                ends_with_messages(step, replies[0])
            },
        },
    }
}

/// Posts `content` to the channel `discord_channel_id`: the next thing to
/// ask for, or the result, given the answers so far.
pub fn post_message_tool(
    env: &Vec<Pair>,
    discord_channel_id: &str,
    content: &str,
    replies: &Vec<Outcome>,
) -> (step: Step<McpDiscordError>)
    ensures
        post_message_step(
            step,
            pair_value(env@, "DISCORD_TOKEN"@),
            discord_channel_id@,
            content@,
            replies@,
        ),
{
    let token = match find_pair(env, "DISCORD_TOKEN") {
        Some(token) => token,
        None => {
            return Step::Done(Err(McpDiscordError::MissingDiscordToken));
        },
    };
    let channel_id = match parse_id(discord_channel_id) {
        Some(id) => id,
        None => {
            return Step::Done(
                Err(McpDiscordError::InvalidChannelID(String::from_str(discord_channel_id))),
            );
        },
    };
    if replies.len() == 0 {
        return Step::Perform(
            Effect::Discord {
                token: token.clone(),
                call: DiscordCall::Say { channel_id, content: String::from_str(content) },
            },
        );
    }
    end_with_messages(&replies[0])
}

} // verus!
