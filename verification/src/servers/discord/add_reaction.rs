//! The tool that reacts to a message.

use vstd::prelude::*;
use crate::content::{ContentEnvelope, DiscordErrorKind, ErrorKind, ToolResponseContent};
use crate::effect::{
    fails, find_pair, pair_value, yields_text, DiscordCall, Effect, Outcome, Pair, Step,
};
use crate::servers::discord::call::{calls, fails_on, id_of, parse_id, DiscordCallView};
use crate::servers::discord::errors::McpDiscordError;
use crate::text::{concat, decimal, to_decimal};

verus! {

/// What `add_reaction_tool` does, given the bot token that the environment
/// holds, if any, and the answers so far.
///
/// Without a token it fails, then for a channel ID that writes no ID,
/// then for such a message ID. It asks for the reaction, and ends with a
/// sentence that says what was done. A call that fails ends it with
/// `DiscordApiError`.
pub open spec fn add_reaction_step(
    step: Step<McpDiscordError>,
    token: Option<Seq<char>>,
    discord_channel_id: Seq<char>,
    discord_message_id: Seq<char>,
    reaction: Seq<char>,
    replies: Seq<Outcome>,
) -> bool {
    match token {
        None => fails(
            step,
            ErrorKind::Discord(DiscordErrorKind::MissingDiscordToken),
            Seq::empty(),
        ),
        Some(token) => match id_of(discord_channel_id) {
            None => fails(
                step,
                ErrorKind::Discord(DiscordErrorKind::InvalidChannelID),
                discord_channel_id,
            ),
            Some(channel_id) => match id_of(discord_message_id) {
                None => fails(
                    step,
                    ErrorKind::Discord(DiscordErrorKind::InvalidMessageID),
                    discord_message_id,
                ),
                Some(message_id) => if replies.len() == 0 {
                    calls(
                        step,
                        token,
                        DiscordCallView::CreateReaction { channel_id, message_id, emoji: reaction },
                    )
                } else if replies[0] is Nothing {
                    yields_text(
                        step,
                        "Successfully added reaction "@ + reaction + " to message "@ + decimal(
                            message_id as nat,
                        ) + " in channel "@ + decimal(channel_id as nat),
                    )
                } else {
                    fails_on(step, replies[0])
                },
            },
        },
    }
}

/// Reacts with `reaction` to the message `discord_message_id` in the
/// channel `discord_channel_id`: the next thing to ask for, or the result,
/// given the answers so far.
pub fn add_reaction_tool(
    env: &Vec<Pair>,
    discord_channel_id: &str,
    discord_message_id: &str,
    reaction: &str,
    replies: &Vec<Outcome>,
) -> (step: Step<McpDiscordError>)
    ensures
        add_reaction_step(
            step,
            pair_value(env@, "DISCORD_TOKEN"@),
            discord_channel_id@,
            discord_message_id@,
            reaction@,
            replies@,
        ),
{
    let token = match find_pair(env, "DISCORD_TOKEN") {
        Some(token) => token,
        None => {
            return Step::Done(Err(McpDiscordError::MissingDiscordToken));
        },
    };
    let channel_id = match parse_id(discord_channel_id) {
        Some(id) => id,
        None => {
            return Step::Done(
                Err(McpDiscordError::InvalidChannelID(String::from_str(discord_channel_id))),
            );
        },
    };
    let message_id = match parse_id(discord_message_id) {
        Some(id) => id,
        None => {
            return Step::Done(
                Err(McpDiscordError::InvalidMessageID(String::from_str(discord_message_id))),
            );
        },
    };
    if replies.len() == 0 {
        return Step::Perform(
            Effect::Discord {
                token: token.clone(),
                call: DiscordCall::CreateReaction {
                    channel_id,
                    message_id,
                    emoji: String::from_str(reaction),
                },
            },
        );
    }
    match &replies[0] {
        Outcome::Nothing => {
            let mut text = concat("Successfully added reaction ", reaction);
            text.append(" to message ");
            text.append(to_decimal(message_id).as_str());
            text.append(" in channel ");
            text.append(to_decimal(channel_id).as_str());
            Step::Done(Ok(ContentEnvelope::single(ToolResponseContent::text(text))))
        },
        other => Step::Done(Err(McpDiscordError::DiscordApiError(other.failure()))),
    }
}

} // verus!
