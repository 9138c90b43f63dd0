//! The tool that sends a direct message to a user.

use vstd::prelude::*;
use crate::content::{DiscordErrorKind, ErrorKind};
use crate::effect::{fails, find_pair, pair_value, DiscordCall, Effect, Outcome, Pair, Step};
use crate::servers::discord::call::{
    calls, end_with_messages, ends_with_messages, fails_on, id_of, parse_id, DiscordCallView,
};
use crate::servers::discord::errors::McpDiscordError;

verus! {

/// What `post_dm_tool` does, given the bot token that the environment
/// holds, if any, and the answers so far.
///
/// Without a token it fails, then for a user ID that writes no ID. It asks
/// for the channel to the user, then for the message to be posted there,
/// and ends as the answer has it. A call that fails ends it with
/// `DiscordApiError`, and so does an answer that names the channel zero.
pub open spec fn post_dm_step(
    step: Step<McpDiscordError>,
    token: Option<Seq<char>>,
    discord_user_id: Seq<char>,
    content: Seq<char>,
    replies: Seq<Outcome>,
) -> bool {
    match token {
        None => fails(
            step,
            ErrorKind::Discord(DiscordErrorKind::MissingDiscordToken),
            Seq::empty(),
        ),
        Some(token) => match id_of(discord_user_id) {
            None => fails(
                step,
                ErrorKind::Discord(DiscordErrorKind::InvalidUserID),
                discord_user_id,
            ),
            Some(user_id) => if replies.len() == 0 {
                calls(step, token, DiscordCallView::CreateDmChannel { user_id })
            } else {
                match replies[0] {
                    Outcome::Id(channel_id) => if channel_id == 0 {
                        fails_on(step, replies[0])
                    } else if replies.len() == 1 {
                        calls(step, token, DiscordCallView::Say { channel_id, content })
                    } else {
                        ends_with_messages(step, replies[1])
                    },
                    other => fails_on(step, other),
                }
            },
        },
    }
}

/// Sends `content` to the user `discord_user_id` as a direct message: the
/// next thing to ask for, or the result, given the answers so far.
pub fn post_dm_tool(
    env: &Vec<Pair>,
    discord_user_id: &str,
    content: &str,
    replies: &Vec<Outcome>,
) -> (step: Step<McpDiscordError>)
    ensures
        post_dm_step(
            step,
            pair_value(env@, "DISCORD_TOKEN"@),
            discord_user_id@,
            content@,
            replies@,
        ),
{
    let token = match find_pair(env, "DISCORD_TOKEN") {
        Some(token) => token,
        None => {
            return Step::Done(Err(McpDiscordError::MissingDiscordToken));
        },
    };
    let user_id = match parse_id(discord_user_id) {
        Some(id) => id,
        None => {
            return Step::Done(
                Err(McpDiscordError::InvalidUserID(String::from_str(discord_user_id))),
            );
        },
    };
    if replies.len() == 0 {
        return Step::Perform(
            Effect::Discord { token: token.clone(), call: DiscordCall::CreateDmChannel { user_id } },
        );
    }
    let channel_id: u64 = match &replies[0] {
        Outcome::Id(channel_id) => {
            if *channel_id == 0 {
                return Step::Done(Err(McpDiscordError::DiscordApiError(replies[0].failure())));
            }
            *channel_id
        },
        other => {
            return Step::Done(Err(McpDiscordError::DiscordApiError(other.failure())));
        },
    };
    if replies.len() == 1 {
        return Step::Perform(
            Effect::Discord {
                token: token.clone(),
                call: DiscordCall::Say { channel_id, content: String::from_str(content) },
            },
        );
    }
    end_with_messages(&replies[1])
}

} // verus!
