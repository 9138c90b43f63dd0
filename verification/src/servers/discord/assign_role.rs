//! The tool that gives a user a role.

use vstd::prelude::*;
use crate::content::{ContentEnvelope, DiscordErrorKind, ErrorKind, ToolResponseContent};
use crate::effect::{
    fails, find_pair, pair_value, yields_text, DiscordCall, Effect, Outcome, Pair, Step,
};
use crate::servers::discord::call::{calls, fails_on, id_of, parse_id, DiscordCallView};
use crate::servers::discord::errors::McpDiscordError;
use crate::text::{concat, decimal, to_decimal};

verus! {

/// What `assign_role_tool` does once the token and the three IDs are
/// known, given the answers so far.
///
/// It asks for the member, then for the role to be given to the member,
/// and ends with a sentence that says what was done. A call that fails ends
/// it with `DiscordApiError`.
pub open spec fn assignment_step(
    step: Step<McpDiscordError>,
    token: Seq<char>,
    guild: u64,
    user: u64,
    role: u64,
    replies: Seq<Outcome>,
) -> bool {
    if replies.len() == 0 {
        calls(step, token, DiscordCallView::GetMember { guild_id: guild, user_id: user })
    } else if !(replies[0] is Nothing) {
        fails_on(step, replies[0])
    } else if replies.len() == 1 {
        calls(
            step,
            token,
            DiscordCallView::AddRole { guild_id: guild, user_id: user, role_id: role },
        )
    } else if !(replies[1] is Nothing) {
        fails_on(step, replies[1])
    } else {
        yields_text(
            step,
            "Successfully assigned role "@ + decimal(role as nat) + " to user "@ + decimal(
                user as nat,
            ) + " in guild "@ + decimal(guild as nat),
        )
    }
}

/// What `assign_role_tool` does, given the bot token that the environment
/// holds, if any, and the answers so far.
///
/// Without a token it fails, then for a guild ID that writes no ID,
/// then for such a user ID, then for such a role ID. Then it goes through
/// the assignment.
pub open spec fn assign_role_step(
    step: Step<McpDiscordError>,
    token: Option<Seq<char>>,
    guild_id: Seq<char>,
    user_id: Seq<char>,
    role_id: Seq<char>,
    replies: Seq<Outcome>,
) -> bool {
    match token {
        None => fails(
            step,
            ErrorKind::Discord(DiscordErrorKind::MissingDiscordToken),
            Seq::empty(),
        ),
        Some(token) => match id_of(guild_id) {
            None => fails(step, ErrorKind::Discord(DiscordErrorKind::InvalidGuildID), guild_id),
            Some(guild) => match id_of(user_id) {
                None => fails(step, ErrorKind::Discord(DiscordErrorKind::InvalidUserID), user_id),
                Some(user) => match id_of(role_id) {
                    None => fails(
                        step,
                        ErrorKind::Discord(DiscordErrorKind::InvalidRoleID),
                        role_id,
                    ),
                    Some(role) => assignment_step(step, token, guild, user, role, replies),
                },
            },
        },
    }
}

/// Gives the user `user_id` of the guild `guild_id` the role `role_id`:
/// the next thing to ask for, or the result, given the answers so far.
pub fn assign_role_tool(
    env: &Vec<Pair>,
    guild_id: &str,
    user_id: &str,
    role_id: &str,
    replies: &Vec<Outcome>,
) -> (step: Step<McpDiscordError>)
    ensures
        assign_role_step(
            step,
            pair_value(env@, "DISCORD_TOKEN"@),
            guild_id@,
            user_id@,
            role_id@,
            replies@,
        ),
{
    let token = match find_pair(env, "DISCORD_TOKEN") {
        Some(token) => token,
        None => {
            return Step::Done(Err(McpDiscordError::MissingDiscordToken));
        },
    };
    let guild = match parse_id(guild_id) {
        Some(id) => id,
        None => {
            return Step::Done(Err(McpDiscordError::InvalidGuildID(String::from_str(guild_id))));
        },
    };
    let user = match parse_id(user_id) {
        Some(id) => id,
        None => {
            return Step::Done(Err(McpDiscordError::InvalidUserID(String::from_str(user_id))));
        },
    };
    let role = match parse_id(role_id) {
        Some(id) => id,
        None => {
            return Step::Done(Err(McpDiscordError::InvalidRoleID(String::from_str(role_id))));
        },
    };
    if replies.len() == 0 {
        return Step::Perform(
            Effect::Discord {
                token: token.clone(),
                call: DiscordCall::GetMember { guild_id: guild, user_id: user },
            },
        );
    }
    match &replies[0] {
        Outcome::Nothing => {},
        other => {
            return Step::Done(Err(McpDiscordError::DiscordApiError(other.failure())));
        },
    }
    if replies.len() == 1 {
        return Step::Perform(
            Effect::Discord {
                token: token.clone(),
                call: DiscordCall::AddRole { guild_id: guild, user_id: user, role_id: role },
            },
        );
    }
    match &replies[1] {
        Outcome::Nothing => {
            let mut text = concat("Successfully assigned role ", to_decimal(role).as_str());
            text.append(" to user ");
            text.append(to_decimal(user).as_str());
            text.append(" in guild ");
            text.append(to_decimal(guild).as_str());
            Step::Done(Ok(ContentEnvelope::single(ToolResponseContent::text(text))))
        },
        other => Step::Done(Err(McpDiscordError::DiscordApiError(other.failure()))),
    }
}

} // verus!
