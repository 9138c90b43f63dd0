//! The tool that posts a message through a webhook.

use vstd::prelude::*;
use crate::content::{DiscordErrorKind, ErrorKind};
use crate::effect::{fails, failure_text, DiscordCall, Effect, Outcome, Step};
use crate::servers::discord::call::{
    calls, end_with_messages, ends_with_messages, DiscordCallView,
};
use crate::servers::discord::errors::McpDiscordError;

verus! {

/// What `post_webhook_tool` does, given the answers so far.
///
/// It fails for content without text. It asks for the webhook, without a
/// token; a call that fails ends it with `InvalidWebhookURL`. Then it asks
/// for the message to be posted through the webhook, and ends as the answer
/// has it, with `InvalidContent` where no message came back.
pub open spec fn post_webhook_step(
    step: Step<McpDiscordError>,
    discord_webhook_url: Seq<char>,
    content: Seq<char>,
    replies: Seq<Outcome>,
) -> bool {
    if content.len() == 0 {
        fails(
            step,
            ErrorKind::Discord(DiscordErrorKind::InvalidContent),
            "Content cannot be empty"@,
        )
    } else if replies.len() == 0 {
        calls(step, Seq::empty(), DiscordCallView::ResolveWebhook { url: discord_webhook_url })
    } else if !(replies[0] is Nothing) {
        fails(
            step,
            ErrorKind::Discord(DiscordErrorKind::InvalidWebhookURL),
            failure_text(replies[0]),
        )
    } else if replies.len() == 1 {
        calls(
            step,
            Seq::empty(),
            DiscordCallView::ExecuteWebhook { url: discord_webhook_url, content },
        )
    } else if replies[1] is Nothing {
        fails(
            step,
            ErrorKind::Discord(DiscordErrorKind::InvalidContent),
            "Failed to send message"@,
        )
    } else {
        ends_with_messages(step, replies[1])
    }
}

/// Posts `content` through the webhook at `discord_webhook_url`: the next
/// thing to ask for, or the result, given the answers so far.
pub fn post_webhook_tool(discord_webhook_url: &str, content: &str, replies: &Vec<Outcome>) -> (step:
    Step<McpDiscordError>)
    ensures
        post_webhook_step(step, discord_webhook_url@, content@, replies@),
{
    if content.unicode_len() == 0 {
        return Step::Done(
            Err(McpDiscordError::InvalidContent(String::from_str("Content cannot be empty"))),
        );
    }
    if replies.len() == 0 {
        return Step::Perform(
            Effect::Discord {
                token: String::new(),
                call: DiscordCall::ResolveWebhook { url: String::from_str(discord_webhook_url) },
            },
        );
    }
    match &replies[0] {
        Outcome::Nothing => {},
        other => {
            return Step::Done(Err(McpDiscordError::InvalidWebhookURL(other.failure())));
        },
    }
    if replies.len() == 1 {
        return Step::Perform(
            Effect::Discord {
                token: String::new(),
                call: DiscordCall::ExecuteWebhook {
                    url: String::from_str(discord_webhook_url),
                    content: String::from_str(content),
                },
            },
        );
    }
    match &replies[1] {
        Outcome::Nothing => Step::Done(
            Err(McpDiscordError::InvalidContent(String::from_str("Failed to send message"))),
        ),
        other => end_with_messages(other),
    }
}

} // verus!
