//! The Discord server: its tools, what a registry holds for each of them,
//! and how a call reaches the tool.

use vstd::prelude::*;
use crate::content::NormalizedError;
use crate::dispatch::{number_arg, number_argument, text_arg, text_argument, Argument};
use crate::effect::{pair_value, Effect, Outcome, Pair, Step, MOST_EFFECTS};
use crate::registry::{
    no_params, param_views, push_param, ParamKind, ParamView, Registry, ServerCapabilities,
    ToolDescriptor,
};
use crate::servers::discord::add_reaction::{add_reaction_step, add_reaction_tool};
use crate::servers::discord::assign_role::{assign_role_step, assign_role_tool};
use crate::servers::discord::call::names_no_zero;
use crate::servers::discord::errors::McpDiscordError;
use crate::servers::discord::get_channel_messages::{
    get_channel_messages_step, get_channel_messages_tool,
};
use crate::servers::discord::post_dm::{post_dm_step, post_dm_tool};
use crate::servers::discord::post_message::{post_message_step, post_message_tool};
use crate::servers::discord::post_webhook::{post_webhook_step, post_webhook_tool};
use crate::servers::tool::{catalog, describes, normalized, reject, rejects, Tool};

verus! {

/// The tools of the Discord server.
#[derive(Clone, Copy, Debug, PartialEq, Eq, Structural)]
pub enum DiscordTool {
    AddReaction,
    AssignRole,
    GetChannelMessages,
    PostDm,
    PostMessage,
    PostWebhook,
}

/// The name under which `tool` is registered.
pub open spec fn tool_name(tool: DiscordTool) -> Seq<char> {
    match tool {
        DiscordTool::AddReaction => "AddReaction"@,
        DiscordTool::AssignRole => "AssignRole"@,
        DiscordTool::GetChannelMessages => "GetChannelMessages"@,
        DiscordTool::PostDm => "PostDM"@,
        DiscordTool::PostMessage => "PostMessage"@,
        DiscordTool::PostWebhook => "PostWebhook"@,
    }
}

/// What `tool` is said to do.
pub open spec fn tool_description(tool: DiscordTool) -> Seq<char> {
    match tool {
        DiscordTool::AddReaction => "Add a reaction to a message in a Discord channel."@,
        DiscordTool::AssignRole => "Assign a role to a Discord user."@,
        DiscordTool::GetChannelMessages => "Get messages from a Discord channel."@,
        DiscordTool::PostDm => "Send a direct message to a Discord user."@,
        DiscordTool::PostMessage => "Post a message to Discord."@,
        DiscordTool::PostWebhook => "Post a message using a Discord webhook."@,
    }
}

/// The parameters that `tool` declares, in the order of their declaration.
pub open spec fn tool_parameters(tool: DiscordTool) -> Seq<ParamView> {
    match tool {
        DiscordTool::AddReaction => seq![
            ParamView {
                name: "discord_channel_id"@,
                description: "ID of the channel containing the message"@,
                kind: ParamKind::Text,
                required: true,
            },
            ParamView {
                name: "discord_message_id"@,
                description: "ID of the message to react to"@,
                kind: ParamKind::Text,
                required: true,
            },
            ParamView {
                name: "reaction"@,
                description: "Emoji to add as a reaction (e.g., \u{1f44d})"@,
                kind: ParamKind::Text,
                required: true,
            },
        ],
        DiscordTool::AssignRole => seq![
            ParamView {
                name: "guild_id"@,
                description: "The guild (server) ID"@,
                kind: ParamKind::Text,
                required: true,
            },
            ParamView {
                name: "user_id"@,
                description: "The user ID to assign the role to"@,
                kind: ParamKind::Text,
                required: true,
            },
            ParamView {
                name: "role_id"@,
                description: "The role ID to assign"@,
                kind: ParamKind::Text,
                required: true,
            },
        ],
        DiscordTool::GetChannelMessages => seq![
            ParamView {
                name: "channel_id"@,
                description: "The channel ID to get messages from"@,
                kind: ParamKind::Text,
                required: true,
            },
            ParamView {
                name: "limit"@,
                description: "The maximum number of messages to get"@,
                kind: ParamKind::Number,
                required: false,
            },
        ],
        DiscordTool::PostDm => seq![
            ParamView {
                name: "discord_user_id"@,
                description: "The user ID to send the DM to"@,
                kind: ParamKind::Text,
                required: true,
            },
            ParamView {
                name: "content"@,
                description: "The content of the DM"@,
                kind: ParamKind::Text,
                required: true,
            },
        ],
        DiscordTool::PostMessage => seq![
            ParamView {
                name: "discord_channel_id"@,
                description: "Discord channel ID to send content to"@,
                kind: ParamKind::Text,
                required: true,
            },
            ParamView {
                name: "content"@,
                description: "Content to send to the channel"@,
                kind: ParamKind::Text,
                required: true,
            },
        ],
        DiscordTool::PostWebhook => seq![
            ParamView {
                name: "discord_webhook_url"@,
                description: "The URL of the webhook"@,
                kind: ParamKind::Text,
                required: true,
            },
            ParamView {
                name: "content"@,
                description: "Content to send via the webhook"@,
                kind: ParamKind::Text,
                required: true,
            },
        ],
    }
}

/// The tools of the Discord server, in the order of their registration.
pub open spec fn tools() -> Seq<Tool> {
    seq![
        Tool::Discord(DiscordTool::AddReaction),
        Tool::Discord(DiscordTool::AssignRole),
        Tool::Discord(DiscordTool::GetChannelMessages),
        Tool::Discord(DiscordTool::PostDm),
        Tool::Discord(DiscordTool::PostMessage),
        Tool::Discord(DiscordTool::PostWebhook),
    ]
}

/// Every tool has a name, and no two tools share one.
pub proof fn lemma_tool_names_differ(a: DiscordTool, b: DiscordTool)
    ensures
        tool_name(a).len() > 0,
        a != b ==> tool_name(a) != tool_name(b),
{
    reveal_strlit("AddReaction");
    reveal_strlit("AssignRole");
    reveal_strlit("GetChannelMessages");
    reveal_strlit("PostDM");
    reveal_strlit("PostMessage");
    reveal_strlit("PostWebhook");
    assert("AddReaction"@[0] != "PostMessage"@[0]);
    assert("AddReaction"@[0] != "PostWebhook"@[0]);
    assert("PostMessage"@[4] != "PostWebhook"@[4]);
}

/// What a registry holds for `tool`.
pub fn descriptor(tool: DiscordTool) -> (descriptor: ToolDescriptor<Tool>)
    ensures
        describes(descriptor, Tool::Discord(tool)),
{
    let mut parameters = no_params();
    let (name, description) = match tool {
        DiscordTool::AddReaction => {
            push_param(
                &mut parameters,
                "discord_channel_id",
                "ID of the channel containing the message",
                ParamKind::Text,
                true,
            );
            push_param(
                &mut parameters,
                "discord_message_id",
                "ID of the message to react to",
                ParamKind::Text,
                true,
            );
            push_param(
                &mut parameters,
                "reaction",
                "Emoji to add as a reaction (e.g., \u{1f44d})",
                ParamKind::Text,
                true,
            );
            ("AddReaction", "Add a reaction to a message in a Discord channel.")
        },
        DiscordTool::AssignRole => {
            push_param(&mut parameters, "guild_id", "The guild (server) ID", ParamKind::Text, true);
            push_param(
                &mut parameters,
                "user_id",
                "The user ID to assign the role to",
                ParamKind::Text,
                true,
            );
            push_param(&mut parameters, "role_id", "The role ID to assign", ParamKind::Text, true);
            ("AssignRole", "Assign a role to a Discord user.")
        },
        DiscordTool::GetChannelMessages => {
            push_param(
                &mut parameters,
                "channel_id",
                "The channel ID to get messages from",
                ParamKind::Text,
                true,
            );
            push_param(
                &mut parameters,
                "limit",
                "The maximum number of messages to get",
                ParamKind::Number,
                false,
            );
            ("GetChannelMessages", "Get messages from a Discord channel.")
        },
        DiscordTool::PostDm => {
            push_param(
                &mut parameters,
                "discord_user_id",
                "The user ID to send the DM to",
                ParamKind::Text,
                true,
            );
            push_param(&mut parameters, "content", "The content of the DM", ParamKind::Text, true);
            ("PostDM", "Send a direct message to a Discord user.")
        },
        DiscordTool::PostMessage => {
            push_param(
                &mut parameters,
                "discord_channel_id",
                "Discord channel ID to send content to",
                ParamKind::Text,
                true,
            );
            push_param(
                &mut parameters,
                "content",
                "Content to send to the channel",
                ParamKind::Text,
                true,
            );
            ("PostMessage", "Post a message to Discord.")
        },
        DiscordTool::PostWebhook => {
            push_param(
                &mut parameters,
                "discord_webhook_url",
                "The URL of the webhook",
                ParamKind::Text,
                true,
            );
            push_param(
                &mut parameters,
                "content",
                "Content to send via the webhook",
                ParamKind::Text,
                true,
            );
            ("PostWebhook", "Post a message using a Discord webhook.")
        },
    };
    proof {
        assert(param_views(parameters@) =~= tool_parameters(tool));
    }
    ToolDescriptor {
        name: String::from_str(name),
        description: String::from_str(description),
        parameters,
        handler: Tool::Discord(tool),
    }
}

/// The registry of the Discord server: named `Discord`, in version 0.1.0,
/// declaring tools and nothing else, holding its tools in the order of
/// `tools`, and built.
pub fn protocol() -> (registry: Registry<Tool>)
    ensures
        registry@.server_name == "Discord"@,
        registry@.server_version == "0.1.0"@,
        registry@.capabilities == (ServerCapabilities {
            tools: true,
            prompts: false,
            resources: false,
            logging: false,
            experimental: false,
        }),
        registry@.frozen,
        registry@.wf(),
        catalog(registry@.tools, tools()),
{
    let mut registry: Registry<Tool> = Registry::new(
        String::from_str("Discord"),
        String::from_str("0.1.0"),
    ).capabilities(
        ServerCapabilities {
            tools: true,
            prompts: false,
            resources: false,
            logging: false,
            experimental: false,
        },
    );
    proof {
        assert forall|a: DiscordTool, b: DiscordTool|
            tool_name(a).len() > 0 && (a != b ==> #[trigger] tool_name(a) != #[trigger] tool_name(
                b,
            )) by {
            lemma_tool_names_differ(a, b);
        }
    }
    let _ = registry.register(descriptor(DiscordTool::AddReaction));
    let _ = registry.register(descriptor(DiscordTool::AssignRole));
    let _ = registry.register(descriptor(DiscordTool::GetChannelMessages));
    let _ = registry.register(descriptor(DiscordTool::PostDm));
    let _ = registry.register(descriptor(DiscordTool::PostMessage));
    let _ = registry.register(descriptor(DiscordTool::PostWebhook));
    registry.build()
}

/// What a call of `tool` does, given the arguments and the answers so
/// far. It fails with the first required argument that is missing or has
/// the wrong shape; an optional argument of the wrong shape counts as not
/// given. Else it does what the tool does, with the failure of the tool, if
/// it ends in one, in the uniform shape.
pub open spec fn call_step(
    step: Step<NormalizedError>,
    tool: DiscordTool,
    env: Seq<Pair>,
    arguments: Seq<Argument>,
    replies: Seq<Outcome>,
) -> bool {
    match tool {
        DiscordTool::AddReaction => match text_argument(arguments, "discord_channel_id"@) {
            None => rejects(step, "discord_channel_id"@),
            Some(discord_channel_id) => match text_argument(arguments, "discord_message_id"@) {
                None => rejects(step, "discord_message_id"@),
                Some(discord_message_id) => match text_argument(arguments, "reaction"@) {
                    None => rejects(step, "reaction"@),
                    Some(reaction) => exists|inner: Step<McpDiscordError>|
                        #[trigger] normalized(step, inner)
                        && add_reaction_step(
                            inner,
                            pair_value(env, "DISCORD_TOKEN"@),
                            discord_channel_id,
                            discord_message_id,
                            reaction,
                            replies,
                        ),
                },
            },
        },
        DiscordTool::AssignRole => match text_argument(arguments, "guild_id"@) {
            None => rejects(step, "guild_id"@),
            Some(guild_id) => match text_argument(arguments, "user_id"@) {
                None => rejects(step, "user_id"@),
                Some(user_id) => match text_argument(arguments, "role_id"@) {
                    None => rejects(step, "role_id"@),
                    Some(role_id) => exists|inner: Step<McpDiscordError>|
                        #[trigger] normalized(step, inner)
                        && assign_role_step(
                            inner,
                            pair_value(env, "DISCORD_TOKEN"@),
                            guild_id,
                            user_id,
                            role_id,
                            replies,
                        ),
                },
            },
        },
        DiscordTool::GetChannelMessages => match text_argument(arguments, "channel_id"@) {
            None => rejects(step, "channel_id"@),
            Some(channel_id) => exists|inner: Step<McpDiscordError>|
                #[trigger] normalized(step, inner)
                && get_channel_messages_step(
                    inner,
                    pair_value(env, "DISCORD_TOKEN"@),
                    channel_id,
                    number_argument(arguments, "limit"@),
                    replies,
                ),
        },
        DiscordTool::PostDm => match text_argument(arguments, "discord_user_id"@) {
            None => rejects(step, "discord_user_id"@),
            Some(discord_user_id) => match text_argument(arguments, "content"@) {
                None => rejects(step, "content"@),
                Some(content) => exists|inner: Step<McpDiscordError>|
                    #[trigger] normalized(step, inner)
                    && post_dm_step(
                        inner,
                        pair_value(env, "DISCORD_TOKEN"@),
                        discord_user_id,
                        content,
                        replies,
                    ),
            },
        },
        DiscordTool::PostMessage => match text_argument(arguments, "discord_channel_id"@) {
            None => rejects(step, "discord_channel_id"@),
            Some(discord_channel_id) => match text_argument(arguments, "content"@) {
                None => rejects(step, "content"@),
                Some(content) => exists|inner: Step<McpDiscordError>|
                    #[trigger] normalized(step, inner)
                    && post_message_step(
                        inner,
                        pair_value(env, "DISCORD_TOKEN"@),
                        discord_channel_id,
                        content,
                        replies,
                    ),
            },
        },
        DiscordTool::PostWebhook => match text_argument(arguments, "discord_webhook_url"@) {
            None => rejects(step, "discord_webhook_url"@),
            Some(discord_webhook_url) => match text_argument(arguments, "content"@) {
                None => rejects(step, "content"@),
                Some(content) => exists|inner: Step<McpDiscordError>|
                    #[trigger] normalized(step, inner)
                    && post_webhook_step(inner, discord_webhook_url, content, replies),
            },
        },
    }
}

/// A call comes to its end: once as many answers are there as a tool asks
/// for at most, the call asks for nothing more.
pub proof fn lemma_call_ends(
    step: Step<NormalizedError>,
    tool: DiscordTool,
    env: Seq<Pair>,
    arguments: Seq<Argument>,
    replies: Seq<Outcome>,
)
    requires
        call_step(step, tool, env, arguments, replies),
        replies.len() >= MOST_EFFECTS,
    ensures
        step is Done,
{
}

/// No call into Discord names an ID of zero: whatever the arguments and the
/// answers are, a step that asks for a call asks for one whose IDs are all
/// from 1 on.
pub proof fn lemma_calls_name_no_zero(
    step: Step<NormalizedError>,
    tool: DiscordTool,
    env: Seq<Pair>,
    arguments: Seq<Argument>,
    replies: Seq<Outcome>,
)
    requires
        call_step(step, tool, env, arguments, replies),
    ensures
        step matches Step::Perform(Effect::Discord { token, call }) ==> names_no_zero(call@),
{
}

/// Calls `tool` with `arguments`: the next thing to ask for, or the
/// result, given the answers so far.
pub fn call(
    tool: DiscordTool,
    env: &Vec<Pair>,
    arguments: &Vec<Argument>,
    replies: &Vec<Outcome>,
) -> (step: Step<NormalizedError>)
    ensures
        call_step(step, tool, env@, arguments@, replies@),
{
    match tool {
        DiscordTool::AddReaction => {
            let discord_channel_id = match text_arg(arguments, "discord_channel_id") {
                Some(value) => value,
                None => {
                    return reject("discord_channel_id");
                },
            };
            let discord_message_id = match text_arg(arguments, "discord_message_id") {
                Some(value) => value,
                None => {
                    return reject("discord_message_id");
                },
            };
            let reaction = match text_arg(arguments, "reaction") {
                Some(value) => value,
                None => {
                    return reject("reaction");
                },
            };
            finish(add_reaction_tool(
                env,
                discord_channel_id,
                discord_message_id,
                reaction,
                replies,
            ))
        },
        DiscordTool::AssignRole => {
            let guild_id = match text_arg(arguments, "guild_id") {
                Some(value) => value,
                None => {
                    return reject("guild_id");
                },
            };
            let user_id = match text_arg(arguments, "user_id") {
                Some(value) => value,
                None => {
                    return reject("user_id");
                },
            };
            let role_id = match text_arg(arguments, "role_id") {
                Some(value) => value,
                None => {
                    return reject("role_id");
                },
            };
            finish(assign_role_tool(env, guild_id, user_id, role_id, replies))
        },
        DiscordTool::GetChannelMessages => {
            let channel_id = match text_arg(arguments, "channel_id") {
                Some(value) => value,
                None => {
                    return reject("channel_id");
                },
            };
            finish(get_channel_messages_tool(
                env,
                channel_id,
                number_arg(arguments, "limit"),
                replies,
            ))
        },
        DiscordTool::PostDm => {
            let discord_user_id = match text_arg(arguments, "discord_user_id") {
                Some(value) => value,
                None => {
                    return reject("discord_user_id");
                },
            };
            let content = match text_arg(arguments, "content") {
                Some(value) => value,
                None => {
                    return reject("content");
                },
            };
            finish(post_dm_tool(env, discord_user_id, content, replies))
        },
        DiscordTool::PostMessage => {
            let discord_channel_id = match text_arg(arguments, "discord_channel_id") {
                Some(value) => value,
                None => {
                    return reject("discord_channel_id");
                },
            };
            let content = match text_arg(arguments, "content") {
                Some(value) => value,
                None => {
                    return reject("content");
                },
            };
            finish(post_message_tool(env, discord_channel_id, content, replies))
        },
        DiscordTool::PostWebhook => {
            let discord_webhook_url = match text_arg(arguments, "discord_webhook_url") {
                Some(value) => value,
                None => {
                    return reject("discord_webhook_url");
                },
            };
            let content = match text_arg(arguments, "content") {
                Some(value) => value,
                None => {
                    return reject("content");
                },
            };
            finish(post_webhook_tool(discord_webhook_url, content, replies))
        },
    }
}

/// The step `inner` of a tool, with its failure, if it ends in one, in the
/// uniform shape.
fn finish(inner: Step<McpDiscordError>) -> (step: Step<NormalizedError>)
    ensures
        normalized(step, inner),
{
    match inner {
        Step::Perform(effect) => Step::Perform(effect),
        Step::Done(Ok(envelope)) => Step::Done(Ok(envelope)),
        Step::Done(Err(error)) => Step::Done(Err(error.normalize())),
    }
}

} // verus!
