use mcp_servers::content::{ContentEnvelope, ToolResponseContent};
use mcp_servers::dispatch::Number;
use mcp_servers::effect::{DiscordCall, Effect, Outcome, Pair, Step};
use mcp_servers::servers::discord::add_reaction::add_reaction_tool;
use mcp_servers::servers::discord::assign_role::assign_role_tool;
use mcp_servers::servers::discord::call::parse_id;
use mcp_servers::servers::discord::errors::McpDiscordError;
use mcp_servers::servers::discord::get_channel_messages::{get_channel_messages_tool, limit_of};
use mcp_servers::servers::discord::post_dm::post_dm_tool;
use mcp_servers::servers::discord::post_message::post_message_tool;
use mcp_servers::servers::discord::post_webhook::post_webhook_tool;

fn play_discord(
    tool: impl Fn(&Vec<Outcome>) -> Step<McpDiscordError>,
    script: Vec<Outcome>,
) -> (Vec<Effect>, Option<Result<ContentEnvelope, McpDiscordError>>) {
    let mut replies = Vec::new();
    let mut asked = Vec::new();
    let mut script = script.into_iter();
    loop {
        match tool(&replies) {
            Step::Perform(effect) => {
                asked.push(effect);
                match script.next() {
                    Some(outcome) => replies.push(outcome),
                    None => return (asked, None),
                }
            }
            Step::Done(result) => return (asked, Some(result)),
        }
    }
}

fn discord_env() -> Vec<Pair> {
    vec![Pair { name: "DISCORD_TOKEN".to_string(), value: "bot-token".to_string() }]
}

fn as_bot(call: DiscordCall) -> Effect {
    Effect::Discord { token: "bot-token".to_string(), call }
}

fn discord_text(text: &str) -> Vec<ToolResponseContent> {
    vec![ToolResponseContent::Text { text: text.to_string() }]
}

fn float(text: &str, below_zero: bool, whole: u64, fractional: bool) -> Number {
    Number { below_zero, whole, fractional, text: text.to_string() }
}

#[test]
fn test_add_reaction_tool() {
    let env = discord_env();
    let (asked, result) = play_discord(
        |replies| add_reaction_tool(&env, "1100", "2200", "👍", replies),
        vec![Outcome::Nothing],
    );
    assert_eq!(
        asked,
        vec![as_bot(DiscordCall::CreateReaction {
            channel_id: 1100,
            message_id: 2200,
            emoji: "👍".to_string()
        })]
    );
    let content = result.expect("ended").expect("content");
    assert!(format!("{:?}", content).len() > 0);
    assert_eq!(
        content.into_items(),
        discord_text("Successfully added reaction 👍 to message 2200 in channel 1100")
    );
}

#[test]
fn add_reaction_checks_token_then_channel_then_message() {
    let env = discord_env();
    let run = |env: &Vec<Pair>, channel: &str, message: &str| {
        play_discord(|replies| add_reaction_tool(env, channel, message, "x", replies), vec![])
    };
    assert_eq!(run(&vec![], "x", "y"), (vec![], Some(Err(McpDiscordError::MissingDiscordToken))));
    assert_eq!(
        run(&env, "x", "y"),
        (vec![], Some(Err(McpDiscordError::InvalidChannelID("x".to_string()))))
    );
    assert_eq!(
        run(&env, "1", "y"),
        (vec![], Some(Err(McpDiscordError::InvalidMessageID("y".to_string()))))
    );
    assert_eq!(
        run(&env, "1", ""),
        (vec![], Some(Err(McpDiscordError::InvalidMessageID("".to_string()))))
    );
    assert_eq!(
        run(&env, "18446744073709551616", "2"),
        (vec![], Some(Err(McpDiscordError::InvalidChannelID("18446744073709551616".to_string()))))
    );
    let (asked, result) = play_discord(
        |replies| add_reaction_tool(&env, "+001", "18446744073709551615", "x", replies),
        vec![Outcome::Failed("Unknown Message".to_string())],
    );
    assert_eq!(
        asked,
        vec![as_bot(DiscordCall::CreateReaction {
            channel_id: 1,
            message_id: u64::MAX,
            emoji: "x".to_string()
        })]
    );
    assert_eq!(result, Some(Err(McpDiscordError::DiscordApiError("Unknown Message".to_string()))));
}

#[test]
fn ids_are_decimal_numbers() {
    assert_eq!(parse_id("0"), None);
    assert_eq!(parse_id("+0"), None);
    assert_eq!(parse_id("000"), None);
    assert_eq!(parse_id("1"), Some(1));
    assert_eq!(parse_id("123456789012345678"), Some(123456789012345678));
    assert_eq!(parse_id("+7"), Some(7));
    assert_eq!(parse_id("-7"), None);
    assert_eq!(parse_id("7 "), None);
    assert_eq!(parse_id("0x10"), None);
    assert_eq!(parse_id(""), None);
    for text in ["0", "42", "+42", "-1", "", "+", "1e3", "18446744073709551615", "18446744073709551616"] {
        let expected = text.parse::<u64>().ok().filter(|id| *id != 0);
        assert_eq!(parse_id(text), expected, "{:?}", text);
    }
}

#[test]
fn zero_is_no_id_and_reaches_no_call() {
    let env = discord_env();
    let script = || vec![Outcome::Nothing, Outcome::Nothing];
    assert_eq!(
        play_discord(|replies| assign_role_tool(&env, "0", "1", "1", replies), script()),
        (vec![], Some(Err(McpDiscordError::InvalidGuildID("0".to_string()))))
    );
    assert_eq!(
        play_discord(|replies| assign_role_tool(&env, "1", "0", "1", replies), script()),
        (vec![], Some(Err(McpDiscordError::InvalidUserID("0".to_string()))))
    );
    assert_eq!(
        play_discord(|replies| assign_role_tool(&env, "1", "1", "00", replies), script()),
        (vec![], Some(Err(McpDiscordError::InvalidRoleID("00".to_string()))))
    );
    assert_eq!(
        play_discord(|replies| add_reaction_tool(&env, "0", "1", "x", replies), script()),
        (vec![], Some(Err(McpDiscordError::InvalidChannelID("0".to_string()))))
    );
    assert_eq!(
        play_discord(|replies| add_reaction_tool(&env, "1", "+0", "x", replies), script()),
        (vec![], Some(Err(McpDiscordError::InvalidMessageID("+0".to_string()))))
    );
    assert_eq!(
        play_discord(|replies| get_channel_messages_tool(&env, "0", None, replies), script()),
        (vec![], Some(Err(McpDiscordError::InvalidChannelID("0".to_string()))))
    );
    assert_eq!(
        play_discord(|replies| post_message_tool(&env, "0", "hi", replies), script()),
        (vec![], Some(Err(McpDiscordError::InvalidChannelID("0".to_string()))))
    );
    assert_eq!(
        play_discord(|replies| post_dm_tool(&env, "0", "hi", replies), script()),
        (vec![], Some(Err(McpDiscordError::InvalidUserID("0".to_string()))))
    );
    let (asked, result) = play_discord(
        |replies| post_dm_tool(&env, "2", "hi", replies),
        vec![Outcome::Id(0), Outcome::Text("{}".to_string())],
    );
    assert_eq!(asked, vec![as_bot(DiscordCall::CreateDmChannel { user_id: 2 })]);
    assert_eq!(
        result,
        Some(Err(McpDiscordError::DiscordApiError("unexpected outcome".to_string())))
    );
}

#[test]
fn test_assign_role_tool() {
    let env = discord_env();
    let (asked, result) = play_discord(
        |replies| assign_role_tool(&env, "10", "20", "30", replies),
        vec![Outcome::Nothing, Outcome::Nothing],
    );
    assert_eq!(
        asked,
        vec![
            as_bot(DiscordCall::GetMember { guild_id: 10, user_id: 20 }),
            as_bot(DiscordCall::AddRole { guild_id: 10, user_id: 20, role_id: 30 }),
        ]
    );
    let content = result.expect("ended").expect("content");
    assert!(format!("{:?}", content).len() > 0);
    assert_eq!(
        content.into_items(),
        discord_text("Successfully assigned role 30 to user 20 in guild 10")
    );
}

#[test]
fn assign_role_checks_its_ids_in_order_and_stops_at_a_failed_call() {
    let env = discord_env();
    let run = |env: &Vec<Pair>, guild: &str, user: &str, role: &str, script: Vec<Outcome>| {
        play_discord(|replies| assign_role_tool(env, guild, user, role, replies), script)
    };
    assert_eq!(
        run(&vec![], "a", "b", "c", vec![]),
        (vec![], Some(Err(McpDiscordError::MissingDiscordToken)))
    );
    assert_eq!(
        run(&env, "a", "b", "c", vec![]),
        (vec![], Some(Err(McpDiscordError::InvalidGuildID("a".to_string()))))
    );
    assert_eq!(
        run(&env, "1", "b", "c", vec![]),
        (vec![], Some(Err(McpDiscordError::InvalidUserID("b".to_string()))))
    );
    assert_eq!(
        run(&env, "1", "2", "c", vec![]),
        (vec![], Some(Err(McpDiscordError::InvalidRoleID("c".to_string()))))
    );
    let (asked, result) =
        run(&env, "1", "2", "3", vec![Outcome::Failed("Unknown Member".to_string())]);
    assert_eq!(asked.len(), 1);
    assert_eq!(result, Some(Err(McpDiscordError::DiscordApiError("Unknown Member".to_string()))));
    let (asked, result) = run(
        &env,
        "1",
        "2",
        "3",
        vec![Outcome::Nothing, Outcome::Failed("Missing Permissions".to_string())],
    );
    assert_eq!(asked.len(), 2);
    assert_eq!(
        result,
        Some(Err(McpDiscordError::DiscordApiError("Missing Permissions".to_string())))
    );
}

#[test]
fn test_get_channel_messages_tool() {
    let env = discord_env();
    let five = float("5", false, 5, false);
    let (asked, result) = play_discord(
        |replies| get_channel_messages_tool(&env, "1100", Some(&five), replies),
        vec![Outcome::Text("[{\"id\":\"1\"}]".to_string())],
    );
    assert_eq!(asked, vec![as_bot(DiscordCall::GetMessages { channel_id: 1100, limit: 5 })]);
    let content = result.expect("ended").expect("content");
    assert!(format!("{:?}", content).len() > 0);
    assert_eq!(content.into_items(), discord_text("[{\"id\":\"1\"}]"));
}

#[test]
fn message_limit_is_cut_to_a_byte() {
    assert_eq!(limit_of(None), 100);
    assert_eq!(limit_of(Some(&float("0", false, 0, false))), 0);
    assert_eq!(limit_of(Some(&float("5.9", false, 5, true))), 5);
    assert_eq!(limit_of(Some(&float("255", false, 255, false))), 255);
    assert_eq!(limit_of(Some(&float("256", false, 256, false))), 255);
    assert_eq!(limit_of(Some(&float("1e30", false, u64::MAX, false))), 255);
    assert_eq!(limit_of(Some(&float("-3", true, 3, false))), 0);
    assert_eq!(limit_of(Some(&float("NaN", false, 0, false))), 0);
    for (value, below_zero, whole) in
        [(5.0f64, false, 5u64), (255.9, false, 255), (256.0, false, 256), (-1.0, true, 1), (1e40, false, u64::MAX)]
    {
        let number = float(&value.to_string(), below_zero, whole, value.fract() != 0.0);
        assert_eq!(limit_of(Some(&number)), value as u8);
    }
}

#[test]
fn get_channel_messages_reports_what_went_wrong() {
    let env = discord_env();
    let run = |env: &Vec<Pair>, channel: &str, script: Vec<Outcome>| {
        play_discord(|replies| get_channel_messages_tool(env, channel, None, replies), script)
    };
    assert_eq!(run(&vec![], "1", vec![]).1, Some(Err(McpDiscordError::MissingDiscordToken)));
    assert_eq!(
        run(&env, "one", vec![]).1,
        Some(Err(McpDiscordError::InvalidChannelID("one".to_string())))
    );
    let (asked, result) = run(&env, "1", vec![Outcome::Malformed("key must be a string".to_string())]);
    assert_eq!(asked, vec![as_bot(DiscordCall::GetMessages { channel_id: 1, limit: 100 })]);
    assert_eq!(
        result,
        Some(Err(McpDiscordError::ResponseSerializeError("key must be a string".to_string())))
    );
    assert_eq!(
        run(&env, "1", vec![Outcome::Failed("Missing Access".to_string())]).1,
        Some(Err(McpDiscordError::DiscordApiError("Missing Access".to_string())))
    );
    assert_eq!(
        run(&env, "1", vec![Outcome::Nothing]).1,
        Some(Err(McpDiscordError::DiscordApiError("unexpected outcome".to_string())))
    );
}

#[test]
fn test_post_dm_tool() {
    let env = discord_env();
    let (asked, result) = play_discord(
        |replies| post_dm_tool(&env, "20", "Test DM from automated testing", replies),
        vec![Outcome::Id(777), Outcome::Text("{\"id\":\"9\"}".to_string())],
    );
    assert_eq!(
        asked,
        vec![
            as_bot(DiscordCall::CreateDmChannel { user_id: 20 }),
            as_bot(DiscordCall::Say {
                channel_id: 777,
                content: "Test DM from automated testing".to_string()
            }),
        ]
    );
    let content = result.expect("ended").expect("content");
    assert!(format!("{:?}", content).len() > 0);
    assert_eq!(content.into_items(), discord_text("{\"id\":\"9\"}"));
}

#[test]
fn post_dm_reports_what_went_wrong() {
    let env = discord_env();
    let run = |env: &Vec<Pair>, user: &str, script: Vec<Outcome>| {
        play_discord(|replies| post_dm_tool(env, user, "hi", replies), script)
    };
    assert_eq!(run(&vec![], "u", vec![]).1, Some(Err(McpDiscordError::MissingDiscordToken)));
    assert_eq!(run(&env, "u", vec![]).1, Some(Err(McpDiscordError::InvalidUserID("u".to_string()))));
    let (asked, result) = run(&env, "2", vec![Outcome::Failed("Cannot send".to_string())]);
    assert_eq!(asked.len(), 1);
    assert_eq!(result, Some(Err(McpDiscordError::DiscordApiError("Cannot send".to_string()))));
    let (asked, result) =
        run(&env, "2", vec![Outcome::Id(3), Outcome::Failed("Cannot send".to_string())]);
    assert_eq!(asked.len(), 2);
    assert_eq!(result, Some(Err(McpDiscordError::DiscordApiError("Cannot send".to_string()))));
    assert_eq!(
        run(&env, "2", vec![Outcome::Id(3), Outcome::Malformed("nan".to_string())]).1,
        Some(Err(McpDiscordError::ResponseSerializeError("nan".to_string())))
    );
}

#[test]
fn test_post_message_tool() {
    let env = discord_env();
    let (asked, result) = play_discord(
        |replies| post_message_tool(&env, "1100", "Test message from automated testing", replies),
        vec![Outcome::Text("{\"id\":\"5\"}".to_string())],
    );
    assert_eq!(
        asked,
        vec![as_bot(DiscordCall::Say {
            channel_id: 1100,
            content: "Test message from automated testing".to_string()
        })]
    );
    let content = result.expect("ended").expect("content");
    assert!(format!("{:?}", content).len() > 0);
    assert_eq!(content.into_items(), discord_text("{\"id\":\"5\"}"));
    assert_eq!(
        play_discord(|replies| post_message_tool(&vec![], "1100", "x", replies), vec![]).1,
        Some(Err(McpDiscordError::MissingDiscordToken))
    );
    assert_eq!(
        play_discord(|replies| post_message_tool(&env, "#general", "x", replies), vec![]).1,
        Some(Err(McpDiscordError::InvalidChannelID("#general".to_string())))
    );
}

#[test]
fn test_post_webhook_tool() {
    let url = "https://discord.com/api/webhooks/1/token";
    let without_token = |call| Effect::Discord { token: String::new(), call };
    let (asked, result) = play_discord(
        |replies| post_webhook_tool(url, "Test webhook message from automated testing", replies),
        vec![Outcome::Nothing, Outcome::Text("{\"id\":\"6\"}".to_string())],
    );
    assert_eq!(
        asked,
        vec![
            without_token(DiscordCall::ResolveWebhook { url: url.to_string() }),
            without_token(DiscordCall::ExecuteWebhook {
                url: url.to_string(),
                content: "Test webhook message from automated testing".to_string()
            }),
        ]
    );
    let content = result.expect("ended").expect("content");
    assert!(format!("{:?}", content).len() > 0);
    assert_eq!(content.into_items(), discord_text("{\"id\":\"6\"}"));
}

#[test]
fn post_webhook_reports_what_went_wrong() {
    let run =
        |content: &str, script: Vec<Outcome>| play_discord(|replies| post_webhook_tool("u", content, replies), script);
    assert_eq!(
        run("", vec![]),
        (vec![], Some(Err(McpDiscordError::InvalidContent("Content cannot be empty".to_string()))))
    );
    let (asked, result) = run("hi", vec![Outcome::Failed("not a webhook".to_string())]);
    assert_eq!(asked.len(), 1);
    assert_eq!(result, Some(Err(McpDiscordError::InvalidWebhookURL("not a webhook".to_string()))));
    let (asked, result) = run("hi", vec![Outcome::Nothing, Outcome::Nothing]);
    assert_eq!(asked.len(), 2);
    assert_eq!(
        result,
        Some(Err(McpDiscordError::InvalidContent("Failed to send message".to_string())))
    );
    assert_eq!(
        run("hi", vec![Outcome::Nothing, Outcome::Failed("429".to_string())]).1,
        Some(Err(McpDiscordError::DiscordApiError("429".to_string())))
    );
    assert_eq!(
        run("hi", vec![Outcome::Nothing, Outcome::Malformed("bad".to_string())]).1,
        Some(Err(McpDiscordError::ResponseSerializeError("bad".to_string())))
    );
}
