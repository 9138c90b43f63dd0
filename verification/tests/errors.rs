use mcp_servers::bootstrap::{BootstrapError, ServerType};
use mcp_servers::content::{
    ArxivErrorKind, DiscordErrorKind, ErrorKind, HuggingFaceErrorKind, NormalizedError,
    ReplicateErrorKind, ShopifyErrorKind, TwitterErrorKind,
};
use mcp_servers::effect::Outcome;
use mcp_servers::servers::arvix::errors::McpArvixError;
use mcp_servers::servers::arxiv::errors::McpArxivError;
use mcp_servers::servers::discord::errors::McpDiscordError;
use mcp_servers::servers::huggingface::errors::McpHuggingFaceError;
use mcp_servers::servers::replicate::errors::McpReplicateError;
use mcp_servers::servers::shopify::errors::McpShopifyError;
use mcp_servers::servers::twitter::errors::McpTwitterError;

fn normal(domain: &str, kind: ErrorKind, message: &str) -> NormalizedError {
    NormalizedError { domain: domain.to_string(), kind, message: message.to_string() }
}

fn d() -> String {
    "detail".to_string()
}

#[test]
fn arxiv_failures_have_their_words() {
    let cases = [
        (McpArxivError::HttpError(d()), ArxivErrorKind::HttpError, "HTTP request error: detail"),
        (McpArxivError::ApiError(d()), ArxivErrorKind::ApiError, "API error: detail"),
    ];
    for (error, kind, message) in cases {
        assert_eq!(error.kind(), kind);
        assert_eq!(error.message(), message);
        assert_eq!(error.normalize(), normal("arxiv", ErrorKind::Arxiv(kind), message));
    }
    let cases = [
        (McpArvixError::HttpError(d()), ArxivErrorKind::HttpError, "HTTP request error: detail"),
        (McpArvixError::ApiError(d()), ArxivErrorKind::ApiError, "API error: detail"),
    ];
    for (error, kind, message) in cases {
        assert_eq!(error.kind(), kind);
        assert_eq!(error.message(), message);
        assert_eq!(error.normalize(), normal("arxiv", ErrorKind::Arxiv(kind), message));
    }
}

#[test]
fn discord_failures_have_their_words() {
    let cases = [
        (McpDiscordError::ResponseSerializeError(d()), DiscordErrorKind::ResponseSerializeError, "Failed to serialize response: detail"),
        (McpDiscordError::InvalidContent(d()), DiscordErrorKind::InvalidContent, "Invalid content: detail"),
        (McpDiscordError::InvalidWebhookURL(d()), DiscordErrorKind::InvalidWebhookURL, "Invalid WebhookURL: detail"),
        (McpDiscordError::InvalidUserID(d()), DiscordErrorKind::InvalidUserID, "Invalid UserID: detail"),
        (McpDiscordError::InvalidChannelID(d()), DiscordErrorKind::InvalidChannelID, "Invalid ChannelID: detail"),
        (McpDiscordError::InvalidMessageID(d()), DiscordErrorKind::InvalidMessageID, "Invalid MessageID: detail"),
        (McpDiscordError::DiscordApiError(d()), DiscordErrorKind::DiscordApiError, "Discord API error: detail"),
        (McpDiscordError::InvalidRoleID(d()), DiscordErrorKind::InvalidRoleID, "Invalid RoleID: detail"),
        (McpDiscordError::InvalidGuildID(d()), DiscordErrorKind::InvalidGuildID, "Invalid GuildID: detail"),
        (McpDiscordError::MissingDiscordToken, DiscordErrorKind::MissingDiscordToken, "Missing Discord Token"),
    ];
    for (error, kind, message) in cases {
        assert_eq!(error.kind(), kind);
        assert_eq!(error.message(), message);
        assert_eq!(error.normalize(), normal("discord", ErrorKind::Discord(kind), message));
    }
}

#[test]
fn huggingface_failures_have_their_words() {
    let cases = [
        (McpHuggingFaceError::HttpError(d()), HuggingFaceErrorKind::HttpError, "HTTP request error: detail"),
        (McpHuggingFaceError::MissingToken, HuggingFaceErrorKind::MissingToken, "Missing token"),
        (McpHuggingFaceError::JsonParseError(d()), HuggingFaceErrorKind::JsonParseError, "Failed to parse JSON: detail"),
        (McpHuggingFaceError::ApiError(d()), HuggingFaceErrorKind::ApiError, "API error: detail"),
    ];
    for (error, kind, message) in cases {
        assert_eq!(error.kind(), kind);
        assert_eq!(error.message(), message);
        assert_eq!(error.normalize(), normal("huggingface", ErrorKind::HuggingFace(kind), message));
    }
}

#[test]
fn replicate_failures_have_their_words() {
    let cases = [
        (McpReplicateError::HttpError(d()), ReplicateErrorKind::HttpError, "HTTP request error: detail"),
        (McpReplicateError::MissingToken, ReplicateErrorKind::MissingToken, "Missing token"),
        (McpReplicateError::ContentParseError(d()), ReplicateErrorKind::ContentParseError, "Failed to parse Content: detail"),
        (McpReplicateError::InvalidResponse(d()), ReplicateErrorKind::InvalidResponse, "Invalid response: detail"),
        (McpReplicateError::InvalidHeaderValue, ReplicateErrorKind::InvalidHeaderValue, "failed to parse header value"),
    ];
    for (error, kind, message) in cases {
        assert_eq!(error.kind(), kind);
        assert_eq!(error.message(), message);
        assert_eq!(error.normalize(), normal("replicate", ErrorKind::Replicate(kind), message));
    }
}

#[test]
fn shopify_failures_have_their_words() {
    let cases = [
        (McpShopifyError::ResponseSerializeError(d()), ShopifyErrorKind::ResponseSerializeError, "Failed to serialize response: detail"),
        (McpShopifyError::HttpError(d()), ShopifyErrorKind::HttpError, "HTTP error: detail"),
        (McpShopifyError::ApiError(d()), ShopifyErrorKind::ApiError, "API error: detail"),
        (McpShopifyError::InvalidInput(d()), ShopifyErrorKind::InvalidInput, "Invalid input: detail"),
        (McpShopifyError::MissingShopifyDomain, ShopifyErrorKind::MissingShopifyDomain, "Missing Shopify Domain"),
        (McpShopifyError::MissingShopifyAccessToken, ShopifyErrorKind::MissingShopifyAccessToken, "Missing Shopify Access Token"),
        (McpShopifyError::InvalidProductId(d()), ShopifyErrorKind::InvalidProductId, "Invalid Product ID: detail"),
        (McpShopifyError::InvalidOrderId(d()), ShopifyErrorKind::InvalidOrderId, "Invalid Order ID: detail"),
        (McpShopifyError::InvalidCustomerId(d()), ShopifyErrorKind::InvalidCustomerId, "Invalid Customer ID: detail"),
    ];
    for (error, kind, message) in cases {
        assert_eq!(error.kind(), kind);
        assert_eq!(error.message(), message);
        assert_eq!(error.normalize(), normal("shopify", ErrorKind::Shopify(kind), message));
    }
}

#[test]
fn twitter_failures_have_their_words() {
    let cases = [
        (McpTwitterError::ResponseSerializeError(d()), TwitterErrorKind::ResponseSerializeError, "Failed to serialize response: detail"),
        (McpTwitterError::MissingTwitterApiKey, TwitterErrorKind::MissingTwitterApiKey, "Missing Twitter API Key"),
        (McpTwitterError::MissingTwitterApiSecret, TwitterErrorKind::MissingTwitterApiSecret, "Missing Twitter API Secret"),
        (McpTwitterError::MissingTwitterAccessToken, TwitterErrorKind::MissingTwitterAccessToken, "Missing Twitter Access Token"),
        (
            McpTwitterError::MissingTwitterAccessTokenSecret,
            TwitterErrorKind::MissingTwitterAccessTokenSecret,
            "Missing Twitter Access Token Secret",
        ),
        (McpTwitterError::TwitterApiError(d()), TwitterErrorKind::TwitterApiError, "Twitter API error: detail"),
        (McpTwitterError::InvalidLatestID(d()), TwitterErrorKind::InvalidLatestID, "Invalid latest id: detail"),
        (McpTwitterError::InvalidCount(d()), TwitterErrorKind::InvalidCount, "Invalid count: detail"),
        (McpTwitterError::InvalidInput(d()), TwitterErrorKind::InvalidInput, "Invalid input: detail"),
        (McpTwitterError::TweetNotFound, TwitterErrorKind::TweetNotFound, "Tweet not found"),
        (McpTwitterError::TweetsNotFound, TwitterErrorKind::TweetsNotFound, "Tweets not found"),
        (McpTwitterError::InvalidReplyID(d()), TwitterErrorKind::InvalidReplyID, "Invalid reply id: detail"),
        (McpTwitterError::InvalidQuery(d()), TwitterErrorKind::InvalidQuery, "Invalid query: detail"),
        (McpTwitterError::InvalidSortOrder(d()), TwitterErrorKind::InvalidSortOrder, "Invalid sort order: detail"),
        (McpTwitterError::UserNotFound, TwitterErrorKind::UserNotFound, "User not found"),
    ];
    for (error, kind, message) in cases {
        assert_eq!(error.kind(), kind);
        assert_eq!(error.message(), message);
        assert_eq!(error.normalize(), normal("twitter", ErrorKind::Twitter(kind), message));
    }
}

#[test]
fn detail_is_kept_as_it_is() {
    let detail = "line one\nline \"two\" \u{1f44d}";
    assert_eq!(
        McpArxivError::ApiError(detail.to_string()).normalize().message,
        format!("API error: {}", detail)
    );
    assert_eq!(McpArxivError::ApiError(String::new()).message(), "API error: ");
}

#[test]
fn startup_failures_have_their_words() {
    assert_eq!(BootstrapError::NoServerSelected.message(), "No server selected");
    assert_eq!(BootstrapError::NoAvailablePort.message(), "No available ports found");
    let cases = [
        (ServerType::Arxiv, "arxiv feature is not enabled"),
        (ServerType::Twitter, "Twitter feature is not enabled"),
        (ServerType::Discord, "Discord feature is not enabled"),
        (ServerType::Shopify, "Shopify feature is not enabled"),
        (ServerType::HuggingFace, "HuggingFace feature is not enabled"),
        (ServerType::Replicate, "Replicate feature is not enabled"),
    ];
    for (server, message) in cases {
        assert_eq!(BootstrapError::FeatureNotEnabled(server).message(), message);
    }
}

#[test]
fn outcomes_that_are_no_failures_count_as_unexpected() {
    assert_eq!(Outcome::Failed("a".to_string()).failure(), "a");
    assert_eq!(Outcome::Malformed("b".to_string()).failure(), "b");
    assert_eq!(Outcome::Nothing.failure(), "unexpected outcome");
    assert_eq!(Outcome::Text("c".to_string()).failure(), "unexpected outcome");
    assert_eq!(Outcome::Id(1).failure(), "unexpected outcome");
}
