//! The Twitter server: its tools, what a registry holds for each of them,
//! and how a call reaches the tool.

use vstd::prelude::*;
use crate::content::NormalizedError;
use crate::dispatch::{number_arg, number_argument, text_arg, text_argument, Argument};
use crate::effect::{Outcome, Pair, Step, MOST_EFFECTS};
use crate::registry::{
    no_params, param_views, push_param, ParamKind, ParamView, Registry, ServerCapabilities,
    ToolDescriptor,
};
use crate::servers::tool::{catalog, describes, normalized, reject, rejects, Tool};
use crate::servers::twitter::errors::McpTwitterError;
use crate::servers::twitter::get_timeline::{get_timeline_step, get_timeline_tool};
use crate::servers::twitter::post_tweet::{post_tweet_step, post_tweet_tool};
use crate::servers::twitter::reply_to_tweet::{reply_to_tweet_step, reply_to_tweet_tool};
use crate::servers::twitter::search_tweets::{search_tweets_step, search_tweets_tool};

verus! {

/// The tools of the Twitter server.
#[derive(Clone, Copy, Debug, PartialEq, Eq, Structural)]
pub enum TwitterTool {
    GetTimeline,
    PostTweet,
    ReplyToTweet,
    SearchTweets,
}

/// The name under which `tool` is registered.
pub open spec fn tool_name(tool: TwitterTool) -> Seq<char> {
    match tool {
        TwitterTool::GetTimeline => "GetTimeline"@,
        TwitterTool::PostTweet => "PostTweet"@,
        TwitterTool::ReplyToTweet => "ReplyToTweet"@,
        TwitterTool::SearchTweets => "SearchTweets"@,
    }
}

/// What `tool` is said to do.
pub open spec fn tool_description(tool: TwitterTool) -> Seq<char> {
    match tool {
        TwitterTool::GetTimeline =>
            "Fetches the user's timeline from Twitter. Required API and ACCESS values can be valued as 'null' if the info is not available."@,
        TwitterTool::PostTweet =>
            "Post a tweet to Twitter. Required API and ACCESS values can be valued as 'null' if the info is not available."@,
        TwitterTool::ReplyToTweet =>
            "Reply a tweet to Twitter. Required API and ACCESS values can be valued as 'null' if the info is not available."@,
        TwitterTool::SearchTweets =>
            "Search tweets from Twitter. Required API and ACCESS values can be valued as 'null' if the info is not available."@,
    }
}

/// The parameters that `tool` declares, in the order of their declaration.
pub open spec fn tool_parameters(tool: TwitterTool) -> Seq<ParamView> {
    match tool {
        TwitterTool::GetTimeline => seq![
            ParamView {
                name: "count"@,
                description: "The max count of tweets to be fetched"@,
                kind: ParamKind::Number,
                required: false,
            },
            ParamView {
                name: "latest_id"@,
                description: "The Tweet ID to fetch tweets after"@,
                kind: ParamKind::Number,
                required: false,
            },
        ],
        TwitterTool::PostTweet => seq![
            ParamView {
                name: "tweet"@,
                description: "Text to post on Twitter"@,
                kind: ParamKind::Text,
                required: true,
            },
        ],
        TwitterTool::ReplyToTweet => seq![
            ParamView {
                name: "reply"@,
                description: "Text for Twitter reply"@,
                kind: ParamKind::Text,
                required: true,
            },
            ParamView {
                name: "reply_to_tweet_id"@,
                description: "Tweet ID to reply to"@,
                kind: ParamKind::Number,
                required: true,
            },
        ],
        TwitterTool::SearchTweets => seq![
            ParamView {
                name: "query"@,
                description: "Search query for Twitter search"@,
                kind: ParamKind::Text,
                required: true,
            },
            ParamView {
                name: "count"@,
                description: "The max count of tweets to be fetched"@,
                kind: ParamKind::Number,
                required: false,
            },
            ParamView {
                name: "sort_order"@,
                description: "The Twitter sort method used for the search"@,
                kind: ParamKind::Text,
                required: false,
            },
        ],
    }
}

/// The tools of the Twitter server, in the order of their registration.
pub open spec fn tools() -> Seq<Tool> {
    seq![
        Tool::Twitter(TwitterTool::GetTimeline),
        Tool::Twitter(TwitterTool::PostTweet),
        Tool::Twitter(TwitterTool::ReplyToTweet),
        Tool::Twitter(TwitterTool::SearchTweets),
    ]
}

/// Every tool has a name, and no two tools share one.
pub proof fn lemma_tool_names_differ(a: TwitterTool, b: TwitterTool)
    ensures
        tool_name(a).len() > 0,
        a != b ==> tool_name(a) != tool_name(b),
{
    reveal_strlit("GetTimeline");
    reveal_strlit("PostTweet");
    reveal_strlit("ReplyToTweet");
    reveal_strlit("SearchTweets");
    assert("ReplyToTweet"@[0] != "SearchTweets"@[0]);
}

/// What a registry holds for `tool`.
pub fn descriptor(tool: TwitterTool) -> (descriptor: ToolDescriptor<Tool>)
    ensures
        describes(descriptor, Tool::Twitter(tool)),
{
    let mut parameters = no_params();
    let (name, description) = match tool {
        TwitterTool::GetTimeline => {
            push_param(
                &mut parameters,
                "count",
                "The max count of tweets to be fetched",
                ParamKind::Number,
                false,
            );
            push_param(
                &mut parameters,
                "latest_id",
                "The Tweet ID to fetch tweets after",
                ParamKind::Number,
                false,
            );
            (
                "GetTimeline",
                "Fetches the user's timeline from Twitter. Required API and ACCESS values can be valued as 'null' if the info is not available.",
            )
        },
        TwitterTool::PostTweet => {
            push_param(&mut parameters, "tweet", "Text to post on Twitter", ParamKind::Text, true);
            (
                "PostTweet",
                "Post a tweet to Twitter. Required API and ACCESS values can be valued as 'null' if the info is not available.",
            )
        },
        TwitterTool::ReplyToTweet => {
            push_param(&mut parameters, "reply", "Text for Twitter reply", ParamKind::Text, true);
            push_param(
                &mut parameters,
                "reply_to_tweet_id",
                "Tweet ID to reply to",
                ParamKind::Number,
                true,
            );
            (
                "ReplyToTweet",
                "Reply a tweet to Twitter. Required API and ACCESS values can be valued as 'null' if the info is not available.",
            )
        },
        TwitterTool::SearchTweets => {
            push_param(
                &mut parameters,
                "query",
                "Search query for Twitter search",
                ParamKind::Text,
                true,
            );
            push_param(
                &mut parameters,
                "count",
                "The max count of tweets to be fetched",
                ParamKind::Number,
                false,
            );
            push_param(
                &mut parameters,
                "sort_order",
                "The Twitter sort method used for the search",
                ParamKind::Text,
                false,
            );
            (
                "SearchTweets",
                "Search tweets from Twitter. Required API and ACCESS values can be valued as 'null' if the info is not available.",
            )
        },
    };
    proof {
        assert(param_views(parameters@) =~= tool_parameters(tool));
    }
    ToolDescriptor {
        name: String::from_str(name),
        description: String::from_str(description),
        parameters,
        handler: Tool::Twitter(tool),
    }
}

/// The registry of the Twitter server: named `Twitter`, in version 0.1.0,
/// declaring tools and nothing else, holding its tools in the order of
/// `tools`, and built.
pub fn protocol() -> (registry: Registry<Tool>)
    ensures
        registry@.server_name == "Twitter"@,
        registry@.server_version == "0.1.0"@,
        registry@.capabilities == (ServerCapabilities {
            tools: true,
            prompts: false,
            resources: false,
            logging: false,
            experimental: false,
        }),
        registry@.frozen,
        registry@.wf(),
        catalog(registry@.tools, tools()),
{
    let mut registry: Registry<Tool> = Registry::new(
        String::from_str("Twitter"),
        String::from_str("0.1.0"),
    ).capabilities(
        ServerCapabilities {
            tools: true,
            prompts: false,
            resources: false,
            logging: false,
            experimental: false,
        },
    );
    proof {
        assert forall|a: TwitterTool, b: TwitterTool|
            tool_name(a).len() > 0 && (a != b ==> #[trigger] tool_name(a) != #[trigger] tool_name(
                b,
            )) by {
            lemma_tool_names_differ(a, b);
        }
    }
    let _ = registry.register(descriptor(TwitterTool::GetTimeline));
    let _ = registry.register(descriptor(TwitterTool::PostTweet));
    let _ = registry.register(descriptor(TwitterTool::ReplyToTweet));
    let _ = registry.register(descriptor(TwitterTool::SearchTweets));
    registry.build()
}

/// What a call of `tool` does, given the arguments and the answers so
/// far. It fails with the first required argument that is missing or has
/// the wrong shape; an optional argument of the wrong shape counts as not
/// given. Else it does what the tool does, with the failure of the tool, if
/// it ends in one, in the uniform shape.
pub open spec fn call_step(
    step: Step<NormalizedError>,
    tool: TwitterTool,
    env: Seq<Pair>,
    arguments: Seq<Argument>,
    replies: Seq<Outcome>,
) -> bool {
    match tool {
        TwitterTool::GetTimeline => exists|inner: Step<McpTwitterError>|
            #[trigger] normalized(step, inner)
            && get_timeline_step(
                inner,
                env,
                number_argument(arguments, "count"@),
                number_argument(arguments, "latest_id"@),
                replies,
            ),
        TwitterTool::PostTweet => match text_argument(arguments, "tweet"@) {
            None => rejects(step, "tweet"@),
            Some(tweet) => exists|inner: Step<McpTwitterError>|
                #[trigger] normalized(step, inner)
                && post_tweet_step(inner, env, tweet, replies),
        },
        TwitterTool::ReplyToTweet => match text_argument(arguments, "reply"@) {
            None => rejects(step, "reply"@),
            Some(reply) => match number_argument(arguments, "reply_to_tweet_id"@) {
                None => rejects(step, "reply_to_tweet_id"@),
                Some(reply_to_tweet_id) => exists|inner: Step<McpTwitterError>|
                    #[trigger] normalized(step, inner)
                    && reply_to_tweet_step(inner, env, reply, reply_to_tweet_id, replies),
            },
        },
        TwitterTool::SearchTweets => match text_argument(arguments, "query"@) {
            None => rejects(step, "query"@),
            Some(query) => exists|inner: Step<McpTwitterError>|
                #[trigger] normalized(step, inner)
                && search_tweets_step(
                    inner,
                    env,
                    query,
                    number_argument(arguments, "count"@),
                    text_argument(arguments, "sort_order"@),
                    replies,
                ),
        },
    }
}

/// A call comes to its end: once as many answers are there as a tool asks
/// for at most, the call asks for nothing more.
pub proof fn lemma_call_ends(
    step: Step<NormalizedError>,
    tool: TwitterTool,
    env: Seq<Pair>,
    arguments: Seq<Argument>,
    replies: Seq<Outcome>,
)
    requires
        call_step(step, tool, env, arguments, replies),
        replies.len() >= MOST_EFFECTS,
    ensures
        step is Done,
{
}

/// Calls `tool` with `arguments`: the next thing to ask for, or the
/// result, given the answers so far.
pub fn call(
    tool: TwitterTool,
    env: &Vec<Pair>,
    arguments: &Vec<Argument>,
    replies: &Vec<Outcome>,
) -> (step: Step<NormalizedError>)
    ensures
        call_step(step, tool, env@, arguments@, replies@),
{
    match tool {
        TwitterTool::GetTimeline => {
            finish(get_timeline_tool(
                env,
                number_arg(arguments, "count"),
                number_arg(arguments, "latest_id"),
                replies,
            ))
        },
        TwitterTool::PostTweet => {
            let tweet = match text_arg(arguments, "tweet") {
                Some(value) => value,
                None => {
                    return reject("tweet");
                },
            };
            finish(post_tweet_tool(env, tweet, replies))
        },
        TwitterTool::ReplyToTweet => {
            let reply = match text_arg(arguments, "reply") {
                Some(value) => value,
                None => {
                    return reject("reply");
                },
            };
            let reply_to_tweet_id = match number_arg(arguments, "reply_to_tweet_id") {
                Some(value) => value,
                None => {
                    return reject("reply_to_tweet_id");
                },
            };
            finish(reply_to_tweet_tool(env, reply, reply_to_tweet_id, replies))
        },
        TwitterTool::SearchTweets => {
            let query = match text_arg(arguments, "query") {
                Some(value) => value,
                None => {
                    return reject("query");
                },
            };
            finish(search_tweets_tool(
                env,
                query,
                number_arg(arguments, "count"),
                text_arg(arguments, "sort_order"),
                replies,
            ))
        },
    }
}

/// The step `inner` of a tool, with its failure, if it ends in one, in the
/// uniform shape.
fn finish(inner: Step<McpTwitterError>) -> (step: Step<NormalizedError>)
    ensures
        normalized(step, inner),
{
    match inner {
        Step::Perform(effect) => Step::Perform(effect),
        Step::Done(Ok(envelope)) => Step::Done(Ok(envelope)),
        Step::Done(Err(error)) => Step::Done(Err(error.normalize())),
    }
}

} // verus!
