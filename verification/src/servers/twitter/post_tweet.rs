//! The tool that posts a tweet.

use vstd::prelude::*;
use crate::content::{ErrorKind, TwitterErrorKind};
use crate::effect::{fails, Effect, Outcome, Pair, Step, TwitterCall};
use crate::servers::twitter::auth::{
    credentials_of, end_with_tweets, ends_with_tweets, posts_tweet, read_credentials,
};
use crate::servers::twitter::errors::McpTwitterError;

verus! {

/// What `post_tweet_tool` does, given the environment and the answers so
/// far.
///
/// It fails for the first credential that the environment lacks, and then
/// for a tweet without text. It asks for the tweet to be posted, and ends as
/// the answer has it, with `TweetNotFound` where nothing came back.
pub open spec fn post_tweet_step(
    step: Step<McpTwitterError>,
    env: Seq<Pair>,
    tweet: Seq<char>,
    replies: Seq<Outcome>,
) -> bool {
    match credentials_of(env) {
        Err(kind) => fails(step, ErrorKind::Twitter(kind), Seq::empty()),
        Ok(credentials) => if tweet.len() == 0 {
            fails(step, ErrorKind::Twitter(TwitterErrorKind::InvalidInput), "Tweet cannot be empty"@)
        } else if replies.len() == 0 {
            posts_tweet(step, credentials, tweet, None)
        } else {
            ends_with_tweets(step, replies[0], TwitterErrorKind::TweetNotFound)
        },
    }
}

/// Posts `tweet`: the next thing to ask for, or the result, given the
/// answers so far.
pub fn post_tweet_tool(env: &Vec<Pair>, tweet: &str, replies: &Vec<Outcome>) -> (step: Step<
    McpTwitterError,
>)
    ensures
        post_tweet_step(step, env@, tweet@, replies@),
{
    let credentials = match read_credentials(env) {
        Ok(credentials) => credentials,
        Err(error) => {
            return Step::Done(Err(error));
        },
    };
    if tweet.unicode_len() == 0 {
        return Step::Done(
            Err(McpTwitterError::InvalidInput(String::from_str("Tweet cannot be empty"))),
        );
    }
    if replies.len() == 0 {
        return Step::Perform(
            Effect::Twitter {
                credentials,
                call: TwitterCall::PostTweet { text: String::from_str(tweet), in_reply_to: None },
            },
        );
    }
    end_with_tweets(&replies[0], McpTwitterError::TweetNotFound)
}

} // verus!
