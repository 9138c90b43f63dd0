//! The tool that replies to a tweet.

use vstd::prelude::*;
use crate::content::{ErrorKind, TwitterErrorKind};
use crate::dispatch::Number;
use crate::effect::{fails, Effect, Outcome, Pair, Step, TwitterCall};
use crate::servers::twitter::auth::{
    credentials_of, end_with_tweets, ends_with_tweets, posts_tweet, read_credentials, to_whole,
    whole_of,
};
use crate::servers::twitter::errors::McpTwitterError;

verus! {

/// What `reply_to_tweet_tool` does, given the environment and the answers
/// so far.
///
/// It fails for the first credential that the environment lacks, then for
/// a reply without text, then for an ID that turns into zero. It asks for
/// the reply to be posted, and ends as the answer has it, with
/// `TweetNotFound` where nothing came back.
pub open spec fn reply_to_tweet_step(
    step: Step<McpTwitterError>,
    env: Seq<Pair>,
    reply: Seq<char>,
    reply_to_tweet_id: Number,
    replies: Seq<Outcome>,
) -> bool {
    match credentials_of(env) {
        Err(kind) => fails(step, ErrorKind::Twitter(kind), Seq::empty()),
        Ok(credentials) => if reply.len() == 0 {
            fails(step, ErrorKind::Twitter(TwitterErrorKind::InvalidInput), "Reply cannot be empty"@)
        } else if whole_of(reply_to_tweet_id) == 0 {
            fails(
                step,
                ErrorKind::Twitter(TwitterErrorKind::InvalidReplyID),
                reply_to_tweet_id.text@,
            )
        } else if replies.len() == 0 {
            posts_tweet(step, credentials, reply, Some(whole_of(reply_to_tweet_id)))
        } else {
            ends_with_tweets(step, replies[0], TwitterErrorKind::TweetNotFound)
        },
    }
}

/// Posts `reply` as a reply to the tweet `reply_to_tweet_id`: the next
/// thing to ask for, or the result, given the answers so far.
pub fn reply_to_tweet_tool(
    env: &Vec<Pair>,
    reply: &str,
    reply_to_tweet_id: &Number,
    replies: &Vec<Outcome>,
) -> (step: Step<McpTwitterError>)
    ensures
        reply_to_tweet_step(step, env@, reply@, *reply_to_tweet_id, replies@),
{
    let credentials = match read_credentials(env) {
        Ok(credentials) => credentials,
        Err(error) => {
            return Step::Done(Err(error));
        },
    };
    if reply.unicode_len() == 0 {
        return Step::Done(
            Err(McpTwitterError::InvalidInput(String::from_str("Reply cannot be empty"))),
        );
    }
    let tweet_id = to_whole(reply_to_tweet_id);
    if tweet_id == 0 {
        return Step::Done(Err(McpTwitterError::InvalidReplyID(reply_to_tweet_id.text.clone())));
    }
    if replies.len() == 0 {
        return Step::Perform(
            Effect::Twitter {
                credentials,
                call: TwitterCall::PostTweet {
                    text: String::from_str(reply),
                    in_reply_to: Some(tweet_id),
                },
            },
        );
    }
    end_with_tweets(&replies[0], McpTwitterError::TweetNotFound)
}

} // verus!
