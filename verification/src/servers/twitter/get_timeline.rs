//! The tool that fetches the timeline of the user.

use vstd::prelude::*;
use crate::content::{ErrorKind, TwitterErrorKind};
use crate::dispatch::Number;
use crate::effect::{fails, failure_text, Effect, Outcome, Pair, Step, TwitterCall};
use crate::servers::twitter::auth::{
    asks_for_user, credentials_of, end_with_tweets, ends_with_tweets, read_credentials, to_whole,
    whole_of, CredentialsView,
};
use crate::servers::twitter::errors::McpTwitterError;

verus! {

/// The step asks for tweets of the user `user_id`.
pub open spec fn asks_for_tweets(
    step: Step<McpTwitterError>,
    credentials: CredentialsView,
    user_id: u64,
    max_results: Option<u64>,
    since_id: Option<u64>,
) -> bool {
    step matches Step::Perform(
        Effect::Twitter {
            credentials: used,
            call: TwitterCall::GetUserTweets { user_id: user, max_results: most, since_id: since },
        },
    ) && used@ == credentials && user == user_id && most == max_results && since == since_id
}

/// What `get_timeline_tool` does, given the environment and the answers so
/// far.
///
/// It fails for the first credential that the environment lacks, then for
/// a count below zero, then for a latest ID that turns into zero. Only then
/// it asks for the user; a call that fails ends it with `TwitterApiError`,
/// and an answer without a user with `UserNotFound`. It asks for the tweets
/// of the user, and ends as the answer has it, with `TweetsNotFound` where
/// nothing came back.
pub open spec fn get_timeline_step(
    step: Step<McpTwitterError>,
    env: Seq<Pair>,
    count: Option<Number>,
    latest_id: Option<Number>,
    replies: Seq<Outcome>,
) -> bool {
    match credentials_of(env) {
        Err(kind) => fails(step, ErrorKind::Twitter(kind), Seq::empty()),
        Ok(credentials) => if count matches Some(c) && c.below_zero {
            fails(step, ErrorKind::Twitter(TwitterErrorKind::InvalidCount), count->0.text@)
        } else if latest_id matches Some(id) && whole_of(id) == 0 {
            fails(step, ErrorKind::Twitter(TwitterErrorKind::InvalidLatestID), latest_id->0.text@)
        } else if replies.len() == 0 {
            asks_for_user(step, credentials)
        } else {
            match replies[0] {
                Outcome::Id(user_id) => if replies.len() == 1 {
                    asks_for_tweets(
                        step,
                        credentials,
                        user_id,
                        match count {
                            Some(c) => Some(whole_of(c)),
                            None => None,
                        },
                        match latest_id {
                            Some(id) => Some(whole_of(id)),
                            None => None,
                        },
                    )
                } else {
                    ends_with_tweets(step, replies[1], TwitterErrorKind::TweetsNotFound)
                },
                Outcome::Nothing => fails(
                    step,
                    ErrorKind::Twitter(TwitterErrorKind::UserNotFound),
                    Seq::empty(),
                ),
                other => fails(
                    step,
                    ErrorKind::Twitter(TwitterErrorKind::TwitterApiError),
                    failure_text(other),
                ),
            }
        },
    }
}

/// Fetches at most `count` tweets of the user, those after the tweet
/// `latest_id` where one is given: the next thing to ask for, or the
/// result, given the answers so far.
pub fn get_timeline_tool(
    env: &Vec<Pair>,
    count: Option<&Number>,
    latest_id: Option<&Number>,
    replies: &Vec<Outcome>,
) -> (step: Step<McpTwitterError>)
    ensures
        get_timeline_step(
            step,
            env@,
            match count {
                Some(c) => Some(*c),
                None => None,
            },
            match latest_id {
                Some(id) => Some(*id),
                None => None,
            },
            replies@,
        ),
{
    let credentials = match read_credentials(env) {
        Ok(credentials) => credentials,
        Err(error) => {
            return Step::Done(Err(error));
        },
    };
    let max_results: Option<u64> = match count {
        Some(c) => {
            if c.below_zero {
                return Step::Done(Err(McpTwitterError::InvalidCount(c.text.clone())));
            }
            Some(to_whole(c))
        },
        None => None,
    };
    let since_id: Option<u64> = match latest_id {
        Some(id) => {
            let since = to_whole(id);
            if since == 0 {
                return Step::Done(Err(McpTwitterError::InvalidLatestID(id.text.clone())));
            }
            Some(since)
        },
        None => None,
    };
    if replies.len() == 0 {
        return Step::Perform(Effect::Twitter { credentials, call: TwitterCall::GetMe });
    }
    let user_id: u64 = match &replies[0] {
        Outcome::Id(user_id) => *user_id,
        Outcome::Nothing => {
            return Step::Done(Err(McpTwitterError::UserNotFound));
        },
        other => {
            return Step::Done(Err(McpTwitterError::TwitterApiError(other.failure())));
        },
    };
    if replies.len() == 1 {
        return Step::Perform(
            Effect::Twitter {
                credentials,
                call: TwitterCall::GetUserTweets { user_id, max_results, since_id },
            },
        );
    }
    end_with_tweets(&replies[1], McpTwitterError::TweetsNotFound)
}

} // verus!
