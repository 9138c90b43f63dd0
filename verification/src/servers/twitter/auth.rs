//! What the Twitter tools have in common: the credentials that they read
//! from the environment, and how they read the answer to a call.

use vstd::prelude::*;
use crate::content::{ContentEnvelope, ErrorKind, ToolResponseContent, TwitterErrorKind};
use crate::dispatch::Number;
use crate::effect::{
    fails, failure_text, find_pair, pair_value, yields_text, Effect, Outcome, Pair, Step,
    TwitterCall, TwitterCredentials,
};
use crate::servers::twitter::errors::McpTwitterError;

verus! {

/// The mathematical value of a set of credentials.
pub struct CredentialsView {
    pub api_key: Seq<char>,
    pub api_secret: Seq<char>,
    pub access_token: Seq<char>,
    pub access_token_secret: Seq<char>,
}

impl View for TwitterCredentials {
    type V = CredentialsView;

    open spec fn view(&self) -> CredentialsView {
        CredentialsView {
            api_key: self.api_key@,
            api_secret: self.api_secret@,
            access_token: self.access_token@,
            access_token_secret: self.access_token_secret@,
        }
    }
}

/// The credentials that the environment `env` holds, or the kind of the
/// failure for the first of the four that it lacks.
pub open spec fn credentials_of(env: Seq<Pair>) -> Result<CredentialsView, TwitterErrorKind> {
    match pair_value(env, "TWITTER_API_KEY"@) {
        None => Err(TwitterErrorKind::MissingTwitterApiKey),
        Some(api_key) => match pair_value(env, "TWITTER_API_SECRET"@) {
            None => Err(TwitterErrorKind::MissingTwitterApiSecret),
            Some(api_secret) => match pair_value(env, "TWITTER_ACCESS_TOKEN"@) {
                None => Err(TwitterErrorKind::MissingTwitterAccessToken),
                Some(access_token) => match pair_value(env, "TWITTER_ACCESS_TOKEN_SECRET"@) {
                    None => Err(TwitterErrorKind::MissingTwitterAccessTokenSecret),
                    Some(access_token_secret) => Ok(
                        CredentialsView { api_key, api_secret, access_token, access_token_secret },
                    ),
                },
            },
        },
    }
}

/// Reads the credentials from the environment.
pub fn read_credentials(env: &Vec<Pair>) -> (credentials: Result<TwitterCredentials, McpTwitterError>)
    ensures
        match credentials {
            Ok(found) => credentials_of(env@) == Ok::<CredentialsView, TwitterErrorKind>(found@),
            Err(error) => error@.detail == Seq::<char>::empty() && (credentials_of(env@) matches Err(
                kind,
            ) && error@.kind == ErrorKind::Twitter(kind)),
        },
{
    let api_key = match find_pair(env, "TWITTER_API_KEY") {
        Some(value) => value.clone(),
        None => {
            return Err(McpTwitterError::MissingTwitterApiKey);
        },
    };
    let api_secret = match find_pair(env, "TWITTER_API_SECRET") {
        Some(value) => value.clone(),
        None => {
            return Err(McpTwitterError::MissingTwitterApiSecret);
        },
    };
    let access_token = match find_pair(env, "TWITTER_ACCESS_TOKEN") {
        Some(value) => value.clone(),
        None => {
            return Err(McpTwitterError::MissingTwitterAccessToken);
        },
    };
    let access_token_secret = match find_pair(env, "TWITTER_ACCESS_TOKEN_SECRET") {
        Some(value) => value.clone(),
        None => {
            return Err(McpTwitterError::MissingTwitterAccessTokenSecret);
        },
    };
    Ok(TwitterCredentials { api_key, api_secret, access_token, access_token_secret })
}

/// The whole number that a number turns into: zero for a number below
/// zero, and else the number without its fraction.
pub open spec fn whole_of(number: Number) -> u64 {
    if number.below_zero {
        0
    } else {
        number.whole
    }
}

/// Turns a number into a whole number.
pub fn to_whole(number: &Number) -> (whole: u64)
    ensures
        whole == whole_of(*number),
{
    if number.below_zero {
        0
    } else {
        number.whole
    }
}

/// The step asks for the user that `credentials` belong to.
pub open spec fn asks_for_user(step: Step<McpTwitterError>, credentials: CredentialsView) -> bool {
    step matches Step::Perform(Effect::Twitter { credentials: used, call: TwitterCall::GetMe })
        && used@ == credentials
}

/// The step asks for the tweet `text` to be posted, as a reply where
/// `in_reply_to` names a tweet.
pub open spec fn posts_tweet(
    step: Step<McpTwitterError>,
    credentials: CredentialsView,
    text: Seq<char>,
    in_reply_to: Option<u64>,
) -> bool {
    step matches Step::Perform(
        Effect::Twitter { credentials: used, call: TwitterCall::PostTweet { text: posted, in_reply_to: to } },
    ) && used@ == credentials && posted@ == text && to == in_reply_to
}

/// The step ends the tool as the answer `reply` to a call for tweets has
/// it: with the tweets as JSON text, with the failure `missing` where
/// nothing came back, with `ResponseSerializeError` where what came back
/// could not be written as JSON, and with `TwitterApiError` where the call
/// failed.
pub open spec fn ends_with_tweets(
    step: Step<McpTwitterError>,
    reply: Outcome,
    missing: TwitterErrorKind,
) -> bool {
    match reply {
        Outcome::Text(text) => yields_text(step, text@),
        Outcome::Nothing => fails(step, ErrorKind::Twitter(missing), Seq::empty()),
        Outcome::Malformed(message) => fails(
            step,
            ErrorKind::Twitter(TwitterErrorKind::ResponseSerializeError),
            message@,
        ),
        other => fails(
            step,
            ErrorKind::Twitter(TwitterErrorKind::TwitterApiError),
            failure_text(other),
        ),
    }
}

/// Ends a tool as the answer `reply` to a call for tweets has it. `missing`
/// is the failure for an answer without tweets; it carries no detail.
pub fn end_with_tweets(reply: &Outcome, missing: McpTwitterError) -> (step: Step<McpTwitterError>)
    requires
        missing@.detail == Seq::<char>::empty(),
        missing@.kind is Twitter,
    ensures
        ends_with_tweets(step, *reply, missing@.kind->Twitter_0),
{
    match reply {
        Outcome::Text(text) => Step::Done(
            Ok(ContentEnvelope::single(ToolResponseContent::text(text.clone()))),
        ),
        Outcome::Nothing => Step::Done(Err(missing)),
        Outcome::Malformed(message) => Step::Done(
            Err(McpTwitterError::ResponseSerializeError(message.clone())),
        ),
        other => Step::Done(Err(McpTwitterError::TwitterApiError(other.failure()))),
    }
}

} // verus!
