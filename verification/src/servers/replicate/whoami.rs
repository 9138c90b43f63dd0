//! The tool that says whom the API token belongs to.

use vstd::prelude::*;
use crate::content::{ContentEnvelope, ErrorKind, ReplicateErrorKind, ToolResponseContent};
use crate::effect::{
    exchange, fails, failure_text, find_pair, get_of, is_success, pair_value, sends,
    status_is_success, yields_text, Exchange, HttpRequest, Outcome, Pair, Step,
};
use crate::servers::replicate::errors::McpReplicateError;
use crate::servers::replicate::get_model_info::token_headers;
use crate::text::concat;

verus! {

/// What `whoami_tool` does, given the API token that the environment
/// holds, if any, and the answers so far.
///
/// Without a token it fails. It asks for the account. A response whose
/// status is a success ends it with the body of the response; any other
/// response ends it with `ContentParseError` and the body. A call that fails
/// ends it with `HttpError`.
pub open spec fn whoami_step(
    step: Step<McpReplicateError>,
    token: Option<Seq<char>>,
    replies: Seq<Outcome>,
) -> bool {
    match token {
        None => fails(step, ErrorKind::Replicate(ReplicateErrorKind::MissingToken), Seq::empty()),
        Some(token) => if replies.len() == 0 {
            sends(
                step,
                get_of(
                    "https://api.replicate.com/v1/user"@,
                    seq![("authorization"@, "Token "@ + token)],
                ),
            )
        } else {
            match replies[0] {
                Outcome::Http { status, status_line, body } => if is_success(status) {
                    yields_text(step, body@)
                } else {
                    fails(
                        step,
                        ErrorKind::Replicate(ReplicateErrorKind::ContentParseError),
                        "API error: "@ + body@,
                    )
                },
                other => fails(
                    step,
                    ErrorKind::Replicate(ReplicateErrorKind::HttpError),
                    failure_text(other),
                ),
            }
        },
    }
}

/// Fetches the account that the API token belongs to: the next thing to
/// ask for, or the result, given the answers so far.
pub fn whoami_tool(env: &Vec<Pair>, replies: &Vec<Outcome>) -> (step: Step<McpReplicateError>)
    ensures
        whoami_step(step, pair_value(env@, "REPLICATE_API_TOKEN"@), replies@),
{
    let token = match find_pair(env, "REPLICATE_API_TOKEN") {
        Some(token) => token,
        None => {
            return Step::Done(Err(McpReplicateError::MissingToken));
        },
    };
    let request = HttpRequest::get(
        String::from_str("https://api.replicate.com/v1/user"),
        token_headers(token.as_str()),
    );
    match exchange(request, replies, 0) {
        Exchange::Ask(effect) => Step::Perform(effect),
        Exchange::Failed(message) => Step::Done(Err(McpReplicateError::HttpError(message))),
        Exchange::Reply { status, status_line, body } => {
            if status_is_success(status) {
                Step::Done(Ok(ContentEnvelope::single(ToolResponseContent::text(body.clone()))))
            } else {
                Step::Done(
                    Err(McpReplicateError::ContentParseError(concat("API error: ", body.as_str()))),
                )
            }
        },
    }
}

} // verus!
