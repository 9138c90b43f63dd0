//! The tool that fetches the metadata of a model.

use vstd::prelude::*;
use crate::content::{ContentEnvelope, ErrorKind, ReplicateErrorKind, ToolResponseContent};
use crate::effect::{
    exchange, fails, failure_text, find_pair, get_of, is_success, no_keys, no_pairs, pair_value,
    pairs_view, push_pair, reading, reads_json, sends, status_is_success, yields_text, Exchange,
    HttpRequest, Outcome, Pair, Reading, Step,
};
use crate::servers::replicate::errors::McpReplicateError;
use crate::text::concat;

verus! {

/// What `get_model_info_tool` does, given the API token that the
/// environment holds, if any, and the answers so far.
///
/// Without a token it fails. It asks for the model; a response whose
/// status is no success ends it with `ContentParseError` and the body. Then
/// it asks for the response to be read as JSON, and ends with that JSON as
/// text. A call that fails ends it with `HttpError`.
pub open spec fn get_model_info_step(
    step: Step<McpReplicateError>,
    token: Option<Seq<char>>,
    model_id: Seq<char>,
    replies: Seq<Outcome>,
) -> bool {
    match token {
        None => fails(step, ErrorKind::Replicate(ReplicateErrorKind::MissingToken), Seq::empty()),
        Some(token) => if replies.len() == 0 {
            sends(
                step,
                get_of(
                    "https://api.replicate.com/v1/models/"@ + model_id,
                    seq![("authorization"@, "Token "@ + token)],
                ),
            )
        } else {
            match replies[0] {
                Outcome::Http { status, status_line, body } => if !is_success(status) {
                    fails(
                        step,
                        ErrorKind::Replicate(ReplicateErrorKind::ContentParseError),
                        "API error: "@ + body@,
                    )
                } else if replies.len() == 1 {
                    reads_json(step, body@, Seq::empty())
                } else {
                    match replies[1] {
                        Outcome::Json(doc) => yields_text(step, doc.rendered@),
                        other => fails(
                            step,
                            ErrorKind::Replicate(ReplicateErrorKind::HttpError),
                            failure_text(other),
                        ),
                    }
                },
                other => fails(
                    step,
                    ErrorKind::Replicate(ReplicateErrorKind::HttpError),
                    failure_text(other),
                ),
            }
        },
    }
}

/// The headers that sign a request with `token`.
pub fn token_headers(token: &str) -> (headers: Vec<Pair>)
    ensures
        pairs_view(headers@) == seq![("authorization"@, "Token "@ + token@)],
{
    let mut headers = no_pairs();
    push_pair(&mut headers, "authorization", concat("Token ", token).as_str());
    proof {
        assert(pairs_view(headers@) =~= seq![("authorization"@, "Token "@ + token@)]);
    }
    headers
}

/// Fetches the metadata of the model `model_id`: the next thing to ask
/// for, or the result, given the answers so far.
pub fn get_model_info_tool(env: &Vec<Pair>, model_id: &str, replies: &Vec<Outcome>) -> (step: Step<
    McpReplicateError,
>)
    ensures
        get_model_info_step(
            step,
            pair_value(env@, "REPLICATE_API_TOKEN"@),
            model_id@,
            replies@,
        ),
{
    let token = match find_pair(env, "REPLICATE_API_TOKEN") {
        Some(token) => token,
        None => {
            return Step::Done(Err(McpReplicateError::MissingToken));
        },
    };
    let url = concat("https://api.replicate.com/v1/models/", model_id);
    let request = HttpRequest::get(url, token_headers(token.as_str()));
    match exchange(request, replies, 0) {
        Exchange::Ask(effect) => Step::Perform(effect),
        Exchange::Failed(message) => Step::Done(Err(McpReplicateError::HttpError(message))),
        Exchange::Reply { status, status_line, body } => {
            if !status_is_success(status) {
                return Step::Done(
                    Err(McpReplicateError::ContentParseError(concat("API error: ", body.as_str()))),
                );
            }
            match reading(body, no_keys(), replies, 1) {
                Reading::Ask(effect) => Step::Perform(effect),
                Reading::Failed(message) => Step::Done(Err(McpReplicateError::HttpError(message))),
                Reading::Read(doc) => Step::Done(
                    Ok(ContentEnvelope::single(ToolResponseContent::text(doc.rendered.clone()))),
                ),
            }
        },
    }
}

} // verus!
