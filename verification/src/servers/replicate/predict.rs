//! What the tools that start a prediction have in common: one request to
//! the model, waited for, and the response read as JSON.

use vstd::prelude::*;
use crate::content::{ContentEnvelope, ErrorKind, ReplicateErrorKind, ToolResponseContent};
use crate::effect::{
    check_header_value, exchange, fails, failure_text, find_pair, is_header_value, is_success,
    no_keys, no_pairs, pair_value, pairs_view, push_pair, reading, reads_json, sends,
    status_is_success, yields_text, Exchange, HttpMethod, HttpRequest, HttpRequestView, Outcome,
    Pair, Reading, Step,
};
use crate::json::{Json, JsonView};
use crate::servers::replicate::errors::McpReplicateError;
use crate::text::concat;

verus! {

/// The request that starts a prediction at `url` with the input `input`,
/// signed with `token`, and asks the API to wait for the result.
pub open spec fn prediction_request(
    url: Seq<char>,
    token: Seq<char>,
    input: JsonView,
) -> HttpRequestView {
    HttpRequestView {
        method: HttpMethod::Post,
        url,
        query: Seq::empty(),
        headers: seq![
            ("authorization"@, "Token "@ + token),
            ("content-type"@, "application/json"@),
            ("Prefer"@, "wait"@),
        ],
        body: Some(JsonView::Object(seq![("input"@, input)])),
    }
}

/// What a tool that starts a prediction does, given the API token that the
/// environment holds, if any, and the answers so far.
///
/// Without a token it fails, and so it does with a token that cannot stand
/// in a header. It sends the request. A response whose status is no success
/// ends it with `ContentParseError` and the body of the response. Any other
/// response it asks to be read as JSON, and ends with that JSON as text. A
/// call that fails ends it with `HttpError`.
pub open spec fn prediction_step(
    step: Step<McpReplicateError>,
    token: Option<Seq<char>>,
    url: Seq<char>,
    input: JsonView,
    replies: Seq<Outcome>,
) -> bool {
    match token {
        None => fails(step, ErrorKind::Replicate(ReplicateErrorKind::MissingToken), Seq::empty()),
        Some(token) => if !is_header_value("Token "@ + token) {
            fails(step, ErrorKind::Replicate(ReplicateErrorKind::InvalidHeaderValue), Seq::empty())
        } else if replies.len() == 0 {
            sends(step, prediction_request(url, token, input))
        } else {
            match replies[0] {
                Outcome::Http { status, status_line, body } => if !is_success(status) {
                    fails(
                        step,
                        ErrorKind::Replicate(ReplicateErrorKind::ContentParseError),
                        "API error: "@ + body@,
                    )
                } else if replies.len() == 1 {
                    reads_json(step, body@, Seq::empty())
                } else {
                    match replies[1] {
                        Outcome::Json(doc) => yields_text(step, doc.rendered@),
                        other => fails(
                            step,
                            ErrorKind::Replicate(ReplicateErrorKind::HttpError),
                            failure_text(other),
                        ),
                    }
                },
                other => fails(
                    step,
                    ErrorKind::Replicate(ReplicateErrorKind::HttpError),
                    failure_text(other),
                ),
            }
        },
    }
}

/// Starts a prediction at `url` with the input `input`: the next thing to
/// ask for, or the result, given the answers so far.
pub fn request_prediction(env: &Vec<Pair>, url: String, input: Json, replies: &Vec<Outcome>) -> (step:
    Step<McpReplicateError>)
    ensures
        prediction_step(step, pair_value(env@, "REPLICATE_API_TOKEN"@), url@, input@, replies@),
{
    let token = match find_pair(env, "REPLICATE_API_TOKEN") {
        Some(token) => token,
        None => {
            return Step::Done(Err(McpReplicateError::MissingToken));
        },
    };
    let authorization = concat("Token ", token.as_str());
    if !check_header_value(authorization.as_str()) {
        return Step::Done(Err(McpReplicateError::InvalidHeaderValue));
    }
    let mut headers = no_pairs();
    push_pair(&mut headers, "authorization", authorization.as_str());
    push_pair(&mut headers, "content-type", "application/json");
    push_pair(&mut headers, "Prefer", "wait");
    let body = Json::object().with("input", input);
    proof {
        assert(pairs_view(headers@) =~= seq![
            ("authorization"@, "Token "@ + token@),
            ("content-type"@, "application/json"@),
            ("Prefer"@, "wait"@),
        ]);
        assert(Seq::<(Seq<char>, JsonView)>::empty().push(("input"@, input@)) =~= seq![
            ("input"@, input@),
        ]);
    }
    let request = HttpRequest {
        method: HttpMethod::Post,
        url,
        query: no_pairs(),
        headers,
        body: Some(body),
    };
    match exchange(request, replies, 0) {
        Exchange::Ask(effect) => Step::Perform(effect),
        Exchange::Failed(message) => Step::Done(Err(McpReplicateError::HttpError(message))),
        Exchange::Reply { status, status_line, body } => {
            if !status_is_success(status) {
                return Step::Done(
                    Err(McpReplicateError::ContentParseError(concat("API error: ", body.as_str()))),
                );
            }
            match reading(body, no_keys(), replies, 1) {
                Reading::Ask(effect) => Step::Perform(effect),
                Reading::Failed(message) => Step::Done(Err(McpReplicateError::HttpError(message))),
                Reading::Read(doc) => Step::Done(
                    Ok(ContentEnvelope::single(ToolResponseContent::text(doc.rendered.clone()))),
                ),
            }
        },
    }
}

} // verus!
