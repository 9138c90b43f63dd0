//! The tool that lists the models of Replicate.

use vstd::prelude::*;
use crate::content::{ContentEnvelope, ErrorKind, ReplicateErrorKind, ToolResponseContent};
use crate::effect::{
    exchange, fails, failure_text, find_pair, get_of, is_success, pair_value, sends,
    status_is_success, yields_text, Exchange, HttpRequest, Outcome, Pair, Step,
};
use crate::encoding::{percent_encode, url_encoded};
use crate::servers::replicate::errors::McpReplicateError;
use crate::servers::replicate::get_model_info::token_headers;
use crate::text::{concat, decimal, optional_view, to_decimal};

verus! {

/// The number of models that are asked for where no limit is given.
pub const DEFAULT_LIMIT: u64 = 10;

/// The URL that lists at most `limit` models, ten where no limit is given,
/// and only those whose name holds `name_filter` where one is given.
pub open spec fn list_models_url(name_filter: Option<Seq<char>>, limit: Option<u64>) -> Seq<char> {
    let listing = "https://api.replicate.com/v1/models?limit="@ + decimal(
        match limit {
            Some(n) => n as nat,
            None => DEFAULT_LIMIT as nat,
        },
    );
    match name_filter {
        Some(filter) => listing + "&filter[name][contains]="@ + url_encoded(filter),
        None => listing,
    }
}

/// What `list_models_tool` does, given the API token that the environment
/// holds, if any, and the answers so far.
///
/// Without a token it fails. It asks for the list. A response whose status
/// is a success ends it with the body of the response; any other response
/// ends it with `ContentParseError` and the body. A call that fails ends it
/// with `HttpError`.
pub open spec fn list_models_step(
    step: Step<McpReplicateError>,
    token: Option<Seq<char>>,
    name_filter: Option<Seq<char>>,
    limit: Option<u64>,
    replies: Seq<Outcome>,
) -> bool {
    match token {
        None => fails(step, ErrorKind::Replicate(ReplicateErrorKind::MissingToken), Seq::empty()),
        Some(token) => if replies.len() == 0 {
            sends(
                step,
                get_of(
                    list_models_url(name_filter, limit),
                    seq![("authorization"@, "Token "@ + token)],
                ),
            )
        } else {
            match replies[0] {
                Outcome::Http { status, status_line, body } => if is_success(status) {
                    yields_text(step, body@)
                } else {
                    fails(
                        step,
                        ErrorKind::Replicate(ReplicateErrorKind::ContentParseError),
                        "API error: "@ + body@,
                    )
                },
                other => fails(
                    step,
                    ErrorKind::Replicate(ReplicateErrorKind::HttpError),
                    failure_text(other),
                ),
            }
        },
    }
}

/// Lists models: the next thing to ask for, or the result, given the
/// answers so far.
pub fn list_models_tool(
    env: &Vec<Pair>,
    name_filter: Option<&str>,
    limit: Option<u64>,
    replies: &Vec<Outcome>,
) -> (step: Step<McpReplicateError>)
    ensures
        list_models_step(
            step,
            pair_value(env@, "REPLICATE_API_TOKEN"@),
            optional_view(name_filter),
            limit,
            replies@,
        ),
{
    let token = match find_pair(env, "REPLICATE_API_TOKEN") {
        Some(token) => token,
        None => {
            return Step::Done(Err(McpReplicateError::MissingToken));
        },
    };
    let count: u64 = match limit {
        Some(n) => n,
        None => DEFAULT_LIMIT,
    };
    let mut url = concat("https://api.replicate.com/v1/models?limit=", to_decimal(count).as_str());
    match name_filter {
        Some(filter) => {
            url.append("&filter[name][contains]=");
            url.append(percent_encode(filter).as_str());
        },
        None => {},
    }
    let request = HttpRequest::get(url, token_headers(token.as_str()));
    match exchange(request, replies, 0) {
        Exchange::Ask(effect) => Step::Perform(effect),
        Exchange::Failed(message) => Step::Done(Err(McpReplicateError::HttpError(message))),
        Exchange::Reply { status, status_line, body } => {
            if status_is_success(status) {
                Step::Done(Ok(ContentEnvelope::single(ToolResponseContent::text(body.clone()))))
            } else {
                Step::Done(
                    Err(McpReplicateError::ContentParseError(concat("API error: ", body.as_str()))),
                )
            }
        },
    }
}

} // verus!
