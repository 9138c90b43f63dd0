//! The tool that says whom the API token belongs to.

use vstd::prelude::*;
use crate::content::{ContentEnvelope, ErrorKind, HuggingFaceErrorKind, ToolResponseContent};
use crate::effect::{
    exchange, fails, failure_text, find_pair, get_of, is_success, no_pairs, pair_value,
    pairs_view, push_pair, sends, status_is_success, yields_text, Exchange, HttpRequest,
    Outcome, Pair, Step,
};
use crate::servers::huggingface::errors::McpHuggingFaceError;
use crate::text::concat;

verus! {

/// What `whoami_tool` does, given the API token that the environment
/// holds, if any, and the answers so far.
///
/// Without a token it fails. It asks for the account. A response whose
/// status is a success ends it with the body of the response; any other
/// response ends it with `ApiError` and the body. A call that fails ends it
/// with `HttpError`.
pub open spec fn whoami_step(
    step: Step<McpHuggingFaceError>,
    token: Option<Seq<char>>,
    replies: Seq<Outcome>,
) -> bool {
    match token {
        None => fails(
            step,
            ErrorKind::HuggingFace(HuggingFaceErrorKind::MissingToken),
            Seq::empty(),
        ),
        Some(token) => if replies.len() == 0 {
            sends(
                step,
                get_of(
                    "https://huggingface.co/api/whoami-v2"@,
                    seq![("authorization"@, "Bearer "@ + token)],
                ),
            )
        } else {
            match replies[0] {
                Outcome::Http { status, status_line, body } => if is_success(status) {
                    yields_text(step, body@)
                } else {
                    fails(step, ErrorKind::HuggingFace(HuggingFaceErrorKind::ApiError), body@)
                },
                other => fails(
                    step,
                    ErrorKind::HuggingFace(HuggingFaceErrorKind::HttpError),
                    failure_text(other),
                ),
            }
        },
    }
}

/// Fetches the account that the API token belongs to: the next thing to
/// ask for, or the result, given the answers so far.
pub fn whoami_tool(env: &Vec<Pair>, replies: &Vec<Outcome>) -> (step: Step<McpHuggingFaceError>)
    ensures
        whoami_step(step, pair_value(env@, "HF_API_TOKEN"@), replies@),
{
    let token = match find_pair(env, "HF_API_TOKEN") {
        Some(token) => token,
        None => {
            return Step::Done(Err(McpHuggingFaceError::MissingToken));
        },
    };
    let mut headers = no_pairs();
    push_pair(&mut headers, "authorization", concat("Bearer ", token.as_str()).as_str());
    proof {
        assert(pairs_view(headers@) =~= seq![("authorization"@, "Bearer "@ + token@)]);
    }
    let request = HttpRequest::get(String::from_str("https://huggingface.co/api/whoami-v2"), headers);
    match exchange(request, replies, 0) {
        Exchange::Ask(effect) => Step::Perform(effect),
        Exchange::Failed(message) => Step::Done(Err(McpHuggingFaceError::HttpError(message))),
        Exchange::Reply { status, status_line, body } => {
            if status_is_success(status) {
                Step::Done(Ok(ContentEnvelope::single(ToolResponseContent::text(body.clone()))))
            } else {
                Step::Done(Err(McpHuggingFaceError::ApiError(body.clone())))
            }
        },
    }
}

} // verus!
