//! The tool that fetches the README of a model.

use vstd::prelude::*;
use crate::content::{ContentEnvelope, ErrorKind, HuggingFaceErrorKind, ToolResponseContent};
use crate::effect::{
    exchange, fails, failure_text, get_of, is_success, no_pairs, sends, status_is_success,
    yields_text, Exchange, HttpRequest, Outcome, Step,
};
use crate::servers::huggingface::errors::McpHuggingFaceError;
use crate::text::concat;

verus! {

/// What `get_readme_tool` does, given the answers so far.
///
/// It asks for the README of the model. A response whose status is a
/// success ends it with the body of the response; any other response ends
/// it with `ApiError` and the body. A call that fails ends it with
/// `HttpError`.
pub open spec fn get_readme_step(
    step: Step<McpHuggingFaceError>,
    model_id: Seq<char>,
    replies: Seq<Outcome>,
) -> bool {
    if replies.len() == 0 {
        sends(
            step,
            get_of("https://huggingface.co/"@ + model_id + "/raw/main/README.md"@, Seq::empty()),
        )
    } else {
        match replies[0] {
            Outcome::Http { status, status_line, body } => if is_success(status) {
                yields_text(step, body@)
            } else {
                fails(step, ErrorKind::HuggingFace(HuggingFaceErrorKind::ApiError), body@)
            },
            other => fails(
                step,
                ErrorKind::HuggingFace(HuggingFaceErrorKind::HttpError),
                failure_text(other),
            ),
        }
    }
}

/// Fetches the README of the model `model_id`: the next thing to ask for,
/// or the result, given the answers so far.
pub fn get_readme_tool(model_id: &str, replies: &Vec<Outcome>) -> (step: Step<McpHuggingFaceError>)
    ensures
        get_readme_step(step, model_id@, replies@),
{
    let mut url = concat("https://huggingface.co/", model_id);
    url.append("/raw/main/README.md");
    match exchange(HttpRequest::get(url, no_pairs()), replies, 0) {
        Exchange::Ask(effect) => Step::Perform(effect),
        Exchange::Failed(message) => Step::Done(Err(McpHuggingFaceError::HttpError(message))),
        Exchange::Reply { status, status_line, body } => {
            if status_is_success(status) {
                Step::Done(Ok(ContentEnvelope::single(ToolResponseContent::text(body.clone()))))
            } else {
                Step::Done(Err(McpHuggingFaceError::ApiError(body.clone())))
            }
        },
    }
}

} // verus!
