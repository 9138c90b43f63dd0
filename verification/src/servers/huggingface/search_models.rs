//! The tool that searches the text-to-image models.

use vstd::prelude::*;
use crate::content::{ContentEnvelope, ErrorKind, HuggingFaceErrorKind, ToolResponseContent};
use crate::effect::{
    exchange, fails, failure_text, get_of, is_success, no_pairs, sends, status_is_success,
    yields_text, Exchange, HttpRequest, Outcome, Step,
};
use crate::encoding::{percent_encode, url_encoded};
use crate::servers::huggingface::errors::McpHuggingFaceError;
use crate::text::{concat, decimal, to_decimal};

verus! {

/// The number of models that are asked for where no limit is given.
pub const DEFAULT_LIMIT: u64 = 10;

/// The URL that searches the text-to-image models for `keyword` and lists
/// at most `limit` of them, ten where no limit is given.
pub open spec fn search_models_url(keyword: Seq<char>, limit: Option<u64>) -> Seq<char> {
    "https://huggingface.co/api/models?search="@ + url_encoded(keyword)
        + "&pipeline_tag=text-to-image&limit="@ + decimal(
        match limit {
            Some(n) => n as nat,
            None => DEFAULT_LIMIT as nat,
        },
    )
}

/// What `search_models_tool` does, given the answers so far.
///
/// It asks for the search. A response whose status is a success ends it
/// with the body of the response; any other response ends it with
/// `ApiError` and the body. A call that fails ends it with `HttpError`.
pub open spec fn search_models_step(
    step: Step<McpHuggingFaceError>,
    keyword: Seq<char>,
    limit: Option<u64>,
    replies: Seq<Outcome>,
) -> bool {
    if replies.len() == 0 {
        sends(step, get_of(search_models_url(keyword, limit), Seq::empty()))
    } else {
        match replies[0] {
            Outcome::Http { status, status_line, body } => if is_success(status) {
                yields_text(step, body@)
            } else {
                fails(step, ErrorKind::HuggingFace(HuggingFaceErrorKind::ApiError), body@)
            },
            other => fails(
                step,
                ErrorKind::HuggingFace(HuggingFaceErrorKind::HttpError),
                failure_text(other),
            ),
        }
    }
}

/// Searches the text-to-image models for `keyword`: the next thing to ask
/// for, or the result, given the answers so far.
pub fn search_models_tool(keyword: &str, limit: Option<u64>, replies: &Vec<Outcome>) -> (step: Step<
    McpHuggingFaceError,
>)
    ensures
        search_models_step(step, keyword@, limit, replies@),
{
    let count: u64 = match limit {
        Some(n) => n,
        None => DEFAULT_LIMIT,
    };
    let mut url = concat(
        "https://huggingface.co/api/models?search=",
        percent_encode(keyword).as_str(),
    );
    url.append("&pipeline_tag=text-to-image&limit=");
    url.append(to_decimal(count).as_str());
    match exchange(HttpRequest::get(url, no_pairs()), replies, 0) {
        Exchange::Ask(effect) => Step::Perform(effect),
        Exchange::Failed(message) => Step::Done(Err(McpHuggingFaceError::HttpError(message))),
        Exchange::Reply { status, status_line, body } => {
            if status_is_success(status) {
                Step::Done(Ok(ContentEnvelope::single(ToolResponseContent::text(body.clone()))))
            } else {
                Step::Done(Err(McpHuggingFaceError::ApiError(body.clone())))
            }
        },
    }
}

} // verus!
