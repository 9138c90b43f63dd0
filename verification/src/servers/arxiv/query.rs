//! What the arXiv tools have in common: one request with a query, and a
//! response whose body is the result, if its status is a success.

use vstd::prelude::*;
use crate::content::{ArxivErrorKind, ContentEnvelope, ErrorKind, ToolResponseContent};
use crate::effect::{
    exchange, fails, failure_text, is_success, no_pairs, pairs_view, sends, status_is_success,
    yields_text, Exchange, HttpMethod, HttpRequest, HttpRequestView, Outcome, Pair, Step,
};
use crate::servers::arxiv::errors::McpArxivError;
use crate::text::concat;

verus! {

/// The request to get `url` with the query `query`.
pub open spec fn query_request(url: Seq<char>, query: Seq<(Seq<char>, Seq<char>)>) -> HttpRequestView {
    HttpRequestView {
        method: HttpMethod::Get,
        url,
        query,
        headers: Seq::empty(),
        body: None,
    }
}

/// What an arXiv tool does with its request, given the answers so far.
///
/// It sends the request. A response whose status is a success ends it with
/// the body of the response; any other response ends it with `ApiError`,
/// and the body behind `label`. A call that fails ends it with `HttpError`.
pub open spec fn query_step(
    step: Step<McpArxivError>,
    url: Seq<char>,
    query: Seq<(Seq<char>, Seq<char>)>,
    label: Seq<char>,
    replies: Seq<Outcome>,
) -> bool {
    if replies.len() == 0 {
        sends(step, query_request(url, query))
    } else {
        match replies[0] {
            Outcome::Http { status, status_line, body } => if is_success(status) {
                yields_text(step, body@)
            } else {
                fails(step, ErrorKind::Arxiv(ArxivErrorKind::ApiError), label + body@)
            },
            other => fails(step, ErrorKind::Arxiv(ArxivErrorKind::HttpError), failure_text(other)),
        }
    }
}

/// Sends `query` to `url`, or reads what came back. `label` begins the
/// detail of the failure for a response that is no success.
pub fn run_query(url: &str, query: Vec<Pair>, label: &str, replies: &Vec<Outcome>) -> (step: Step<
    McpArxivError,
>)
    ensures
        query_step(step, url@, pairs_view(query@), label@, replies@),
{
    let request = HttpRequest {
        method: HttpMethod::Get,
        url: String::from_str(url),
        query,
        headers: no_pairs(),
        body: None,
    };
    match exchange(request, replies, 0) {
        Exchange::Ask(effect) => Step::Perform(effect),
        Exchange::Failed(message) => Step::Done(Err(McpArxivError::HttpError(message))),
        Exchange::Reply { status, status_line, body } => {
            if status_is_success(status) {
                Step::Done(Ok(ContentEnvelope::single(ToolResponseContent::text(body.clone()))))
            } else {
                Step::Done(Err(McpArxivError::ApiError(concat(label, body.as_str()))))
            }
        },
    }
}

} // verus!
