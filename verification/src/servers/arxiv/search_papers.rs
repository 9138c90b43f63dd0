//! The tool that searches the papers of arXiv.

use vstd::prelude::*;
use crate::effect::{no_pairs, pairs_view, push_pair, Outcome, Step};
use crate::servers::arxiv::errors::McpArxivError;
use crate::servers::arxiv::query::{query_step, run_query};
use crate::text::{decimal, optional_view, to_decimal};

verus! {

/// The index of the first result where none is given.
pub const DEFAULT_START: u32 = 0;

/// The number of results where none is given.
pub const DEFAULT_MAX_RESULTS: u32 = 5;

/// The query that searches for `query`, from the result number `start` on,
/// at most `max_results` of them, sorted by `sort_by` and in the order
/// `sort_order` where these are given.
pub open spec fn papers_query(
    query: Seq<char>,
    start: Option<u32>,
    max_results: Option<u32>,
    sort_by: Option<Seq<char>>,
    sort_order: Option<Seq<char>>,
) -> Seq<(Seq<char>, Seq<char>)> {
    let fixed = seq![
        ("search_query"@, query),
        (
            "start"@,
            decimal(
                match start {
                    Some(n) => n as nat,
                    None => DEFAULT_START as nat,
                },
            ),
        ),
        (
            "max_results"@,
            decimal(
                match max_results {
                    Some(n) => n as nat,
                    None => DEFAULT_MAX_RESULTS as nat,
                },
            ),
        ),
    ];
    let sorted = match sort_by {
        Some(field) => fixed.push(("sortBy"@, field)),
        None => fixed,
    };
    match sort_order {
        Some(order) => sorted.push(("sortOrder"@, order)),
        None => sorted,
    }
}

/// What `search_papers_tool` does, given the answers so far: it asks the
/// query API for the papers.
pub open spec fn search_papers_step(
    step: Step<McpArxivError>,
    query: Seq<char>,
    start: Option<u32>,
    max_results: Option<u32>,
    sort_by: Option<Seq<char>>,
    sort_order: Option<Seq<char>>,
    replies: Seq<Outcome>,
) -> bool {
    query_step(
        step,
        "http://export.arxiv.org/api/query"@,
        papers_query(query, start, max_results, sort_by, sort_order),
        "ArXiv API error: "@,
        replies,
    )
}

/// Searches the papers for `query`: the next thing to ask for, or the
/// result, given the answers so far.
pub fn search_papers_tool(
    query: &str,
    start: Option<u32>,
    max_results: Option<u32>,
    sort_by: Option<&str>,
    sort_order: Option<&str>,
    replies: &Vec<Outcome>,
) -> (step: Step<McpArxivError>)
    ensures
        search_papers_step(
            step,
            query@,
            start,
            max_results,
            optional_view(sort_by),
            optional_view(sort_order),
            replies@,
        ),
{
    let first: u32 = match start {
        Some(n) => n,
        None => DEFAULT_START,
    };
    let most: u32 = match max_results {
        Some(n) => n,
        None => DEFAULT_MAX_RESULTS,
    };
    let mut params = no_pairs();
    push_pair(&mut params, "search_query", query);
    push_pair(&mut params, "start", to_decimal(first as u64).as_str());
    push_pair(&mut params, "max_results", to_decimal(most as u64).as_str());
    match sort_by {
        Some(field) => {
            push_pair(&mut params, "sortBy", field);
        },
        None => {},
    }
    match sort_order {
        Some(order) => {
            push_pair(&mut params, "sortOrder", order);
        },
        None => {},
    }
    proof {
        assert(pairs_view(params@) =~= papers_query(
            query@,
            start,
            max_results,
            optional_view(sort_by),
            optional_view(sort_order),
        ));
    }
    run_query("http://export.arxiv.org/api/query", params, "ArXiv API error: ", replies)
}

} // verus!
