//! The tool that searches the papers of one author.

use vstd::prelude::*;
use crate::effect::{no_pairs, pairs_view, push_pair, Outcome, Step};
use crate::servers::arxiv::errors::McpArxivError;
use crate::servers::arxiv::query::{query_step, run_query};
use crate::text::{concat, decimal, to_decimal};

verus! {

/// The index of the first result where none is given.
pub const DEFAULT_START: u32 = 0;

/// The number of results where none is given.
pub const DEFAULT_MAX_RESULTS: u32 = 10;

/// The query that searches the papers of `author`, from the result number
/// `start` on, and at most `max_results` of them.
pub open spec fn author_query(
    author: Seq<char>,
    start: Option<u32>,
    max_results: Option<u32>,
) -> Seq<(Seq<char>, Seq<char>)> {
    seq![
        ("search_query"@, "au:\""@ + author + "\""@),
        (
            "start"@,
            decimal(
                match start {
                    Some(n) => n as nat,
                    None => DEFAULT_START as nat,
                },
            ),
        ),
        (
            "max_results"@,
            decimal(
                match max_results {
                    Some(n) => n as nat,
                    None => DEFAULT_MAX_RESULTS as nat,
                },
            ),
        ),
    ]
}

/// What `search_by_author_tool` does, given the answers so far: it asks the
/// query API for the papers of the author.
pub open spec fn search_by_author_step(
    step: Step<McpArxivError>,
    author: Seq<char>,
    start: Option<u32>,
    max_results: Option<u32>,
    replies: Seq<Outcome>,
) -> bool {
    query_step(
        step,
        "http://export.arxiv.org/api/query"@,
        author_query(author, start, max_results),
        "ArXiv API error: "@,
        replies,
    )
}

/// Searches the papers of `author`: the next thing to ask for, or the
/// result, given the answers so far.
pub fn search_by_author_tool(
    author: &str,
    start: Option<u32>,
    max_results: Option<u32>,
    replies: &Vec<Outcome>,
) -> (step: Step<McpArxivError>)
    ensures
        search_by_author_step(step, author@, start, max_results, replies@),
{
    let first: u32 = match start {
        Some(n) => n,
        None => DEFAULT_START,
    };
    let most: u32 = match max_results {
        Some(n) => n,
        None => DEFAULT_MAX_RESULTS,
    };
    let mut search = concat("au:\"", author);
    search.append("\"");
    let mut query = no_pairs();
    push_pair(&mut query, "search_query", search.as_str());
    push_pair(&mut query, "start", to_decimal(first as u64).as_str());
    push_pair(&mut query, "max_results", to_decimal(most as u64).as_str());
    proof {
        assert(pairs_view(query@) =~= author_query(author@, start, max_results));
    }
    run_query("http://export.arxiv.org/api/query", query, "ArXiv API error: ", replies)
}

} // verus!
