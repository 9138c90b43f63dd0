//! The tool that fetches one paper by its ID.

use vstd::prelude::*;
use crate::effect::{no_pairs, pairs_view, push_pair, Outcome, Step};
use crate::servers::arxiv::errors::McpArxivError;
use crate::servers::arxiv::query::{query_step, run_query};

verus! {

/// What `get_paper_by_id_tool` does, given the answers so far: it asks the
/// query API for the paper with the ID `id`.
pub open spec fn get_paper_by_id_step(
    step: Step<McpArxivError>,
    id: Seq<char>,
    replies: Seq<Outcome>,
) -> bool {
    query_step(
        step,
        "http://export.arxiv.org/api/query"@,
        seq![("id_list"@, id)],
        "ArXiv API error: "@,
        replies,
    )
}

/// Fetches the paper with the arXiv ID `id`: the next thing to ask for, or
/// the result, given the answers so far.
pub fn get_paper_by_id_tool(id: &str, replies: &Vec<Outcome>) -> (step: Step<McpArxivError>)
    ensures
        get_paper_by_id_step(step, id@, replies@),
{
    let mut query = no_pairs();
    push_pair(&mut query, "id_list", id);
    proof {
        assert(pairs_view(query@) =~= seq![("id_list"@, id@)]);
    }
    run_query("http://export.arxiv.org/api/query", query, "ArXiv API error: ", replies)
}

} // verus!
