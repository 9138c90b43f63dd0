//! The tool that harvests metadata in bulk over OAI-PMH.

use vstd::prelude::*;
use crate::effect::{no_pairs, pairs_view, push_pair, Outcome, Step};
use crate::servers::arxiv::errors::McpArxivError;
use crate::servers::arxiv::query::{query_step, run_query};
use crate::text::optional_view;

verus! {

/// The query that lists the records between the dates `from` and `until`
/// in the format `metadata_prefix`, `oai_dc` where none is given, and of the
/// set `set` where one is given.
pub open spec fn list_records_query(
    from: Seq<char>,
    until: Seq<char>,
    metadata_prefix: Option<Seq<char>>,
    set: Option<Seq<char>>,
) -> Seq<(Seq<char>, Seq<char>)> {
    let fixed = seq![
        ("verb"@, "ListRecords"@),
        ("from"@, from),
        ("until"@, until),
        (
            "metadataPrefix"@,
            match metadata_prefix {
                Some(prefix) => prefix,
                None => "oai_dc"@,
            },
        ),
    ];
    match set {
        Some(set_id) => fixed.push(("set"@, set_id)),
        None => fixed,
    }
}

/// What `list_records_tool` does, given the answers so far: it asks the
/// OAI-PMH interface for the records.
pub open spec fn list_records_step(
    step: Step<McpArxivError>,
    from: Seq<char>,
    until: Seq<char>,
    metadata_prefix: Option<Seq<char>>,
    set: Option<Seq<char>>,
    replies: Seq<Outcome>,
) -> bool {
    query_step(
        step,
        "http://export.arxiv.org/oai2"@,
        list_records_query(from, until, metadata_prefix, set),
        "OAI-PMH API error: "@,
        replies,
    )
}

/// Lists the records between the dates `from` and `until`: the next thing
/// to ask for, or the result, given the answers so far.
pub fn list_records_tool(
    from: &str,
    until: &str,
    metadata_prefix: Option<&str>,
    set: Option<&str>,
    replies: &Vec<Outcome>,
) -> (step: Step<McpArxivError>)
    ensures
        list_records_step(
            step,
            from@,
            until@,
            optional_view(metadata_prefix),
            optional_view(set),
            replies@,
        ),
{
    let prefix: &str = match metadata_prefix {
        Some(prefix) => prefix,
        None => "oai_dc",
    };
    let mut query = no_pairs();
    push_pair(&mut query, "verb", "ListRecords");
    push_pair(&mut query, "from", from);
    push_pair(&mut query, "until", until);
    push_pair(&mut query, "metadataPrefix", prefix);
    match set {
        Some(set_id) => {
            push_pair(&mut query, "set", set_id);
        },
        None => {},
    }
    proof {
        assert(pairs_view(query@) =~= list_records_query(
            from@,
            until@,
            optional_view(metadata_prefix),
            optional_view(set),
        ));
    }
    run_query("http://export.arxiv.org/oai2", query, "OAI-PMH API error: ", replies)
}

} // verus!
