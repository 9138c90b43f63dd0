//! The arXiv server: its tools, what a registry holds for each of them,
//! and how a call reaches the tool.

use vstd::prelude::*;
use crate::content::NormalizedError;
use crate::dispatch::{text_arg, text_argument, u32_arg, u32_argument, Argument};
use crate::effect::{Outcome, Step, MOST_EFFECTS};
use crate::registry::{
    no_params, param_views, push_param, ParamKind, ParamView, Registry, ServerCapabilities,
    ToolDescriptor,
};
use crate::servers::arvix::errors::McpArvixError;
use crate::servers::arvix::extract_paper_text::{extract_paper_text_step, extract_paper_text_tool};
use crate::servers::arxiv::errors::McpArxivError;
use crate::servers::arxiv::get_paper_by_id::{get_paper_by_id_step, get_paper_by_id_tool};
use crate::servers::arxiv::list_records::{list_records_step, list_records_tool};
use crate::servers::arxiv::search_by_author::{search_by_author_step, search_by_author_tool};
use crate::servers::arxiv::search_papers::{search_papers_step, search_papers_tool};
use crate::servers::tool::{catalog, describes, normalized, reject, rejects, Tool};

verus! {

/// The tools of the arXiv server.
#[derive(Clone, Copy, Debug, PartialEq, Eq, Structural)]
pub enum ArxivTool {
    GetPaperById,
    SearchPapers,
    ListRecords,
    SearchByAuthor,
    ExtractPaperText,
}

/// The name under which `tool` is registered.
pub open spec fn tool_name(tool: ArxivTool) -> Seq<char> {
    match tool {
        ArxivTool::GetPaperById => "GetPaperById"@,
        ArxivTool::SearchPapers => "SearchPapers"@,
        ArxivTool::ListRecords => "ListRecords"@,
        ArxivTool::SearchByAuthor => "SearchByAuthor"@,
        ArxivTool::ExtractPaperText => "ExtractPaperText"@,
    }
}

/// What `tool` is said to do.
pub open spec fn tool_description(tool: ArxivTool) -> Seq<char> {
    match tool {
        ArxivTool::GetPaperById => "Fetch a specific paper by its ArXiv ID."@,
        ArxivTool::SearchPapers => "Search for papers on ArXiv using various criteria."@,
        ArxivTool::ListRecords => "Bulk harvest metadata from ArXiv using OAI-PMH interface."@,
        ArxivTool::SearchByAuthor => "Search for papers by a specific author on ArXiv."@,
        ArxivTool::ExtractPaperText => "Extract text from an arXiv paper PDF."@,
    }
}

/// The parameters that `tool` declares, in the order of their declaration.
pub open spec fn tool_parameters(tool: ArxivTool) -> Seq<ParamView> {
    match tool {
        ArxivTool::GetPaperById => seq![
            ParamView {
                name: "id"@,
                description: "The ArXiv ID (e.g. '2101.00001v2')"@,
                kind: ParamKind::Text,
                required: true,
            },
        ],
        ArxivTool::SearchPapers => seq![
            ParamView {
                name: "query"@,
                description: "The search query string (e.g. 'quantum computing', 'au:\"Einstein, Albert\"', 'cat:cs.CV')"@,
                kind: ParamKind::Text,
                required: true,
            },
            ParamView {
                name: "start"@,
                description: "Starting index for results (default: 0)"@,
                kind: ParamKind::Unsigned32,
                required: false,
            },
            ParamView {
                name: "max_results"@,
                description: "Maximum number of results to return (default: 5)"@,
                kind: ParamKind::Unsigned32,
                required: false,
            },
            ParamView {
                name: "sort_by"@,
                description: "Sort field (submittedDate, lastUpdatedDate, relevance)"@,
                kind: ParamKind::Text,
                required: false,
            },
            ParamView {
                name: "sort_order"@,
                description: "Sort order (ascending, descending)"@,
                kind: ParamKind::Text,
                required: false,
            },
        ],
        ArxivTool::ListRecords => seq![
            ParamView {
                name: "from"@,
                description: "Start date for records (YYYY-MM-DD)"@,
                kind: ParamKind::Text,
                required: true,
            },
            ParamView {
                name: "until"@,
                description: "End date for records (YYYY-MM-DD)"@,
                kind: ParamKind::Text,
                required: true,
            },
            ParamView {
                name: "metadata_prefix"@,
                description: "Metadata format (default: oai_dc)"@,
                kind: ParamKind::Text,
                required: false,
            },
            ParamView {
                name: "set"@,
                description: "Optional set identifier to filter records"@,
                kind: ParamKind::Text,
                required: false,
            },
        ],
        ArxivTool::SearchByAuthor => seq![
            ParamView {
                name: "author"@,
                description: "Author name (e.g. 'Einstein, Albert')"@,
                kind: ParamKind::Text,
                required: true,
            },
            ParamView {
                name: "start"@,
                description: "Starting index for results (default: 0)"@,
                kind: ParamKind::Unsigned32,
                required: false,
            },
            ParamView {
                name: "max_results"@,
                description: "Maximum number of results to return (default: 10)"@,
                kind: ParamKind::Unsigned32,
                required: false,
            },
        ],
        ArxivTool::ExtractPaperText => seq![
            ParamView {
                name: "paper_url"@,
                description: "The arXiv paper URL or ID"@,
                kind: ParamKind::Text,
                required: true,
            },
        ],
    }
}

/// The tools of the arXiv server, in the order of their registration.
pub open spec fn tools() -> Seq<Tool> {
    seq![
        Tool::Arxiv(ArxivTool::GetPaperById),
        Tool::Arxiv(ArxivTool::SearchPapers),
        Tool::Arxiv(ArxivTool::ListRecords),
        Tool::Arxiv(ArxivTool::SearchByAuthor),
        Tool::Arxiv(ArxivTool::ExtractPaperText),
    ]
}

/// Every tool has a name, and no two tools share one.
pub proof fn lemma_tool_names_differ(a: ArxivTool, b: ArxivTool)
    ensures
        tool_name(a).len() > 0,
        a != b ==> tool_name(a) != tool_name(b),
{
    reveal_strlit("GetPaperById");
    reveal_strlit("SearchPapers");
    reveal_strlit("ListRecords");
    reveal_strlit("SearchByAuthor");
    reveal_strlit("ExtractPaperText");
    assert("GetPaperById"@[0] != "SearchPapers"@[0]);
}

/// What a registry holds for `tool`.
pub fn descriptor(tool: ArxivTool) -> (descriptor: ToolDescriptor<Tool>)
    ensures
        describes(descriptor, Tool::Arxiv(tool)),
{
    let mut parameters = no_params();
    let (name, description) = match tool {
        ArxivTool::GetPaperById => {
            push_param(
                &mut parameters,
                "id",
                "The ArXiv ID (e.g. '2101.00001v2')",
                ParamKind::Text,
                true,
            );
            ("GetPaperById", "Fetch a specific paper by its ArXiv ID.")
        },
        ArxivTool::SearchPapers => {
            push_param(
                &mut parameters,
                "query",
                "The search query string (e.g. 'quantum computing', 'au:\"Einstein, Albert\"', 'cat:cs.CV')",
                ParamKind::Text,
                true,
            );
            push_param(
                &mut parameters,
                "start",
                "Starting index for results (default: 0)",
                ParamKind::Unsigned32,
                false,
            );
            push_param(
                &mut parameters,
                "max_results",
                "Maximum number of results to return (default: 5)",
                ParamKind::Unsigned32,
                false,
            );
            push_param(
                &mut parameters,
                "sort_by",
                "Sort field (submittedDate, lastUpdatedDate, relevance)",
                ParamKind::Text,
                false,
            );
            push_param(
                &mut parameters,
                "sort_order",
                "Sort order (ascending, descending)",
                ParamKind::Text,
                false,
            );
            ("SearchPapers", "Search for papers on ArXiv using various criteria.")
        },
        ArxivTool::ListRecords => {
            push_param(
                &mut parameters,
                "from",
                "Start date for records (YYYY-MM-DD)",
                ParamKind::Text,
                true,
            );
            push_param(
                &mut parameters,
                "until",
                "End date for records (YYYY-MM-DD)",
                ParamKind::Text,
                true,
            );
            push_param(
                &mut parameters,
                "metadata_prefix",
                "Metadata format (default: oai_dc)",
                ParamKind::Text,
                false,
            );
            push_param(
                &mut parameters,
                "set",
                "Optional set identifier to filter records",
                ParamKind::Text,
                false,
            );
            ("ListRecords", "Bulk harvest metadata from ArXiv using OAI-PMH interface.")
        },
        ArxivTool::SearchByAuthor => {
            push_param(
                &mut parameters,
                "author",
                "Author name (e.g. 'Einstein, Albert')",
                ParamKind::Text,
                true,
            );
            push_param(
                &mut parameters,
                "start",
                "Starting index for results (default: 0)",
                ParamKind::Unsigned32,
                false,
            );
            push_param(
                &mut parameters,
                "max_results",
                "Maximum number of results to return (default: 10)",
                ParamKind::Unsigned32,
                false,
            );
            ("SearchByAuthor", "Search for papers by a specific author on ArXiv.")
        },
        ArxivTool::ExtractPaperText => {
            push_param(
                &mut parameters,
                "paper_url",
                "The arXiv paper URL or ID",
                ParamKind::Text,
                true,
            );
            ("ExtractPaperText", "Extract text from an arXiv paper PDF.")
        },
    };
    proof {
        assert(param_views(parameters@) =~= tool_parameters(tool));
    }
    ToolDescriptor {
        name: String::from_str(name),
        description: String::from_str(description),
        parameters,
        handler: Tool::Arxiv(tool),
    }
}

/// The registry of the arXiv server: named `Arvix`, in version 0.1.0,
/// declaring tools and nothing else, holding its tools in the order of
/// `tools`, and built.
pub fn protocol() -> (registry: Registry<Tool>)
    ensures
        registry@.server_name == "Arvix"@,
        registry@.server_version == "0.1.0"@,
        registry@.capabilities == (ServerCapabilities {
            tools: true,
            prompts: false,
            resources: false,
            logging: false,
            experimental: false,
        }),
        registry@.frozen,
        registry@.wf(),
        catalog(registry@.tools, tools()),
{
    let mut registry: Registry<Tool> = Registry::new(
        String::from_str("Arvix"),
        String::from_str("0.1.0"),
    ).capabilities(
        ServerCapabilities {
            tools: true,
            prompts: false,
            resources: false,
            logging: false,
            experimental: false,
        },
    );
    proof {
        assert forall|a: ArxivTool, b: ArxivTool|
            tool_name(a).len() > 0 && (a != b ==> #[trigger] tool_name(a) != #[trigger] tool_name(
                b,
            )) by {
            lemma_tool_names_differ(a, b);
        }
    }
    let _ = registry.register(descriptor(ArxivTool::GetPaperById));
    let _ = registry.register(descriptor(ArxivTool::SearchPapers));
    let _ = registry.register(descriptor(ArxivTool::ListRecords));
    let _ = registry.register(descriptor(ArxivTool::SearchByAuthor));
    let _ = registry.register(descriptor(ArxivTool::ExtractPaperText));
    registry.build()
}

/// What a call of `tool` does, given the arguments and the answers so
/// far. It fails with the first required argument that is missing or has
/// the wrong shape; an optional argument of the wrong shape counts as not
/// given. Else it does what the tool does, with the failure of the tool, if
/// it ends in one, in the uniform shape.
pub open spec fn call_step(
    step: Step<NormalizedError>,
    tool: ArxivTool,
    arguments: Seq<Argument>,
    replies: Seq<Outcome>,
) -> bool {
    match tool {
        ArxivTool::GetPaperById => match text_argument(arguments, "id"@) {
            None => rejects(step, "id"@),
            Some(id) => exists|inner: Step<McpArxivError>|
                #[trigger] normalized(step, inner)
                && get_paper_by_id_step(inner, id, replies),
        },
        ArxivTool::SearchPapers => match text_argument(arguments, "query"@) {
            None => rejects(step, "query"@),
            Some(query) => exists|inner: Step<McpArxivError>|
                #[trigger] normalized(step, inner)
                && search_papers_step(
                    inner,
                    query,
                    u32_argument(arguments, "start"@),
                    u32_argument(arguments, "max_results"@),
                    text_argument(arguments, "sort_by"@),
                    text_argument(arguments, "sort_order"@),
                    replies,
                ),
        },
        ArxivTool::ListRecords => match text_argument(arguments, "from"@) {
            None => rejects(step, "from"@),
            Some(from) => match text_argument(arguments, "until"@) {
                None => rejects(step, "until"@),
                Some(until) => exists|inner: Step<McpArxivError>|
                    #[trigger] normalized(step, inner)
                    && list_records_step(
                        inner,
                        from,
                        until,
                        text_argument(arguments, "metadata_prefix"@),
                        text_argument(arguments, "set"@),
                        replies,
                    ),
            },
        },
        ArxivTool::SearchByAuthor => match text_argument(arguments, "author"@) {
            None => rejects(step, "author"@),
            Some(author) => exists|inner: Step<McpArxivError>|
                #[trigger] normalized(step, inner)
                && search_by_author_step(
                    inner,
                    author,
                    u32_argument(arguments, "start"@),
                    u32_argument(arguments, "max_results"@),
                    replies,
                ),
        },
        ArxivTool::ExtractPaperText => match text_argument(arguments, "paper_url"@) {
            None => rejects(step, "paper_url"@),
            Some(paper_url) => exists|inner: Step<McpArvixError>|
                #[trigger] normalized(step, inner)
                && extract_paper_text_step(inner, paper_url, replies),
        },
    }
}

/// A call comes to its end: once as many answers are there as a tool asks
/// for at most, the call asks for nothing more.
pub proof fn lemma_call_ends(
    step: Step<NormalizedError>,
    tool: ArxivTool,
    arguments: Seq<Argument>,
    replies: Seq<Outcome>,
)
    requires
        call_step(step, tool, arguments, replies),
        replies.len() >= MOST_EFFECTS,
    ensures
        step is Done,
{
}

/// Calls `tool` with `arguments`: the next thing to ask for, or the
/// result, given the answers so far.
pub fn call(
    tool: ArxivTool,
    arguments: &Vec<Argument>,
    replies: &Vec<Outcome>,
) -> (step: Step<NormalizedError>)
    ensures
        call_step(step, tool, arguments@, replies@),
{
    match tool {
        ArxivTool::GetPaperById => {
            let id = match text_arg(arguments, "id") {
                Some(value) => value,
                None => {
                    return reject("id");
                },
            };
            finish(get_paper_by_id_tool(id, replies))
        },
        ArxivTool::SearchPapers => {
            let query = match text_arg(arguments, "query") {
                Some(value) => value,
                None => {
                    return reject("query");
                },
            };
            finish(search_papers_tool(
                query,
                u32_arg(arguments, "start"),
                u32_arg(arguments, "max_results"),
                text_arg(arguments, "sort_by"),
                text_arg(arguments, "sort_order"),
                replies,
            ))
        },
        ArxivTool::ListRecords => {
            let from = match text_arg(arguments, "from") {
                Some(value) => value,
                None => {
                    return reject("from");
                },
            };
            let until = match text_arg(arguments, "until") {
                Some(value) => value,
                None => {
                    return reject("until");
                },
            };
            finish(list_records_tool(
                from,
                until,
                text_arg(arguments, "metadata_prefix"),
                text_arg(arguments, "set"),
                replies,
            ))
        },
        ArxivTool::SearchByAuthor => {
            let author = match text_arg(arguments, "author") {
                Some(value) => value,
                None => {
                    return reject("author");
                },
            };
            finish(search_by_author_tool(
                author,
                u32_arg(arguments, "start"),
                u32_arg(arguments, "max_results"),
                replies,
            ))
        },
        ArxivTool::ExtractPaperText => {
            let paper_url = match text_arg(arguments, "paper_url") {
                Some(value) => value,
                None => {
                    return reject("paper_url");
                },
            };
            finish_paper(extract_paper_text_tool(paper_url, replies))
        },
    }
}

/// The step `inner` of a tool, with its failure, if it ends in one, in the
/// uniform shape.
fn finish_paper(inner: Step<McpArvixError>) -> (step: Step<NormalizedError>)
    ensures
        normalized(step, inner),
{
    match inner {
        Step::Perform(effect) => Step::Perform(effect),
        Step::Done(Ok(envelope)) => Step::Done(Ok(envelope)),
        Step::Done(Err(error)) => Step::Done(Err(error.normalize())),
    }
}

/// The step `inner` of a tool, with its failure, if it ends in one, in the
/// uniform shape.
fn finish(inner: Step<McpArxivError>) -> (step: Step<NormalizedError>)
    ensures
        normalized(step, inner),
{
    match inner {
        Step::Perform(effect) => Step::Perform(effect),
        Step::Done(Ok(envelope)) => Step::Done(Ok(envelope)),
        Step::Done(Err(error)) => Step::Done(Err(error.normalize())),
    }
}

} // verus!
