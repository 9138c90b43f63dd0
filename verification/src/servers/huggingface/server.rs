//! The HuggingFace server: its tools, what a registry holds for each of them,
//! and how a call reaches the tool.

use vstd::prelude::*;
use crate::content::NormalizedError;
use crate::dispatch::{text_arg, text_argument, unsigned_arg, unsigned_argument, Argument};
use crate::effect::{pair_value, Outcome, Pair, Step, MOST_EFFECTS};
use crate::registry::{
    no_params, param_views, push_param, ParamKind, ParamView, Registry, ServerCapabilities,
    ToolDescriptor,
};
use crate::servers::huggingface::errors::McpHuggingFaceError;
use crate::servers::huggingface::get_model_info::{get_model_info_step, get_model_info_tool};
use crate::servers::huggingface::get_model_sample_images::{
    get_model_sample_images_step, get_model_sample_images_tool,
};
use crate::servers::huggingface::get_readme::{get_readme_step, get_readme_tool};
use crate::servers::huggingface::search_models::{search_models_step, search_models_tool};
use crate::servers::huggingface::whoami::{whoami_step, whoami_tool};
use crate::servers::tool::{catalog, describes, normalized, reject, rejects, Tool};

verus! {

/// The tools of the HuggingFace server.
#[derive(Clone, Copy, Debug, PartialEq, Eq, Structural)]
pub enum HuggingFaceTool {
    SearchModels,
    GetModelInfo,
    GetModelSampleImages,
    GetReadme,
    WhoAmI,
}

/// The name under which `tool` is registered.
pub open spec fn tool_name(tool: HuggingFaceTool) -> Seq<char> {
    match tool {
        HuggingFaceTool::SearchModels => "SearchModels"@,
        HuggingFaceTool::GetModelInfo => "GetModelInfo"@,
        HuggingFaceTool::GetModelSampleImages => "GetModelSampleImages"@,
        HuggingFaceTool::GetReadme => "GetReadme"@,
        HuggingFaceTool::WhoAmI => "WhoAmI"@,
    }
}

/// What `tool` is said to do.
pub open spec fn tool_description(tool: HuggingFaceTool) -> Seq<char> {
    match tool {
        HuggingFaceTool::SearchModels =>
            "Search for HuggingFace models matching a keyword (filtered to text\u{2011}to\u{2011}image)."@,
        HuggingFaceTool::GetModelInfo =>
            "Fetch metadata for a HuggingFace model (author, tags, license, description)."@,
        HuggingFaceTool::GetModelSampleImages =>
            "Extract and return all image URLs found in the model's README.md."@,
        HuggingFaceTool::GetReadme => "Retrieve README.md file from a HuggingFace model."@,
        HuggingFaceTool::WhoAmI =>
            "Retrieve the username, email, and orgs for the current HF API token"@,
    }
}

/// The parameters that `tool` declares, in the order of their declaration.
pub open spec fn tool_parameters(tool: HuggingFaceTool) -> Seq<ParamView> {
    match tool {
        HuggingFaceTool::SearchModels => seq![
            ParamView {
                name: "keyword"@,
                description: "Term to search for"@,
                kind: ParamKind::Text,
                required: true,
            },
            ParamView {
                name: "limit"@,
                description: "Max results to return (default 10)"@,
                kind: ParamKind::Unsigned64,
                required: false,
            },
        ],
        HuggingFaceTool::GetModelInfo => seq![
            ParamView {
                name: "model_id"@,
                description: "ID of the model, e.g. 'HiDream-ai/HiDream-I1-Full'"@,
                kind: ParamKind::Text,
                required: true,
            },
        ],
        HuggingFaceTool::GetModelSampleImages => seq![
            ParamView {
                name: "model_id"@,
                description: "ID of the model, e.g. 'huggingface/CodeBERT'"@,
                kind: ParamKind::Text,
                required: true,
            },
        ],
        HuggingFaceTool::GetReadme => seq![
            ParamView {
                name: "model_id"@,
                description: "ID of the model to retrieve"@,
                kind: ParamKind::Text,
                required: true,
            },
        ],
        HuggingFaceTool::WhoAmI => Seq::empty(),
    }
}

/// The tools of the HuggingFace server, in the order of their registration.
pub open spec fn tools() -> Seq<Tool> {
    seq![
        Tool::HuggingFace(HuggingFaceTool::SearchModels),
        Tool::HuggingFace(HuggingFaceTool::GetModelInfo),
        Tool::HuggingFace(HuggingFaceTool::GetModelSampleImages),
        Tool::HuggingFace(HuggingFaceTool::GetReadme),
        Tool::HuggingFace(HuggingFaceTool::WhoAmI),
    ]
}

/// Every tool has a name, and no two tools share one.
pub proof fn lemma_tool_names_differ(a: HuggingFaceTool, b: HuggingFaceTool)
    ensures
        tool_name(a).len() > 0,
        a != b ==> tool_name(a) != tool_name(b),
{
    reveal_strlit("SearchModels");
    reveal_strlit("GetModelInfo");
    reveal_strlit("GetModelSampleImages");
    reveal_strlit("GetReadme");
    reveal_strlit("WhoAmI");
    assert("SearchModels"@[0] != "GetModelInfo"@[0]);
}

/// What a registry holds for `tool`.
pub fn descriptor(tool: HuggingFaceTool) -> (descriptor: ToolDescriptor<Tool>)
    ensures
        describes(descriptor, Tool::HuggingFace(tool)),
{
    let mut parameters = no_params();
    let (name, description) = match tool {
        HuggingFaceTool::SearchModels => {
            push_param(&mut parameters, "keyword", "Term to search for", ParamKind::Text, true);
            push_param(
                &mut parameters,
                "limit",
                "Max results to return (default 10)",
                ParamKind::Unsigned64,
                false,
            );
            (
                "SearchModels",
                "Search for HuggingFace models matching a keyword (filtered to text\u{2011}to\u{2011}image).",
            )
        },
        HuggingFaceTool::GetModelInfo => {
            push_param(
                &mut parameters,
                "model_id",
                "ID of the model, e.g. 'HiDream-ai/HiDream-I1-Full'",
                ParamKind::Text,
                true,
            );
            (
                "GetModelInfo",
                "Fetch metadata for a HuggingFace model (author, tags, license, description).",
            )
        },
        HuggingFaceTool::GetModelSampleImages => {
            push_param(
                &mut parameters,
                "model_id",
                "ID of the model, e.g. 'huggingface/CodeBERT'",
                ParamKind::Text,
                true,
            );
            (
                "GetModelSampleImages",
                "Extract and return all image URLs found in the model's README.md.",
            )
        },
        HuggingFaceTool::GetReadme => {
            push_param(
                &mut parameters,
                "model_id",
                "ID of the model to retrieve",
                ParamKind::Text,
                true,
            );
            ("GetReadme", "Retrieve README.md file from a HuggingFace model.")
        },
        HuggingFaceTool::WhoAmI => {
            ("WhoAmI", "Retrieve the username, email, and orgs for the current HF API token")
        },
    };
    proof {
        assert(param_views(parameters@) =~= tool_parameters(tool));
    }
    ToolDescriptor {
        name: String::from_str(name),
        description: String::from_str(description),
        parameters,
        handler: Tool::HuggingFace(tool),
    }
}

/// The registry of the HuggingFace server: named `HuggingFace`, in version 0.1.0,
/// declaring tools and nothing else, holding its tools in the order of
/// `tools`, and built.
pub fn protocol() -> (registry: Registry<Tool>)
    ensures
        registry@.server_name == "HuggingFace"@,
        registry@.server_version == "0.1.0"@,
        registry@.capabilities == (ServerCapabilities {
            tools: true,
            prompts: false,
            resources: false,
            logging: false,
            experimental: false,
        }),
        registry@.frozen,
        registry@.wf(),
        catalog(registry@.tools, tools()),
{
    let mut registry: Registry<Tool> = Registry::new(
        String::from_str("HuggingFace"),
        String::from_str("0.1.0"),
    ).capabilities(
        ServerCapabilities {
            tools: true,
            prompts: false,
            resources: false,
            logging: false,
            experimental: false,
        },
    );
    proof {
        assert forall|a: HuggingFaceTool, b: HuggingFaceTool|
            tool_name(a).len() > 0 && (a != b ==> #[trigger] tool_name(a) != #[trigger] tool_name(
                b,
            )) by {
            lemma_tool_names_differ(a, b);
        }
    }
    let _ = registry.register(descriptor(HuggingFaceTool::SearchModels));
    let _ = registry.register(descriptor(HuggingFaceTool::GetModelInfo));
    let _ = registry.register(descriptor(HuggingFaceTool::GetModelSampleImages));
    let _ = registry.register(descriptor(HuggingFaceTool::GetReadme));
    let _ = registry.register(descriptor(HuggingFaceTool::WhoAmI));
    registry.build()
}

/// What a call of `tool` does, given the arguments and the answers so
/// far. It fails with the first required argument that is missing or has
/// the wrong shape; an optional argument of the wrong shape counts as not
/// given. Else it does what the tool does, with the failure of the tool, if
/// it ends in one, in the uniform shape.
pub open spec fn call_step(
    step: Step<NormalizedError>,
    tool: HuggingFaceTool,
    env: Seq<Pair>,
    arguments: Seq<Argument>,
    replies: Seq<Outcome>,
) -> bool {
    match tool {
        HuggingFaceTool::SearchModels => match text_argument(arguments, "keyword"@) {
            None => rejects(step, "keyword"@),
            Some(keyword) => exists|inner: Step<McpHuggingFaceError>|
                #[trigger] normalized(step, inner)
                && search_models_step(
                    inner,
                    keyword,
                    unsigned_argument(arguments, "limit"@, u64::MAX),
                    replies,
                ),
        },
        HuggingFaceTool::GetModelInfo => match text_argument(arguments, "model_id"@) {
            None => rejects(step, "model_id"@),
            Some(model_id) => exists|inner: Step<McpHuggingFaceError>|
                #[trigger] normalized(step, inner)
                && get_model_info_step(inner, model_id, replies),
        },
        HuggingFaceTool::GetModelSampleImages => match text_argument(arguments, "model_id"@) {
            None => rejects(step, "model_id"@),
            Some(model_id) => exists|inner: Step<McpHuggingFaceError>|
                #[trigger] normalized(step, inner)
                && get_model_sample_images_step(inner, model_id, replies),
        },
        HuggingFaceTool::GetReadme => match text_argument(arguments, "model_id"@) {
            None => rejects(step, "model_id"@),
            Some(model_id) => exists|inner: Step<McpHuggingFaceError>|
                #[trigger] normalized(step, inner)
                && get_readme_step(inner, model_id, replies),
        },
        HuggingFaceTool::WhoAmI => exists|inner: Step<McpHuggingFaceError>|
            #[trigger] normalized(step, inner)
            && whoami_step(inner, pair_value(env, "HF_API_TOKEN"@), replies),
    }
}

/// A call comes to its end: once as many answers are there as a tool asks
/// for at most, the call asks for nothing more.
pub proof fn lemma_call_ends(
    step: Step<NormalizedError>,
    tool: HuggingFaceTool,
    env: Seq<Pair>,
    arguments: Seq<Argument>,
    replies: Seq<Outcome>,
)
    requires
        call_step(step, tool, env, arguments, replies),
        replies.len() >= MOST_EFFECTS,
    ensures
        step is Done,
{
}

/// Calls `tool` with `arguments`: the next thing to ask for, or the
/// result, given the answers so far.
pub fn call(
    tool: HuggingFaceTool,
    env: &Vec<Pair>,
    arguments: &Vec<Argument>,
    replies: &Vec<Outcome>,
) -> (step: Step<NormalizedError>)
    ensures
        call_step(step, tool, env@, arguments@, replies@),
{
    match tool {
        HuggingFaceTool::SearchModels => {
            let keyword = match text_arg(arguments, "keyword") {
                Some(value) => value,
                None => {
                    return reject("keyword");
                },
            };
            finish(search_models_tool(keyword, unsigned_arg(arguments, "limit", u64::MAX), replies))
        },
        HuggingFaceTool::GetModelInfo => {
            let model_id = match text_arg(arguments, "model_id") {
                Some(value) => value,
                None => {
                    return reject("model_id");
                },
            };
            finish(get_model_info_tool(model_id, replies))
        },
        HuggingFaceTool::GetModelSampleImages => {
            let model_id = match text_arg(arguments, "model_id") {
                Some(value) => value,
                None => {
                    return reject("model_id");
                },
            };
            finish(get_model_sample_images_tool(model_id, replies))
        },
        HuggingFaceTool::GetReadme => {
            let model_id = match text_arg(arguments, "model_id") {
                Some(value) => value,
                None => {
                    return reject("model_id");
                },
            };
            finish(get_readme_tool(model_id, replies))
        },
        HuggingFaceTool::WhoAmI => {
            finish(whoami_tool(env, replies))
        },
    }
}

/// The step `inner` of a tool, with its failure, if it ends in one, in the
/// uniform shape.
fn finish(inner: Step<McpHuggingFaceError>) -> (step: Step<NormalizedError>)
    ensures
        normalized(step, inner),
{
    match inner {
        Step::Perform(effect) => Step::Perform(effect),
        Step::Done(Ok(envelope)) => Step::Done(Ok(envelope)),
        Step::Done(Err(error)) => Step::Done(Err(error.normalize())),
    }
}

} // verus!
