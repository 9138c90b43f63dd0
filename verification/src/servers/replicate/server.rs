//! The Replicate server: its tools, what a registry holds for each of them,
//! and how a call reaches the tool.

use vstd::prelude::*;
use crate::content::NormalizedError;
use crate::dispatch::{
    text_arg, text_argument, u32_arg, u32_argument, unsigned_arg, unsigned_argument, Argument,
};
use crate::effect::{pair_value, Outcome, Pair, Step, MOST_EFFECTS};
use crate::registry::{
    no_params, param_views, push_param, ParamKind, ParamView, Registry, ServerCapabilities,
    ToolDescriptor,
};
use crate::servers::replicate::edit_image::{edit_image_step, edit_image_tool};
use crate::servers::replicate::edit_image_with_mask::{
    edit_image_with_mask_step, edit_image_with_mask_tool,
};
use crate::servers::replicate::errors::McpReplicateError;
use crate::servers::replicate::generate_image::{generate_image_step, generate_image_tool};
use crate::servers::replicate::get_model_info::{get_model_info_step, get_model_info_tool};
use crate::servers::replicate::get_prediction::{get_prediction_step, get_prediction_tool};
use crate::servers::replicate::list_models::{list_models_step, list_models_tool};
use crate::servers::replicate::whoami::{whoami_step, whoami_tool};
use crate::servers::tool::{catalog, describes, normalized, reject, rejects, Tool};

verus! {

/// The tools of the Replicate server.
#[derive(Clone, Copy, Debug, PartialEq, Eq, Structural)]
pub enum ReplicateTool {
    ListModels,
    GenerateImage,
    EditImage,
    EditImageWithMask,
    GetPrediction,
    GetModelInfo,
    WhoAmI,
}

/// The name under which `tool` is registered.
pub open spec fn tool_name(tool: ReplicateTool) -> Seq<char> {
    match tool {
        ReplicateTool::ListModels => "ListModels"@,
        ReplicateTool::GenerateImage => "GenerateImage"@,
        ReplicateTool::EditImage => "EditImage"@,
        ReplicateTool::EditImageWithMask => "EditImageWithMask"@,
        ReplicateTool::GetPrediction => "GetPrediction"@,
        ReplicateTool::GetModelInfo => "GetModelInfo"@,
        ReplicateTool::WhoAmI => "WhoAmI"@,
    }
}

/// What `tool` is said to do.
pub open spec fn tool_description(tool: ReplicateTool) -> Seq<char> {
    match tool {
        ReplicateTool::ListModels => "List models from Replicate (with optional name filter)."@,
        ReplicateTool::GenerateImage => "Generate an image via Replicate by prompting the model."@,
        ReplicateTool::EditImage => "Edit an image with a prompt."@,
        ReplicateTool::EditImageWithMask =>
            "Edit an image via Replicate by providing an image URL, prompt, and optional mask."@,
        ReplicateTool::GetPrediction =>
            "Check status and retrieve outputs of a Replicate prediction."@,
        ReplicateTool::GetModelInfo => "Fetch metadata for a Replicate model (owner/name)."@,
        ReplicateTool::WhoAmI => "Get details for the current Replicate API token."@,
    }
}

/// The parameters that `tool` declares, in the order of their declaration.
pub open spec fn tool_parameters(tool: ReplicateTool) -> Seq<ParamView> {
    match tool {
        ReplicateTool::ListModels => seq![
            ParamView {
                name: "name_filter"@,
                description: "Optional substring to match in model name"@,
                kind: ParamKind::Text,
                required: false,
            },
            ParamView {
                name: "limit"@,
                description: "Max results to return (default 10)"@,
                kind: ParamKind::Unsigned64,
                required: false,
            },
        ],
        ReplicateTool::GenerateImage => seq![
            ParamView {
                name: "model_id"@,
                description: "ID of the model, e.g. 'black-forest-labs/flux-dev-lora'"@,
                kind: ParamKind::Text,
                required: true,
            },
            ParamView {
                name: "prompt"@,
                description: "Text prompt for generation"@,
                kind: ParamKind::Text,
                required: true,
            },
            ParamView {
                name: "lora_weights"@,
                description: "Optional LoRA weights to apply, e.g. 'fofr/flux-80s-cyberpunk'"@,
                kind: ParamKind::Text,
                required: false,
            },
        ],
        ReplicateTool::EditImage => seq![
            ParamView {
                name: "image"@,
                description: "URL of the image to edit"@,
                kind: ParamKind::Text,
                required: true,
            },
            ParamView {
                name: "prompt"@,
                description: "Text prompt for guiding the edit"@,
                kind: ParamKind::Text,
                required: true,
            },
            ParamView {
                name: "steps"@,
                description: "Number of steps for image generation (default: 28)"@,
                kind: ParamKind::Unsigned32,
                required: false,
            },
            ParamView {
                name: "guidance"@,
                description: "Guidance scale for the model (default: 25)"@,
                kind: ParamKind::Unsigned32,
                required: false,
            },
        ],
        ReplicateTool::EditImageWithMask => seq![
            ParamView {
                name: "image"@,
                description: "URL of the image to edit"@,
                kind: ParamKind::Text,
                required: true,
            },
            ParamView {
                name: "mask"@,
                description: "URL of the mask image defining areas to edit"@,
                kind: ParamKind::Text,
                required: true,
            },
            ParamView {
                name: "prompt"@,
                description: "Text prompt for guiding the edit"@,
                kind: ParamKind::Text,
                required: true,
            },
        ],
        ReplicateTool::GetPrediction => seq![
            ParamView {
                name: "prediction_id"@,
                description: "ID returned by GenerateImage"@,
                kind: ParamKind::Text,
                required: true,
            },
        ],
        ReplicateTool::GetModelInfo => seq![
            ParamView {
                name: "model_id"@,
                description: "ID of the model, e.g. 'stability-ai/stable-diffusion'"@,
                kind: ParamKind::Text,
                required: true,
            },
        ],
        ReplicateTool::WhoAmI => Seq::empty(),
    }
}

/// The tools of the Replicate server, in the order of their registration.
pub open spec fn tools() -> Seq<Tool> {
    seq![
        Tool::Replicate(ReplicateTool::ListModels),
        Tool::Replicate(ReplicateTool::GenerateImage),
        Tool::Replicate(ReplicateTool::EditImage),
        Tool::Replicate(ReplicateTool::EditImageWithMask),
        Tool::Replicate(ReplicateTool::GetPrediction),
        Tool::Replicate(ReplicateTool::GetModelInfo),
        Tool::Replicate(ReplicateTool::WhoAmI),
    ]
}

/// Every tool has a name, and no two tools share one.
pub proof fn lemma_tool_names_differ(a: ReplicateTool, b: ReplicateTool)
    ensures
        tool_name(a).len() > 0,
        a != b ==> tool_name(a) != tool_name(b),
{
    reveal_strlit("ListModels");
    reveal_strlit("GenerateImage");
    reveal_strlit("EditImage");
    reveal_strlit("EditImageWithMask");
    reveal_strlit("GetPrediction");
    reveal_strlit("GetModelInfo");
    reveal_strlit("WhoAmI");
    assert("GenerateImage"@[2] != "GetPrediction"@[2]);
}

/// What a registry holds for `tool`.
pub fn descriptor(tool: ReplicateTool) -> (descriptor: ToolDescriptor<Tool>)
    ensures
        describes(descriptor, Tool::Replicate(tool)),
{
    let mut parameters = no_params();
    let (name, description) = match tool {
        ReplicateTool::ListModels => {
            push_param(
                &mut parameters,
                "name_filter",
                "Optional substring to match in model name",
                ParamKind::Text,
                false,
            );
            push_param(
                &mut parameters,
                "limit",
                "Max results to return (default 10)",
                ParamKind::Unsigned64,
                false,
            );
            ("ListModels", "List models from Replicate (with optional name filter).")
        },
        ReplicateTool::GenerateImage => {
            push_param(
                &mut parameters,
                "model_id",
                "ID of the model, e.g. 'black-forest-labs/flux-dev-lora'",
                ParamKind::Text,
                true,
            );
            push_param(
                &mut parameters,
                "prompt",
                "Text prompt for generation",
                ParamKind::Text,
                true,
            );
            push_param(
                &mut parameters,
                "lora_weights",
                "Optional LoRA weights to apply, e.g. 'fofr/flux-80s-cyberpunk'",
                ParamKind::Text,
                false,
            );
            ("GenerateImage", "Generate an image via Replicate by prompting the model.")
        },
        ReplicateTool::EditImage => {
            push_param(&mut parameters, "image", "URL of the image to edit", ParamKind::Text, true);
            push_param(
                &mut parameters,
                "prompt",
                "Text prompt for guiding the edit",
                ParamKind::Text,
                true,
            );
            push_param(
                &mut parameters,
                "steps",
                "Number of steps for image generation (default: 28)",
                ParamKind::Unsigned32,
                false,
            );
            push_param(
                &mut parameters,
                "guidance",
                "Guidance scale for the model (default: 25)",
                ParamKind::Unsigned32,
                false,
            );
            ("EditImage", "Edit an image with a prompt.")
        },
        ReplicateTool::EditImageWithMask => {
            push_param(&mut parameters, "image", "URL of the image to edit", ParamKind::Text, true);
            push_param(
                &mut parameters,
                "mask",
                "URL of the mask image defining areas to edit",
                ParamKind::Text,
                true,
            );
            push_param(
                &mut parameters,
                "prompt",
                "Text prompt for guiding the edit",
                ParamKind::Text,
                true,
            );
            (
                "EditImageWithMask",
                "Edit an image via Replicate by providing an image URL, prompt, and optional mask.",
            )
        },
        ReplicateTool::GetPrediction => {
            push_param(
                &mut parameters,
                "prediction_id",
                "ID returned by GenerateImage",
                ParamKind::Text,
                true,
            );
            ("GetPrediction", "Check status and retrieve outputs of a Replicate prediction.")
        },
        ReplicateTool::GetModelInfo => {
            push_param(
                &mut parameters,
                "model_id",
                "ID of the model, e.g. 'stability-ai/stable-diffusion'",
                ParamKind::Text,
                true,
            );
            ("GetModelInfo", "Fetch metadata for a Replicate model (owner/name).")
        },
        ReplicateTool::WhoAmI => {
            ("WhoAmI", "Get details for the current Replicate API token.")
        },
    };
    proof {
        assert(param_views(parameters@) =~= tool_parameters(tool));
    }
    ToolDescriptor {
        name: String::from_str(name),
        description: String::from_str(description),
        parameters,
        handler: Tool::Replicate(tool),
    }
}

/// The registry of the Replicate server: named `Replicate`, in version 0.1.0,
/// declaring tools and nothing else, holding its tools in the order of
/// `tools`, and built.
pub fn protocol() -> (registry: Registry<Tool>)
    ensures
        registry@.server_name == "Replicate"@,
        registry@.server_version == "0.1.0"@,
        registry@.capabilities == (ServerCapabilities {
            tools: true,
            prompts: false,
            resources: false,
            logging: false,
            experimental: false,
        }),
        registry@.frozen,
        registry@.wf(),
        catalog(registry@.tools, tools()),
{
    let mut registry: Registry<Tool> = Registry::new(
        String::from_str("Replicate"),
        String::from_str("0.1.0"),
    ).capabilities(
        ServerCapabilities {
            tools: true,
            prompts: false,
            resources: false,
            logging: false,
            experimental: false,
        },
    );
    proof {
        assert forall|a: ReplicateTool, b: ReplicateTool|
            tool_name(a).len() > 0 && (a != b ==> #[trigger] tool_name(a) != #[trigger] tool_name(
                b,
            )) by {
            lemma_tool_names_differ(a, b);
        }
    }
    let _ = registry.register(descriptor(ReplicateTool::ListModels));
    let _ = registry.register(descriptor(ReplicateTool::GenerateImage));
    let _ = registry.register(descriptor(ReplicateTool::EditImage));
    let _ = registry.register(descriptor(ReplicateTool::EditImageWithMask));
    let _ = registry.register(descriptor(ReplicateTool::GetPrediction));
    let _ = registry.register(descriptor(ReplicateTool::GetModelInfo));
    let _ = registry.register(descriptor(ReplicateTool::WhoAmI));
    registry.build()
}

/// What a call of `tool` does, given the arguments and the answers so
/// far. It fails with the first required argument that is missing or has
/// the wrong shape; an optional argument of the wrong shape counts as not
/// given. Else it does what the tool does, with the failure of the tool, if
/// it ends in one, in the uniform shape.
pub open spec fn call_step(
    step: Step<NormalizedError>,
    tool: ReplicateTool,
    env: Seq<Pair>,
    arguments: Seq<Argument>,
    replies: Seq<Outcome>,
) -> bool {
    match tool {
        ReplicateTool::ListModels => exists|inner: Step<McpReplicateError>|
            #[trigger] normalized(step, inner)
            && list_models_step(
                inner,
                pair_value(env, "REPLICATE_API_TOKEN"@),
                text_argument(arguments, "name_filter"@),
                unsigned_argument(arguments, "limit"@, u64::MAX),
                replies,
            ),
        ReplicateTool::GenerateImage => match text_argument(arguments, "model_id"@) {
            None => rejects(step, "model_id"@),
            Some(model_id) => match text_argument(arguments, "prompt"@) {
                None => rejects(step, "prompt"@),
                Some(prompt) => exists|inner: Step<McpReplicateError>|
                    #[trigger] normalized(step, inner)
                    && generate_image_step(
                        inner,
                        pair_value(env, "REPLICATE_API_TOKEN"@),
                        model_id,
                        prompt,
                        text_argument(arguments, "lora_weights"@),
                        replies,
                    ),
            },
        },
        ReplicateTool::EditImage => match text_argument(arguments, "image"@) {
            None => rejects(step, "image"@),
            Some(image) => match text_argument(arguments, "prompt"@) {
                None => rejects(step, "prompt"@),
                Some(prompt) => exists|inner: Step<McpReplicateError>|
                    #[trigger] normalized(step, inner)
                    && edit_image_step(
                        inner,
                        pair_value(env, "REPLICATE_API_TOKEN"@),
                        image,
                        prompt,
                        u32_argument(arguments, "steps"@),
                        u32_argument(arguments, "guidance"@),
                        replies,
                    ),
            },
        },
        ReplicateTool::EditImageWithMask => match text_argument(arguments, "image"@) {
            None => rejects(step, "image"@),
            Some(image) => match text_argument(arguments, "mask"@) {
                None => rejects(step, "mask"@),
                Some(mask) => match text_argument(arguments, "prompt"@) {
                    None => rejects(step, "prompt"@),
                    Some(prompt) => exists|inner: Step<McpReplicateError>|
                        #[trigger] normalized(step, inner)
                        && edit_image_with_mask_step(
                            inner,
                            pair_value(env, "REPLICATE_API_TOKEN"@),
                            image,
                            mask,
                            prompt,
                            replies,
                        ),
                },
            },
        },
        ReplicateTool::GetPrediction => match text_argument(arguments, "prediction_id"@) {
            None => rejects(step, "prediction_id"@),
            Some(prediction_id) => exists|inner: Step<McpReplicateError>|
                #[trigger] normalized(step, inner)
                && get_prediction_step(
                    inner,
                    pair_value(env, "REPLICATE_API_TOKEN"@),
                    prediction_id,
                    replies,
                ),
        },
        ReplicateTool::GetModelInfo => match text_argument(arguments, "model_id"@) {
            None => rejects(step, "model_id"@),
            Some(model_id) => exists|inner: Step<McpReplicateError>|
                #[trigger] normalized(step, inner)
                && get_model_info_step(
                    inner,
                    pair_value(env, "REPLICATE_API_TOKEN"@),
                    model_id,
                    replies,
                ),
        },
        ReplicateTool::WhoAmI => exists|inner: Step<McpReplicateError>|
            #[trigger] normalized(step, inner)
            && whoami_step(inner, pair_value(env, "REPLICATE_API_TOKEN"@), replies),
    }
}

/// A call comes to its end: once as many answers are there as a tool asks
/// for at most, the call asks for nothing more.
pub proof fn lemma_call_ends(
    step: Step<NormalizedError>,
    tool: ReplicateTool,
    env: Seq<Pair>,
    arguments: Seq<Argument>,
    replies: Seq<Outcome>,
)
    requires
        call_step(step, tool, env, arguments, replies),
        replies.len() >= MOST_EFFECTS,
    ensures
        step is Done,
{
}

/// Calls `tool` with `arguments`: the next thing to ask for, or the
/// result, given the answers so far.
pub fn call(
    tool: ReplicateTool,
    env: &Vec<Pair>,
    arguments: &Vec<Argument>,
    replies: &Vec<Outcome>,
) -> (step: Step<NormalizedError>)
    ensures
        call_step(step, tool, env@, arguments@, replies@),
{
    match tool {
        ReplicateTool::ListModels => {
            finish(list_models_tool(
                env,
                text_arg(arguments, "name_filter"),
                unsigned_arg(arguments, "limit", u64::MAX),
                replies,
            ))
        },
        ReplicateTool::GenerateImage => {
            let model_id = match text_arg(arguments, "model_id") {
                Some(value) => value,
                None => {
                    return reject("model_id");
                },
            };
            let prompt = match text_arg(arguments, "prompt") {
                Some(value) => value,
                None => {
                    return reject("prompt");
                },
            };
            finish(generate_image_tool(
                env,
                model_id,
                prompt,
                text_arg(arguments, "lora_weights"),
                replies,
            ))
        },
        ReplicateTool::EditImage => {
            let image = match text_arg(arguments, "image") {
                Some(value) => value,
                None => {
                    return reject("image");
                },
            };
            let prompt = match text_arg(arguments, "prompt") {
                Some(value) => value,
                None => {
                    return reject("prompt");
                },
            };
            finish(edit_image_tool(
                env,
                image,
                prompt,
                u32_arg(arguments, "steps"),
                u32_arg(arguments, "guidance"),
                replies,
            ))
        },
        ReplicateTool::EditImageWithMask => {
            let image = match text_arg(arguments, "image") {
                Some(value) => value,
                None => {
                    return reject("image");
                },
            };
            let mask = match text_arg(arguments, "mask") {
                Some(value) => value,
                None => {
                    return reject("mask");
                },
            };
            let prompt = match text_arg(arguments, "prompt") {
                Some(value) => value,
                None => {
                    return reject("prompt");
                },
            };
            finish(edit_image_with_mask_tool(env, image, mask, prompt, replies))
        },
        ReplicateTool::GetPrediction => {
            let prediction_id = match text_arg(arguments, "prediction_id") {
                Some(value) => value,
                None => {
                    return reject("prediction_id");
                },
            };
            finish(get_prediction_tool(env, prediction_id, replies))
        },
        ReplicateTool::GetModelInfo => {
            let model_id = match text_arg(arguments, "model_id") {
                Some(value) => value,
                None => {
                    return reject("model_id");
                },
            };
            finish(get_model_info_tool(env, model_id, replies))
        },
        ReplicateTool::WhoAmI => {
            finish(whoami_tool(env, replies))
        },
    }
}

/// The step `inner` of a tool, with its failure, if it ends in one, in the
/// uniform shape.
fn finish(inner: Step<McpReplicateError>) -> (step: Step<NormalizedError>)
    ensures
        normalized(step, inner),
{
    match inner {
        Step::Perform(effect) => Step::Perform(effect),
        Step::Done(Ok(envelope)) => Step::Done(Ok(envelope)),
        Step::Done(Err(error)) => Step::Done(Err(error.normalize())),
    }
}

} // verus!
