//! The tools of all integrations under one roof: what a registry holds for
//! each of them, and how a call reaches the tool.

use vstd::prelude::*;
use crate::content::{ErrorKind, NormalizedError, NormalizedErrorView};
use crate::dispatch::{invalid_arguments_error, Argument};
use crate::effect::{FailureView, Outcome, Pair, Step, MOST_EFFECTS};
use crate::registry::{param_views, ParamView, ToolDescriptor};
use crate::servers::arvix::server::ArxivTool;
use crate::servers::arxiv::errors::arxiv_message;
use crate::servers::discord::errors::discord_message;
use crate::servers::discord::server::DiscordTool;
use crate::servers::huggingface::errors::huggingface_message;
use crate::servers::huggingface::server::HuggingFaceTool;
use crate::servers::replicate::errors::replicate_message;
use crate::servers::replicate::server::ReplicateTool;
use crate::servers::shopify::errors::shopify_message;
use crate::servers::shopify::server::ShopifyTool;
use crate::servers::twitter::errors::twitter_message;
use crate::servers::twitter::server::TwitterTool;
use crate::text::concat;

verus! {

/// A tool of one of the integrations.
#[derive(Clone, Copy, Debug, PartialEq, Eq, Structural)]
pub enum Tool {
    Arxiv(ArxivTool),
    Discord(DiscordTool),
    HuggingFace(HuggingFaceTool),
    Replicate(ReplicateTool),
    Shopify(ShopifyTool),
    Twitter(TwitterTool),
}

/// The name under which `tool` is registered.
pub open spec fn name_of(tool: Tool) -> Seq<char> {
    match tool {
        Tool::Arxiv(t) => crate::servers::arvix::server::tool_name(t),
        Tool::Discord(t) => crate::servers::discord::server::tool_name(t),
        Tool::HuggingFace(t) => crate::servers::huggingface::server::tool_name(t),
        Tool::Replicate(t) => crate::servers::replicate::server::tool_name(t),
        Tool::Shopify(t) => crate::servers::shopify::server::tool_name(t),
        Tool::Twitter(t) => crate::servers::twitter::server::tool_name(t),
    }
}

/// What `tool` is said to do.
pub open spec fn description_of(tool: Tool) -> Seq<char> {
    match tool {
        Tool::Arxiv(t) => crate::servers::arvix::server::tool_description(t),
        Tool::Discord(t) => crate::servers::discord::server::tool_description(t),
        Tool::HuggingFace(t) => crate::servers::huggingface::server::tool_description(t),
        Tool::Replicate(t) => crate::servers::replicate::server::tool_description(t),
        Tool::Shopify(t) => crate::servers::shopify::server::tool_description(t),
        Tool::Twitter(t) => crate::servers::twitter::server::tool_description(t),
    }
}

/// The parameters that `tool` declares.
pub open spec fn parameters_of(tool: Tool) -> Seq<ParamView> {
    match tool {
        Tool::Arxiv(t) => crate::servers::arvix::server::tool_parameters(t),
        Tool::Discord(t) => crate::servers::discord::server::tool_parameters(t),
        Tool::HuggingFace(t) => crate::servers::huggingface::server::tool_parameters(t),
        Tool::Replicate(t) => crate::servers::replicate::server::tool_parameters(t),
        Tool::Shopify(t) => crate::servers::shopify::server::tool_parameters(t),
        Tool::Twitter(t) => crate::servers::twitter::server::tool_parameters(t),
    }
}

/// Whether `descriptor` describes `tool`: it has the tool's name,
/// description and parameters, and the tool is what runs it.
pub open spec fn describes(descriptor: ToolDescriptor<Tool>, tool: Tool) -> bool {
    &&& descriptor.name@ == name_of(tool)
    &&& descriptor.description@ == description_of(tool)
    &&& descriptor.handler == tool
    &&& param_views(descriptor.parameters@) == parameters_of(tool)
}

/// Whether `descriptors` describe `tools`, one for one and in order.
pub open spec fn catalog(descriptors: Seq<ToolDescriptor<Tool>>, tools: Seq<Tool>) -> bool {
    &&& descriptors.len() == tools.len()
    &&& forall|i: int| 0 <= i < tools.len() ==> describes(#[trigger] descriptors[i], tools[i])
}

/// The uniform shape of a failure of an integration: the name of the
/// integration, the kind of the failure, and the message that the
/// integration words for that kind and detail.
pub open spec fn normal_form(failure: FailureView) -> NormalizedErrorView {
    match failure.kind {
        ErrorKind::Dispatch(kind) => NormalizedErrorView {
            domain: "dispatch"@,
            kind: failure.kind,
            message: failure.detail,
        },
        ErrorKind::Arxiv(kind) => NormalizedErrorView {
            domain: "arxiv"@,
            kind: failure.kind,
            message: arxiv_message(kind, failure.detail),
        },
        ErrorKind::Discord(kind) => NormalizedErrorView {
            domain: "discord"@,
            kind: failure.kind,
            message: discord_message(kind, failure.detail),
        },
        ErrorKind::HuggingFace(kind) => NormalizedErrorView {
            domain: "huggingface"@,
            kind: failure.kind,
            message: huggingface_message(kind, failure.detail),
        },
        ErrorKind::Replicate(kind) => NormalizedErrorView {
            domain: "replicate"@,
            kind: failure.kind,
            message: replicate_message(kind, failure.detail),
        },
        ErrorKind::Shopify(kind) => NormalizedErrorView {
            domain: "shopify"@,
            kind: failure.kind,
            message: shopify_message(kind, failure.detail),
        },
        ErrorKind::Twitter(kind) => NormalizedErrorView {
            domain: "twitter"@,
            kind: failure.kind,
            message: twitter_message(kind, failure.detail),
        },
    }
}

/// Whether `step` is the step `inner` of a tool, with its failure, if it
/// ends in one, brought into the uniform shape: what the tool asks for, and
/// the content that it ends with, are passed on as they are.
pub open spec fn normalized<E: View<V = FailureView>>(
    step: Step<NormalizedError>,
    inner: Step<E>,
) -> bool {
    match inner {
        Step::Perform(effect) => step == Step::<NormalizedError>::Perform(effect),
        Step::Done(Ok(envelope)) => step == Step::<NormalizedError>::Done(Ok(envelope)),
        Step::Done(Err(error)) => step matches Step::Done(Err(failure)) && failure@ == normal_form(
            error@,
        ),
    }
}

/// The step ends the call with the failure for arguments that do not meet
/// the parameter `param`.
pub open spec fn rejects(step: Step<NormalizedError>, param: Seq<char>) -> bool {
    step matches Step::Done(Err(failure)) && failure@ == invalid_arguments_error(param)
}

/// Ends a call with the failure for arguments that do not meet the
/// parameter `param`.
pub fn reject(param: &str) -> (step: Step<NormalizedError>)
    ensures
        rejects(step, param@),
{
    Step::Done(
        Err(
            NormalizedError {
                domain: String::from_str("dispatch"),
                kind: ErrorKind::Dispatch(crate::content::DispatchErrorKind::InvalidArguments),
                message: concat("Invalid arguments: ", param),
            },
        ),
    )
}

/// What a call of `tool` does, given the environment, the arguments and
/// the answers so far.
pub open spec fn tool_step(
    step: Step<NormalizedError>,
    tool: Tool,
    env: Seq<Pair>,
    arguments: Seq<Argument>,
    replies: Seq<Outcome>,
) -> bool {
    match tool {
        Tool::Arxiv(t) => crate::servers::arvix::server::call_step(step, t, arguments, replies),
        Tool::Discord(t) => crate::servers::discord::server::call_step(
            step,
            t,
            env,
            arguments,
            replies,
        ),
        Tool::HuggingFace(t) => crate::servers::huggingface::server::call_step(
            step,
            t,
            env,
            arguments,
            replies,
        ),
        Tool::Replicate(t) => crate::servers::replicate::server::call_step(
            step,
            t,
            env,
            arguments,
            replies,
        ),
        Tool::Shopify(t) => crate::servers::shopify::server::call_step(
            step,
            t,
            env,
            arguments,
            replies,
        ),
        Tool::Twitter(t) => crate::servers::twitter::server::call_step(
            step,
            t,
            env,
            arguments,
            replies,
        ),
    }
}

/// A call comes to its end: once as many answers are there as a tool asks
/// for at most, the call asks for nothing more.
pub proof fn lemma_tool_call_ends(
    step: Step<NormalizedError>,
    tool: Tool,
    env: Seq<Pair>,
    arguments: Seq<Argument>,
    replies: Seq<Outcome>,
)
    requires
        tool_step(step, tool, env, arguments, replies),
        replies.len() >= MOST_EFFECTS,
    ensures
        step is Done,
{
    match tool {
        Tool::Arxiv(t) => crate::servers::arvix::server::lemma_call_ends(
            step,
            t,
            arguments,
            replies,
        ),
        Tool::Discord(t) => crate::servers::discord::server::lemma_call_ends(
            step,
            t,
            env,
            arguments,
            replies,
        ),
        Tool::HuggingFace(t) => crate::servers::huggingface::server::lemma_call_ends(
            step,
            t,
            env,
            arguments,
            replies,
        ),
        Tool::Replicate(t) => crate::servers::replicate::server::lemma_call_ends(
            step,
            t,
            env,
            arguments,
            replies,
        ),
        Tool::Shopify(t) => crate::servers::shopify::server::lemma_call_ends(
            step,
            t,
            env,
            arguments,
            replies,
        ),
        Tool::Twitter(t) => crate::servers::twitter::server::lemma_call_ends(
            step,
            t,
            env,
            arguments,
            replies,
        ),
    }
}

/// Calls `tool` with `arguments`: the next thing to ask for, or the
/// result, given the answers so far.
pub fn call_tool(
    tool: Tool,
    env: &Vec<Pair>,
    arguments: &Vec<Argument>,
    replies: &Vec<Outcome>,
) -> (step: Step<NormalizedError>)
    ensures
        tool_step(step, tool, env@, arguments@, replies@),
{
    match tool {
        Tool::Arxiv(t) => crate::servers::arvix::server::call(t, arguments, replies),
        Tool::Discord(t) => crate::servers::discord::server::call(t, env, arguments, replies),
        Tool::HuggingFace(t) => crate::servers::huggingface::server::call(
            t,
            env,
            arguments,
            replies,
        ),
        Tool::Replicate(t) => crate::servers::replicate::server::call(t, env, arguments, replies),
        Tool::Shopify(t) => crate::servers::shopify::server::call(t, env, arguments, replies),
        Tool::Twitter(t) => crate::servers::twitter::server::call(t, env, arguments, replies),
    }
}

} // verus!
