//! The dispatcher: from an invocation to the tool that serves it, and from
//! the tool's outcome to the response.

use vstd::prelude::*;
use crate::content::{
    ContentEnvelope, DispatchErrorKind, ErrorKind, NormalizedError, NormalizedErrorView, Response,
    ResponseView,
};
use crate::effect::{Outcome, Pair, Step};
use crate::registry::{ParamKind, Registry, RegistryView, ToolDescriptor, ToolParam};
use crate::servers::tool::{call_tool, tool_step, Tool};
use crate::text::concat;

verus! {

/// A number given as an argument. It stands for a decimal number by what
/// the tools read of it.
#[derive(Debug, PartialEq)]
pub struct Number {
    /// Whether the number is less than zero.
    pub below_zero: bool,
    /// The number without its sign and without its fraction, or `u64::MAX`
    /// where that is too large.
    pub whole: u64,
    /// Whether the number has a fraction other than zero.
    pub fractional: bool,
    /// The number as it is written.
    pub text: String,
}

/// The value of an argument.
#[derive(Debug, PartialEq)]
pub enum ArgValue {
    /// No value.
    Null,
    /// A truth value.
    Flag(bool),
    /// A number.
    Number(Number),
    /// A string.
    Text(String),
    /// A list; each item is held as it is written.
    List(Vec<String>),
    /// An object, held as it is written. No parameter takes one.
    Object(String),
}

/// An argument: a parameter's name and the value given for it.
#[derive(Debug, PartialEq)]
pub struct Argument {
    pub name: String,
    pub value: ArgValue,
}

/// A request to run one tool.
#[derive(Debug, PartialEq)]
pub struct Invocation {
    pub tool_name: String,
    pub arguments: Vec<Argument>,
}

/// Whether `arguments` holds an argument called `name`.
pub open spec fn has_argument(arguments: Seq<Argument>, name: Seq<char>) -> bool {
    exists|i: int| 0 <= i < arguments.len() && (#[trigger] arguments[i]).name@ == name
}

/// The place of the first argument called `name`, or the number of
/// arguments where there is none.
pub open spec fn argument_position(arguments: Seq<Argument>, name: Seq<char>) -> int
    decreases arguments.len(),
{
    if arguments.len() == 0 {
        0
    } else if arguments[0].name@ == name {
        0
    } else {
        1 + argument_position(arguments.drop_first(), name)
    }
}

/// The value given for `name`: that of the first argument of that name.
pub open spec fn argument_value(arguments: Seq<Argument>, name: Seq<char>) -> Option<ArgValue> {
    let at = argument_position(arguments, name);
    if at < arguments.len() {
        Some(arguments[at].value)
    } else {
        None
    }
}

/// The first argument called `name` stands at `argument_position`, and no
/// argument before it has that name.
pub proof fn lemma_argument_position(arguments: Seq<Argument>, name: Seq<char>)
    ensures
        0 <= argument_position(arguments, name) <= arguments.len(),
        argument_position(arguments, name) < arguments.len() ==> arguments[argument_position(
            arguments,
            name,
        )].name@ == name,
        forall|i: int|
            0 <= i < argument_position(arguments, name) ==> (#[trigger] arguments[i]).name@ != name,
    decreases arguments.len(),
{
    if arguments.len() > 0 && arguments[0].name@ != name {
        let rest = arguments.drop_first();
        lemma_argument_position(rest, name);
        assert forall|i: int| 0 <= i < argument_position(arguments, name) implies (
        #[trigger] arguments[i]).name@ != name by {
            if i > 0 {
                assert(arguments[i] == rest[i - 1]);
            }
        }
    }
}

/// Whether `value` has the shape `kind`.
pub open spec fn fits(kind: ParamKind, value: ArgValue) -> bool {
    match kind {
        ParamKind::Text => value is Text,
        ParamKind::Number => value is Number,
        ParamKind::Unsigned32 => value matches ArgValue::Number(n) && !n.below_zero
            && !n.fractional && n.whole <= u32::MAX,
        ParamKind::Unsigned64 => value matches ArgValue::Number(n) && !n.below_zero
            && !n.fractional,
        ParamKind::List => value is List,
    }
}

/// Whether `arguments` meet what `param` declares: a required parameter
/// has a value of its shape, and an optional one has such a value, no value
/// or none at all.
pub open spec fn param_met(param: ToolParam, arguments: Seq<Argument>) -> bool {
    match argument_value(arguments, param.name@) {
        None => !param.required,
        Some(ArgValue::Null) => !param.required,
        Some(value) => fits(param.kind, value),
    }
}

/// Whether `arguments` meet every declared parameter.
pub open spec fn arguments_valid(params: Seq<ToolParam>, arguments: Seq<Argument>) -> bool {
    forall|i: int| 0 <= i < params.len() ==> param_met(#[trigger] params[i], arguments)
}

/// The place of the first parameter that `arguments` do not meet, or the
/// number of parameters where they meet all.
pub open spec fn first_unmet(params: Seq<ToolParam>, arguments: Seq<Argument>) -> int
    decreases params.len(),
{
    if params.len() == 0 {
        0
    } else if !param_met(params[0], arguments) {
        0
    } else {
        1 + first_unmet(params.drop_first(), arguments)
    }
}

/// `first_unmet` is the least place of a parameter that is not met, and the
/// arguments are valid exactly when there is no such place.
pub proof fn lemma_first_unmet(params: Seq<ToolParam>, arguments: Seq<Argument>)
    ensures
        0 <= first_unmet(params, arguments) <= params.len(),
        first_unmet(params, arguments) < params.len() ==> !param_met(
            params[first_unmet(params, arguments)],
            arguments,
        ),
        forall|i: int|
            0 <= i < first_unmet(params, arguments) ==> param_met(#[trigger] params[i], arguments),
        arguments_valid(params, arguments) <==> first_unmet(params, arguments) == params.len(),
    decreases params.len(),
{
    if params.len() > 0 && param_met(params[0], arguments) {
        let rest = params.drop_first();
        lemma_first_unmet(rest, arguments);
        assert forall|i: int| 0 <= i < first_unmet(params, arguments) implies param_met(
            #[trigger] params[i],
            arguments,
        ) by {
            if i > 0 {
                assert(params[i] == rest[i - 1]);
            }
        }
    }
}

/// The failure reported for an invocation of a tool that is not registered.
pub open spec fn unknown_tool_error(tool_name: Seq<char>) -> NormalizedErrorView {
    NormalizedErrorView {
        domain: "dispatch"@,
        kind: ErrorKind::Dispatch(DispatchErrorKind::UnknownTool),
        message: "Tool not found: "@ + tool_name,
    }
}

/// The failure reported for arguments that do not meet the parameter
/// called `param_name`.
pub open spec fn invalid_arguments_error(param_name: Seq<char>) -> NormalizedErrorView {
    NormalizedErrorView {
        domain: "dispatch"@,
        kind: ErrorKind::Dispatch(DispatchErrorKind::InvalidArguments),
        message: "Invalid arguments: "@ + param_name,
    }
}

/// What resolving `tool_name` with `arguments` in `registry` gives: the
/// descriptor to run, or the failure to report. An unknown tool is reported
/// before any argument is looked at; of several parameters that are not
/// met, the first declared is reported.
pub open spec fn resolution<H>(
    registry: RegistryView<H>,
    tool_name: Seq<char>,
    arguments: Seq<Argument>,
) -> Result<ToolDescriptor<H>, NormalizedErrorView> {
    match registry.lookup(tool_name) {
        Err(_) => Err(unknown_tool_error(tool_name)),
        Ok(descriptor) => {
            let at = first_unmet(descriptor.parameters@, arguments);
            if at < descriptor.parameters@.len() {
                Err(invalid_arguments_error(descriptor.parameters@[at].name@))
            } else {
                Ok(descriptor)
            }
        },
    }
}

/// Arguments that lack a required parameter are rejected: resolution fails
/// with `InvalidArguments`, so that no handler runs.
pub proof fn lemma_missing_argument_is_rejected<H>(
    registry: RegistryView<H>,
    tool_name: Seq<char>,
    arguments: Seq<Argument>,
    at: int,
)
    requires
        registry.lookup(tool_name) is Ok,
        0 <= at < registry.lookup(tool_name)->Ok_0.parameters@.len(),
        registry.lookup(tool_name)->Ok_0.parameters@[at].required,
        argument_value(arguments, registry.lookup(tool_name)->Ok_0.parameters@[at].name@) is None,
    ensures
        resolution(registry, tool_name, arguments) matches Err(error) && error.kind
            == ErrorKind::Dispatch(DispatchErrorKind::InvalidArguments),
{
    let params = registry.lookup(tool_name)->Ok_0.parameters@;
    lemma_first_unmet(params, arguments);
    assert(!param_met(params[at], arguments));
}

/// An invocation of a tool that is not registered is rejected: resolution
/// fails with `UnknownTool`.
pub proof fn lemma_unknown_tool_is_rejected<H>(
    registry: RegistryView<H>,
    tool_name: Seq<char>,
    arguments: Seq<Argument>,
)
    requires
        !registry.contains(tool_name),
    ensures
        resolution(registry, tool_name, arguments) == Err::<ToolDescriptor<H>, NormalizedErrorView>(
            unknown_tool_error(tool_name),
        ),
{
}

/// What is sent back for the outcome of a tool.
pub open spec fn response_of(outcome: Result<ContentEnvelope, NormalizedError>) -> ResponseView {
    match outcome {
        Ok(envelope) => ResponseView::Content(envelope@),
        Err(error) => ResponseView::Error(error@),
    }
}

/// The value given for `name` in `arguments`, if any.
pub fn find_argument<'a>(arguments: &'a Vec<Argument>, name: &str) -> (found: Option<&'a ArgValue>)
    ensures
        match found {
            Some(value) => argument_value(arguments@, name@) == Some(*value),
            None => argument_value(arguments@, name@) is None,
        },
{
    let key = String::from_str(name);
    let mut i: usize = 0;
    proof {
        lemma_argument_position(arguments@, name@);
    }
    while i < arguments.len()
        invariant
            i <= arguments.len(),
            i <= argument_position(arguments@, name@),
        decreases arguments.len() - i,
    {
        if arguments[i].name == key {
            return Some(&arguments[i].value);
        }
        i += 1;
    }
    None
}

/// Tells whether `value` has the shape `kind`.
pub fn value_fits(kind: ParamKind, value: &ArgValue) -> (ok: bool)
    ensures
        ok == fits(kind, *value),
{
    match kind {
        ParamKind::Text => match value {
            ArgValue::Text(_) => true,
            _ => false,
        },
        ParamKind::Number => match value {
            ArgValue::Number(_) => true,
            _ => false,
        },
        ParamKind::Unsigned32 => match value {
            ArgValue::Number(n) => !n.below_zero && !n.fractional && n.whole <= 0xffff_ffff,
            _ => false,
        },
        ParamKind::Unsigned64 => match value {
            ArgValue::Number(n) => !n.below_zero && !n.fractional,
            _ => false,
        },
        ParamKind::List => match value {
            ArgValue::List(_) => true,
            _ => false,
        },
    }
}

/// Tells whether `arguments` meet what `param` declares.
pub fn check_param(param: &ToolParam, arguments: &Vec<Argument>) -> (ok: bool)
    ensures
        ok == param_met(*param, arguments@),
{
    match find_argument(arguments, param.name.as_str()) {
        None => !param.required,
        Some(value) => match value {
            ArgValue::Null => !param.required,
            _ => value_fits(param.kind, value),
        },
    }
}

/// The first parameter that `arguments` do not meet, if there is one.
pub fn find_unmet<'a>(params: &'a Vec<ToolParam>, arguments: &Vec<Argument>) -> (unmet: Option<
    &'a ToolParam,
>)
    ensures
        unmet is None <==> arguments_valid(params@, arguments@),
        unmet matches Some(param) ==> first_unmet(params@, arguments@) < params@.len() && *param
            == params@[first_unmet(params@, arguments@)],
{
    let mut i: usize = 0;
    proof {
        lemma_first_unmet(params@, arguments@);
    }
    while i < params.len()
        invariant
            i <= params.len(),
            i <= first_unmet(params@, arguments@),
        decreases params.len() - i,
    {
        if !check_param(&params[i], arguments) {
            return Some(&params[i]);
        }
        i += 1;
    }
    None
}

/// The string given for `name`, where a string is given.
pub open spec fn text_argument(arguments: Seq<Argument>, name: Seq<char>) -> Option<Seq<char>> {
    match argument_value(arguments, name) {
        Some(ArgValue::Text(text)) => Some(text@),
        _ => None,
    }
}

/// The number given for `name`, where a number is given.
pub open spec fn number_argument(arguments: Seq<Argument>, name: Seq<char>) -> Option<Number> {
    match argument_value(arguments, name) {
        Some(ArgValue::Number(number)) => Some(number),
        _ => None,
    }
}

/// The whole number given for `name`, where one from 0 to `max` is given.
pub open spec fn unsigned_argument(arguments: Seq<Argument>, name: Seq<char>, max: u64) -> Option<
    u64,
> {
    match argument_value(arguments, name) {
        Some(ArgValue::Number(number)) => if !number.below_zero && !number.fractional
            && number.whole <= max {
            Some(number.whole)
        } else {
            None
        },
        _ => None,
    }
}

/// The whole number given for `name`, where one from 0 to `u32::MAX` is
/// given.
pub open spec fn u32_argument(arguments: Seq<Argument>, name: Seq<char>) -> Option<u32> {
    match unsigned_argument(arguments, name, u32::MAX as u64) {
        Some(number) => Some(number as u32),
        None => None,
    }
}

/// The list given for `name`, where a list is given.
pub open spec fn list_argument(arguments: Seq<Argument>, name: Seq<char>) -> Option<Seq<String>> {
    match argument_value(arguments, name) {
        Some(ArgValue::List(items)) => Some(items@),
        _ => None,
    }
}

/// The string given for `name`, if one is given.
pub fn text_arg<'a>(arguments: &'a Vec<Argument>, name: &str) -> (text: Option<&'a str>)
    ensures
        crate::text::optional_view(text) == text_argument(arguments@, name@),
{
    match find_argument(arguments, name) {
        Some(ArgValue::Text(text)) => Some(text.as_str()),
        _ => None,
    }
}

/// The number given for `name`, if one is given.
pub fn number_arg<'a>(arguments: &'a Vec<Argument>, name: &str) -> (number: Option<&'a Number>)
    ensures
        match number {
            Some(n) => number_argument(arguments@, name@) == Some(*n),
            None => number_argument(arguments@, name@) is None,
        },
{
    match find_argument(arguments, name) {
        Some(ArgValue::Number(number)) => Some(number),
        _ => None,
    }
}

/// The whole number given for `name`, if one from 0 to `max` is given.
pub fn unsigned_arg(arguments: &Vec<Argument>, name: &str, max: u64) -> (number: Option<u64>)
    ensures
        number == unsigned_argument(arguments@, name@, max),
{
    match find_argument(arguments, name) {
        Some(ArgValue::Number(number)) => {
            if !number.below_zero && !number.fractional && number.whole <= max {
                Some(number.whole)
            } else {
                None
            }
        },
        _ => None,
    }
}

/// The whole number given for `name`, if one from 0 to `u32::MAX` is given.
pub fn u32_arg(arguments: &Vec<Argument>, name: &str) -> (number: Option<u32>)
    ensures
        number == u32_argument(arguments@, name@),
{
    match unsigned_arg(arguments, name, 0xffff_ffff) {
        Some(number) => Some(number as u32),
        None => None,
    }
}

/// The list given for `name`, if one is given.
pub fn list_arg<'a>(arguments: &'a Vec<Argument>, name: &str) -> (items: Option<&'a Vec<String>>)
    ensures
        match items {
            Some(list) => list_argument(arguments@, name@) == Some(list@),
            None => list_argument(arguments@, name@) is None,
        },
{
    match find_argument(arguments, name) {
        Some(ArgValue::List(items)) => Some(items),
        _ => None,
    }
}

/// Resolves invocations against a registry and shapes what is sent back.
/// It keeps nothing between invocations.
pub struct Dispatcher {}

impl Dispatcher {
    /// Finds the tool that `invocation` names and checks the arguments
    /// against its parameters. No handler is run.
    pub fn resolve<'a, H>(registry: &'a Registry<H>, invocation: &Invocation) -> (resolved: Result<
        &'a ToolDescriptor<H>,
        NormalizedError,
    >)
        ensures
            match resolved {
                Ok(descriptor) => resolution(
                    registry@,
                    invocation.tool_name@,
                    invocation.arguments@,
                ) == Ok::<ToolDescriptor<H>, NormalizedErrorView>(*descriptor)
                    && arguments_valid(descriptor.parameters@, invocation.arguments@)
                    && descriptor.name@ == invocation.tool_name@,
                Err(error) => resolution(registry@, invocation.tool_name@, invocation.arguments@)
                    == Err::<ToolDescriptor<H>, NormalizedErrorView>(error@),
            },
    {
        match registry.lookup(invocation.tool_name.as_str()) {
            Err(_) => Err(
                NormalizedError {
                    domain: String::from_str("dispatch"),
                    kind: ErrorKind::Dispatch(DispatchErrorKind::UnknownTool),
                    message: concat("Tool not found: ", invocation.tool_name.as_str()),
                },
            ),
            Ok(descriptor) => {
                proof {
                    lemma_first_unmet(descriptor.parameters@, invocation.arguments@);
                }
                match find_unmet(&descriptor.parameters, &invocation.arguments) {
                    Some(param) => Err(
                        NormalizedError {
                            domain: String::from_str("dispatch"),
                            kind: ErrorKind::Dispatch(DispatchErrorKind::InvalidArguments),
                            message: concat("Invalid arguments: ", param.name.as_str()),
                        },
                    ),
                    None => Ok(descriptor),
                }
            },
        }
    }

    /// Shapes the outcome of a tool into the response: content is
    /// forwarded as it is, and so is a failure.
    pub fn respond(outcome: Result<ContentEnvelope, NormalizedError>) -> (response: Response)
        ensures
            response@ == response_of(outcome),
    {
        match outcome {
            Ok(envelope) => Response::Content(envelope),
            Err(error) => Response::Error(error),
        }
    }

    /// Serves one invocation of a tool of the integrations, as far as the
    /// answers so far allow: resolves it and calls the tool. The result is
    /// the next thing to ask of the outside world, or the end of the call.
    /// Where resolution fails, the call ends at once with that failure.
    pub fn serve(
        registry: &Registry<Tool>,
        invocation: &Invocation,
        env: &Vec<Pair>,
        replies: &Vec<Outcome>,
    ) -> (step: Step<NormalizedError>)
        ensures
            match resolution(registry@, invocation.tool_name@, invocation.arguments@) {
                Err(error) => step matches Step::Done(Err(failure)) && failure@ == error,
                Ok(descriptor) => tool_step(
                    step,
                    descriptor.handler,
                    env@,
                    invocation.arguments@,
                    replies@,
                ),
            },
    {
        match Dispatcher::resolve(registry, invocation) {
            Err(error) => Step::Done(Err(error)),
            Ok(descriptor) => call_tool(descriptor.handler, env, &invocation.arguments, replies),
        }
    }

    /// Serves one invocation with handlers that are plain functions:
    /// resolves it, runs the handler of the tool once on the arguments, and
    /// shapes the outcome. Where resolution fails, no handler is run.
    pub fn invoke<H: Fn(&Vec<Argument>) -> Result<ContentEnvelope, NormalizedError>>(
        registry: &Registry<H>,
        invocation: &Invocation,
    ) -> (response: Response)
        requires
            forall|i: int|
                0 <= i < registry@.tools.len() ==> call_requires(
                    (#[trigger] registry@.tools[i]).handler,
                    (&invocation.arguments,),
                ),
        ensures
            match resolution(registry@, invocation.tool_name@, invocation.arguments@) {
                Err(error) => response@ == ResponseView::Error(error),
                Ok(descriptor) => exists|outcome: Result<ContentEnvelope, NormalizedError>|
                    call_ensures(descriptor.handler, (&invocation.arguments,), outcome)
                        && response@ == #[trigger] response_of(outcome),
            },
    {
        match Dispatcher::resolve(registry, invocation) {
            Err(error) => Response::Error(error),
            Ok(descriptor) => {
                proof {
                    let at = registry@.position(invocation.tool_name@);
                    assert(registry@.contains(invocation.tool_name@));
                    assert(registry@.tools[at] == *descriptor);
                }
                let outcome = (descriptor.handler)(&invocation.arguments);
                let response = Dispatcher::respond(outcome);
                response
            },
        }
    }
}

} // verus!
