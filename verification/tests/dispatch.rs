use mcp_servers::content::{
    ContentEnvelope, DispatchErrorKind, ErrorKind, NormalizedError, Response, ToolResponseContent,
};
use mcp_servers::dispatch::{ArgValue, Argument, Dispatcher, Invocation, Number};
use mcp_servers::registry::{ParamKind, Registry, ToolDescriptor, ToolParam};
use std::cell::Cell;

type Handler = fn(&Vec<Argument>) -> Result<ContentEnvelope, NormalizedError>;

fn echo(arguments: &Vec<Argument>) -> Result<ContentEnvelope, NormalizedError> {
    for argument in arguments {
        if argument.name == "msg" {
            if let ArgValue::Text(text) = &argument.value {
                return Ok(ContentEnvelope::single(ToolResponseContent::text(text.clone())));
            }
        }
    }
    unreachable!("the dispatcher lets no call through without msg")
}

fn param(name: &str, kind: ParamKind, required: bool) -> ToolParam {
    ToolParam { name: name.to_string(), description: String::new(), kind, required }
}

fn text_argument(name: &str, value: &str) -> Argument {
    Argument { name: name.to_string(), value: ArgValue::Text(value.to_string()) }
}

fn number(text: &str, below_zero: bool, whole: u64, fractional: bool) -> ArgValue {
    ArgValue::Number(Number { below_zero, whole, fractional, text: text.to_string() })
}

fn echo_registry() -> Registry<Handler> {
    let mut registry: Registry<Handler> = Registry::new("Echo".to_string(), "0.1.0".to_string());
    let registered = registry.register(ToolDescriptor {
        name: "Echo".to_string(),
        description: "Says it again.".to_string(),
        parameters: vec![param("msg", ParamKind::Text, true)],
        handler: echo as Handler,
    });
    assert_eq!(registered, Ok(()));
    registry.build()
}

fn invalid(param: &str) -> Response {
    Response::Error(NormalizedError {
        domain: "dispatch".to_string(),
        kind: ErrorKind::Dispatch(DispatchErrorKind::InvalidArguments),
        message: format!("Invalid arguments: {}", param),
    })
}

#[test]
fn echo_round_trip() {
    let registry = echo_registry();
    let invocation =
        Invocation { tool_name: "Echo".to_string(), arguments: vec![text_argument("msg", "hi")] };
    let response = Dispatcher::invoke(&registry, &invocation);
    match response {
        Response::Content(envelope) => {
            assert_eq!(envelope.len(), 1);
            assert_eq!(envelope.items()[0], ToolResponseContent::Text { text: "hi".to_string() });
        }
        other => panic!("{:?}", other),
    }
}

#[test]
fn unknown_tool_is_reported_and_not_fatal() {
    let registry = echo_registry();
    let invocation =
        Invocation { tool_name: "Shout".to_string(), arguments: vec![text_argument("msg", "hi")] };
    let response = Dispatcher::invoke(&registry, &invocation);
    assert_eq!(
        response,
        Response::Error(NormalizedError {
            domain: "dispatch".to_string(),
            kind: ErrorKind::Dispatch(DispatchErrorKind::UnknownTool),
            message: "Tool not found: Shout".to_string(),
        })
    );
    let again =
        Invocation { tool_name: "Echo".to_string(), arguments: vec![text_argument("msg", "yo")] };
    assert!(matches!(Dispatcher::invoke(&registry, &again), Response::Content(_)));
}

#[test]
fn missing_required_parameter_runs_no_handler() {
    let calls = Cell::new(0u32);
    let handler = |_arguments: &Vec<Argument>| -> Result<ContentEnvelope, NormalizedError> {
        calls.set(calls.get() + 1);
        Ok(ContentEnvelope::single(ToolResponseContent::text("ran".to_string())))
    };
    let mut registry = Registry::new("Count".to_string(), "0.1.0".to_string());
    let registered = registry.register(ToolDescriptor {
        name: "Count".to_string(),
        description: String::new(),
        parameters: vec![
            param("first", ParamKind::Text, true),
            param("second", ParamKind::Text, true),
            param("third", ParamKind::Unsigned32, false),
        ],
        handler,
    });
    assert_eq!(registered, Ok(()));
    let registry = registry.build();

    let nothing = Invocation { tool_name: "Count".to_string(), arguments: vec![] };
    assert_eq!(Dispatcher::invoke(&registry, &nothing), invalid("first"));
    let only_second = Invocation {
        tool_name: "Count".to_string(),
        arguments: vec![text_argument("second", "b")],
    };
    assert_eq!(Dispatcher::invoke(&registry, &only_second), invalid("first"));
    let only_first = Invocation {
        tool_name: "Count".to_string(),
        arguments: vec![text_argument("first", "a")],
    };
    assert_eq!(Dispatcher::invoke(&registry, &only_first), invalid("second"));
    let null_second = Invocation {
        tool_name: "Count".to_string(),
        arguments: vec![
            text_argument("first", "a"),
            Argument { name: "second".to_string(), value: ArgValue::Null },
        ],
    };
    assert_eq!(Dispatcher::invoke(&registry, &null_second), invalid("second"));
    assert_eq!(calls.get(), 0);

    let both = Invocation {
        tool_name: "Count".to_string(),
        arguments: vec![text_argument("second", "b"), text_argument("first", "a")],
    };
    assert!(matches!(Dispatcher::invoke(&registry, &both), Response::Content(_)));
    assert_eq!(calls.get(), 1);
}

#[test]
fn arguments_of_the_wrong_shape_are_rejected() {
    let calls = Cell::new(0u32);
    let handler = |_arguments: &Vec<Argument>| -> Result<ContentEnvelope, NormalizedError> {
        calls.set(calls.get() + 1);
        Ok(ContentEnvelope::single(ToolResponseContent::text("ran".to_string())))
    };
    let mut registry = Registry::new("Shapes".to_string(), "0.1.0".to_string());
    let registered = registry.register(ToolDescriptor {
        name: "Shapes".to_string(),
        description: String::new(),
        parameters: vec![
            param("text", ParamKind::Text, true),
            param("small", ParamKind::Unsigned32, false),
            param("large", ParamKind::Unsigned64, false),
            param("any", ParamKind::Number, false),
            param("list", ParamKind::List, false),
        ],
        handler,
    });
    assert_eq!(registered, Ok(()));
    let registry = registry.build();
    let call = |extra: Vec<Argument>| {
        let mut arguments = vec![text_argument("text", "t")];
        arguments.extend(extra);
        Dispatcher::invoke(&registry, &Invocation { tool_name: "Shapes".to_string(), arguments })
    };
    let given = |name: &str, value: ArgValue| vec![Argument { name: name.to_string(), value }];

    assert_eq!(call(given("small", ArgValue::Text("1".to_string()))), invalid("small"));
    assert_eq!(call(given("small", number("-1", true, 1, false))), invalid("small"));
    assert_eq!(call(given("small", number("1.5", false, 1, true))), invalid("small"));
    assert_eq!(call(given("small", number("4294967296", false, 4294967296, false))), invalid("small"));
    assert_eq!(call(given("large", number("-0.5", true, 0, true))), invalid("large"));
    assert_eq!(call(given("any", ArgValue::Flag(true))), invalid("any"));
    assert_eq!(call(given("list", ArgValue::Text("[]".to_string()))), invalid("list"));
    assert_eq!(
        Dispatcher::invoke(
            &registry,
            &Invocation {
                tool_name: "Shapes".to_string(),
                arguments: given("text", number("1", false, 1, false)),
            }
        ),
        invalid("text")
    );
    assert_eq!(calls.get(), 0);

    assert!(matches!(call(given("small", number("4294967295", false, 4294967295, false))), Response::Content(_)));
    assert!(matches!(call(given("large", number("18446744073709551615", false, u64::MAX, false))), Response::Content(_)));
    assert!(matches!(call(given("any", number("-1.5", true, 1, true))), Response::Content(_)));
    assert!(matches!(call(given("list", ArgValue::List(vec![]))), Response::Content(_)));
    assert!(matches!(call(given("small", ArgValue::Null)), Response::Content(_)));
    assert!(matches!(call(given("unknown", ArgValue::Flag(false))), Response::Content(_)));
    assert_eq!(calls.get(), 6);
}

#[test]
fn first_argument_of_a_name_counts() {
    let registry = echo_registry();
    let invocation = Invocation {
        tool_name: "Echo".to_string(),
        arguments: vec![text_argument("msg", "first"), text_argument("msg", "second")],
    };
    match Dispatcher::invoke(&registry, &invocation) {
        Response::Content(envelope) => {
            assert_eq!(envelope.into_items(), vec![ToolResponseContent::Text { text: "first".to_string() }]);
        }
        other => panic!("{:?}", other),
    }
}

#[test]
fn resolve_hands_out_the_descriptor() {
    let registry = echo_registry();
    let invocation =
        Invocation { tool_name: "Echo".to_string(), arguments: vec![text_argument("msg", "hi")] };
    let descriptor = Dispatcher::resolve(&registry, &invocation).expect("resolves");
    assert_eq!(descriptor.name, "Echo");
    assert_eq!(descriptor.parameters.len(), 1);
}

#[test]
fn respond_forwards_content_and_failure_unchanged() {
    let envelope = ContentEnvelope::single(ToolResponseContent::text("a".to_string()))
        .and(ToolResponseContent::image("aGk=".to_string(), "image/png".to_string()));
    match Dispatcher::respond(Ok(envelope)) {
        Response::Content(envelope) => assert_eq!(
            envelope.into_items(),
            vec![
                ToolResponseContent::Text { text: "a".to_string() },
                ToolResponseContent::Image {
                    data: "aGk=".to_string(),
                    mime_type: "image/png".to_string()
                },
            ]
        ),
        other => panic!("{:?}", other),
    }
    let failure = NormalizedError {
        domain: "arxiv".to_string(),
        kind: ErrorKind::Arxiv(mcp_servers::content::ArxivErrorKind::ApiError),
        message: "API error: rate limited".to_string(),
    };
    assert_eq!(
        Dispatcher::respond(Err(NormalizedError {
            domain: "arxiv".to_string(),
            kind: ErrorKind::Arxiv(mcp_servers::content::ArxivErrorKind::ApiError),
            message: "API error: rate limited".to_string(),
        })),
        Response::Error(failure)
    );
}

#[test]
fn envelope_is_never_empty() {
    assert!(ContentEnvelope::from_items(vec![]).is_none());
    let envelope = ContentEnvelope::from_items(vec![ToolResponseContent::text("x".to_string())])
        .expect("one item");
    assert_eq!(envelope.len(), 1);
}
