//! Choices made once at startup: which integration serves, over which
//! transport, and why startup can fail.

use vstd::prelude::*;
use crate::registry::{Registry, RegistryView, ServerCapabilities};
use crate::servers::tool::{catalog, Tool};
use crate::text::concat;

verus! {

/// The integrations that a server can be made of.
#[derive(Clone, Copy, Debug, PartialEq, Eq, Structural)]
pub enum ServerType {
    Arxiv,
    Twitter,
    Discord,
    Shopify,
    HuggingFace,
    Replicate,
}

/// The channels over which invocations can arrive.
#[derive(Clone, Copy, Debug, PartialEq, Eq, Structural)]
pub enum TransportType {
    /// Server-sent events over a network listener.
    Sse,
    /// The process's standard input and output.
    Stdio,
}

/// Why startup failed. Each of these ends the process.
#[derive(Clone, Copy, Debug, PartialEq, Eq, Structural)]
pub enum BootstrapError {
    /// No integration was chosen.
    NoServerSelected,
    /// The chosen integration is not part of this build.
    FeatureNotEnabled(ServerType),
    /// Every port from the first candidate up to the last one is taken.
    NoAvailablePort,
}

/// The name under which an integration is reported where it is missing.
pub open spec fn feature_name(server: ServerType) -> Seq<char> {
    match server {
        ServerType::Arxiv => "arxiv"@,
        ServerType::Twitter => "Twitter"@,
        ServerType::Discord => "Discord"@,
        ServerType::Shopify => "Shopify"@,
        ServerType::HuggingFace => "HuggingFace"@,
        ServerType::Replicate => "Replicate"@,
    }
}

/// The message of a startup failure.
pub open spec fn bootstrap_message(error: BootstrapError) -> Seq<char> {
    match error {
        BootstrapError::NoServerSelected => "No server selected"@,
        BootstrapError::FeatureNotEnabled(server) => feature_name(server)
            + " feature is not enabled"@,
        BootstrapError::NoAvailablePort => "No available ports found"@,
    }
}

impl BootstrapError {
    /// The message for people.
    pub fn message(&self) -> (message: String)
        ensures
            message@ == bootstrap_message(*self),
    {
        match self {
            BootstrapError::NoServerSelected => String::from_str("No server selected"),
            BootstrapError::FeatureNotEnabled(server) => {
                let name = match server {
                    ServerType::Arxiv => "arxiv",
                    ServerType::Twitter => "Twitter",
                    ServerType::Discord => "Discord",
                    ServerType::Shopify => "Shopify",
                    ServerType::HuggingFace => "HuggingFace",
                    ServerType::Replicate => "Replicate",
                };
                concat(name, " feature is not enabled")
            },
            BootstrapError::NoAvailablePort => String::from_str("No available ports found"),
        }
    }
}

/// The integration that serves, given the one that was asked for and those
/// that this build holds.
pub open spec fn selection(requested: Option<ServerType>, enabled: Seq<ServerType>) -> Result<
    ServerType,
    BootstrapError,
> {
    match requested {
        None => Err(BootstrapError::NoServerSelected),
        Some(server) => if enabled.contains(server) {
            Ok(server)
        } else {
            Err(BootstrapError::FeatureNotEnabled(server))
        },
    }
}

/// Selects the integration that serves: the one asked for, where this build
/// holds it.
pub fn select_server(requested: Option<ServerType>, enabled: &Vec<ServerType>) -> (selected: Result<
    ServerType,
    BootstrapError,
>)
    ensures
        selected == selection(requested, enabled@),
{
    match requested {
        None => Err(BootstrapError::NoServerSelected),
        Some(server) => {
            let mut i: usize = 0;
            while i < enabled.len()
                invariant
                    i <= enabled.len(),
                    forall|k: int| 0 <= k < i ==> enabled@[k] != server,
                decreases enabled.len() - i,
            {
                if enabled[i] == server {
                    assert(enabled@[i as int] == server);
                    return Ok(server);
                }
                i += 1;
            }
            Err(BootstrapError::FeatureNotEnabled(server))
        },
    }
}

/// The tools that the server of `server` holds, in the order of their
/// registration.
pub open spec fn tools_of(server: ServerType) -> Seq<Tool> {
    match server {
        ServerType::Arxiv => crate::servers::arvix::server::tools(),
        ServerType::Twitter => crate::servers::twitter::server::tools(),
        ServerType::Discord => crate::servers::discord::server::tools(),
        ServerType::Shopify => crate::servers::shopify::server::tools(),
        ServerType::HuggingFace => crate::servers::huggingface::server::tools(),
        ServerType::Replicate => crate::servers::replicate::server::tools(),
    }
}

/// The name of the server of `server`.
pub open spec fn server_name_of(server: ServerType) -> Seq<char> {
    match server {
        ServerType::Arxiv => "Arvix"@,
        ServerType::Twitter => "Twitter"@,
        ServerType::Discord => "Discord"@,
        ServerType::Shopify => "Shopify"@,
        ServerType::HuggingFace => "HuggingFace"@,
        ServerType::Replicate => "Replicate"@,
    }
}

/// Whether `registry` is the registry of the server of `server`: it has the
/// server's name, is in version 0.1.0, declares tools and nothing else,
/// holds the tools of that integration and no others, and is built.
pub open spec fn serves(registry: RegistryView<Tool>, server: ServerType) -> bool {
    &&& registry.server_name == server_name_of(server)
    &&& registry.server_version == "0.1.0"@
    &&& registry.capabilities == (ServerCapabilities {
        tools: true,
        prompts: false,
        resources: false,
        logging: false,
        experimental: false,
    })
    &&& registry.frozen
    &&& registry.wf()
    &&& catalog(registry.tools, tools_of(server))
}

/// The registry of the server of `server`.
pub fn protocol_of(server: ServerType) -> (registry: Registry<Tool>)
    ensures
        serves(registry@, server),
{
    match server {
        ServerType::Arxiv => crate::servers::arvix::server::protocol(),
        ServerType::Twitter => crate::servers::twitter::server::protocol(),
        ServerType::Discord => crate::servers::discord::server::protocol(),
        ServerType::Shopify => crate::servers::shopify::server::protocol(),
        ServerType::HuggingFace => crate::servers::huggingface::server::protocol(),
        ServerType::Replicate => crate::servers::replicate::server::protocol(),
    }
}

/// Starts up: selects the integration that serves and builds its registry.
/// It fails where no integration was asked for, and where the one asked for
/// is not among those that this build holds.
pub fn bootstrap(requested: Option<ServerType>, enabled: &Vec<ServerType>) -> (started: Result<
    Registry<Tool>,
    BootstrapError,
>)
    ensures
        match started {
            Ok(registry) => selection(requested, enabled@) matches Ok(server) && serves(
                registry@,
                server,
            ),
            Err(error) => selection(requested, enabled@) == Err::<ServerType, BootstrapError>(
                error,
            ),
        },
{
    match select_server(requested, enabled) {
        Ok(server) => Ok(protocol_of(server)),
        Err(error) => Err(error),
    }
}

} // verus!
