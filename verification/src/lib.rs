//! Tools for an agent, served over the Model Context Protocol: the registry
//! that holds the tools of one integration, the dispatcher that brings a
//! call to its tool, the tools of six integrations, and the state machines
//! of the two transports.
//!
//! Nothing here touches the outside world. A tool is a function from the
//! answers that the outside world has given so far to the next thing to ask
//! of it, or to the result of the call; the program around the library does
//! the asking.

#![verifier::loop_isolation(false)]

pub mod bootstrap;
pub mod content;
pub mod dispatch;
pub mod effect;
pub mod encoding;
pub mod json;
pub mod port;
pub mod registry;
pub mod servers;
pub mod session;
pub mod text;
