//! Port acquisition for the network transport: probe upwards from a first
//! candidate until a port can be bound.

use vstd::prelude::*;
use crate::bootstrap::BootstrapError;
use crate::text::{bounded_value, parse_unsigned};

verus! {

/// The port that is tried first where none is configured.
pub const DEFAULT_PORT: u16 = 3000;

/// The state of port acquisition: the port that is tried, and whether it
/// was bound.
#[derive(Clone, Copy, Debug, PartialEq, Eq, Structural)]
pub struct PortBinding {
    pub candidate_port: u16,
    pub bound: bool,
}

impl PortBinding {
    /// The state after an attempt to bind the candidate port. Success binds
    /// it. Failure moves on to the next port, and is final at the last port
    /// there is. Once a port is bound, nothing changes any more.
    pub open spec fn after_attempt(self, succeeded: bool) -> Result<PortBinding, BootstrapError> {
        if self.bound {
            Ok(self)
        } else if succeeded {
            Ok(PortBinding { candidate_port: self.candidate_port, bound: true })
        } else if self.candidate_port == u16::MAX {
            Err(BootstrapError::NoAvailablePort)
        } else {
            Ok(PortBinding { candidate_port: (self.candidate_port + 1) as u16, bound: false })
        }
    }

    /// Acquisition before its first attempt, with `port` as the candidate.
    pub fn starting_at(port: u16) -> (binding: PortBinding)
        ensures
            binding == (PortBinding { candidate_port: port, bound: false }),
    {
        PortBinding { candidate_port: port, bound: false }
    }

    /// Takes note of an attempt to bind the candidate port.
    pub fn record_attempt(self, succeeded: bool) -> (next: Result<PortBinding, BootstrapError>)
        ensures
            next == self.after_attempt(succeeded),
    {
        if self.bound {
            Ok(self)
        } else if succeeded {
            Ok(PortBinding { candidate_port: self.candidate_port, bound: true })
        } else if self.candidate_port == u16::MAX {
            Err(BootstrapError::NoAvailablePort)
        } else {
            Ok(PortBinding { candidate_port: self.candidate_port + 1, bound: false })
        }
    }
}

/// The first candidate port for a configured value: the port that the value
/// writes, or the default where there is no value or it writes no port.
pub open spec fn first_candidate(configured: Option<Seq<char>>) -> u16 {
    match configured {
        Some(text) => match bounded_value(text, u16::MAX as nat) {
            Some(port) => port as u16,
            None => DEFAULT_PORT,
        },
        None => DEFAULT_PORT,
    }
}

/// The first candidate port, from the configured value if there is one.
pub fn configured_port(configured: Option<&str>) -> (port: u16)
    ensures
        port == first_candidate(
            match configured {
                Some(text) => Some(text@),
                None => None,
            },
        ),
{
    match configured {
        Some(text) => match parse_unsigned(text, 0xffff) {
            Some(port) => port as u16,
            None => DEFAULT_PORT,
        },
        None => DEFAULT_PORT,
    }
}

/// Probes the ports from `start` upwards with `try_bind`, one attempt per
/// port, and stops at the first port that it binds. The result is that
/// port: every port from `start` up to it was tried before and failed.
/// Where every port up to the last one fails, the result is
/// `NoAvailablePort`.
pub fn acquire_port<F: Fn(u16) -> bool>(start: u16, try_bind: F) -> (acquired: Result<
    u16,
    BootstrapError,
>)
    requires
        forall|port: u16| call_requires(try_bind, (port,)),
    ensures
        match acquired {
            Ok(port) => {
                &&& start <= port
                &&& call_ensures(try_bind, (port,), true)
                &&& forall|earlier: u16|
                    start <= earlier < port ==> call_ensures(try_bind, (earlier,), false)
            },
            Err(error) => {
                &&& error == BootstrapError::NoAvailablePort
                &&& forall|port: u16| start <= port ==> call_ensures(try_bind, (port,), false)
            },
        },
{
    let mut binding = PortBinding::starting_at(start);
    loop
        invariant
            !binding.bound,
            start <= binding.candidate_port,
            forall|port: u16| call_requires(try_bind, (port,)),
            forall|earlier: u16|
                start <= earlier < binding.candidate_port ==> call_ensures(
                    try_bind,
                    (earlier,),
                    false,
                ),
        decreases u16::MAX - binding.candidate_port,
    {
        let succeeded = try_bind(binding.candidate_port);
        match binding.record_attempt(succeeded) {
            Err(error) => {
                return Err(error);
            },
            Ok(next) => {
                if next.bound {
                    return Ok(next.candidate_port);
                }
                binding = next;
            },
        }
    }
}

} // verus!
