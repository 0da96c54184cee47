use vstd::prelude::*;
use crate::connection::Transport;

pub mod discovery;
pub mod health;
pub mod router;

verus! {

/// How a service cycle failed. These stand for the kinds of I/O error that a
/// cycle reports: a reply that is not a message, a socket that would block, a
/// read that failed, and an endpoint that went away.
#[derive(Clone, Copy, Debug, PartialEq, Eq, Structural)]
pub enum CycleError {
    InvalidData,
    WouldBlock,
    TimedOut,
    UnexpectedEof,
}

/// Where a service listens: the transport (TCP when none is named) and the
/// host it binds to (every interface when none is named).
#[derive(Debug)]
pub struct ServiceOptions {
    pub transport: Option<Transport>,
    pub bind_address: Option<String>,
}

/// A service runs in cycles; each cycle yields the command of the reply it
/// got, or why it got none.
pub trait Service {
    fn cycle(&mut self) -> Result<String, CycleError>;
}

} // verus!
