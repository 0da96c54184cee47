use vstd::prelude::*;
use crate::connection::{any_host, ConnectionSetup, PhaseView, Protocol, SetupView, TargetView, Transport};

verus! {

/// Routes every message to its destination; it pulls what brokers push.
pub struct Router;

impl Router {
    /// The router binds a pull socket over TCP on every interface.
    pub fn connection_setup() -> (s: ConnectionSetup)
        ensures
            s@ == (SetupView {
                transport: Transport::Tcp,
                protocol: Protocol::Pull,
                target: TargetView::Bind(any_host()),
                phase: PhaseView::CreatingSocket,
            }),
    {
        ConnectionSetup::binding_any(Transport::Tcp, Protocol::Pull)
    }
}

} // verus!
