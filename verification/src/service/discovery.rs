use vstd::prelude::*;
use vstd::string::StringExecFns;
use crate::data::message::{Body, Header, Message, MessageView};
use crate::connection::{any_host, ConnectionSetup, PhaseView, Protocol, SetupView, TargetView, Transport};

verus! {

/// Keeps the entries of registered services and runs a callback when one
/// comes or goes.
pub struct Registry;

impl Registry {
    pub fn new() -> Registry {
        Registry
    }

    /// Runs the callback once, for a new entry.
    pub fn on_register_new_entry<F: FnOnce()>(&self, c: F)
        requires
            c.requires(()),
        ensures
            c.ensures((), ()),
    {
        c()
    }

    /// Runs the callback once, for an entry that leaves.
    pub fn on_unregister_existing_entry<F: FnOnce()>(&self, c: F)
        requires
            c.requires(()),
        ensures
            c.ensures((), ()),
    {
        c()
    }
}

/// The answer of discovery to a request: a `REGISTER` request is answered
/// from `discovery` to its sender with command `SET` and the address table as
/// payload; nothing else is answered.
pub open spec fn discovery_answer(request: MessageView, address_table: Seq<char>) -> Option<MessageView> {
    if request.command == "REGISTER"@ {
        Some(
            MessageView {
                header: ("discovery"@, request.header.0),
                command: "SET"@,
                payload: address_table,
            },
        )
    } else {
        None
    }
}

/// Registers services: providers send it a request and it replies.
pub struct Discovery;

impl Discovery {
    /// Discovery binds a reply socket over TCP on every interface.
    pub fn connection_setup() -> (s: ConnectionSetup)
        ensures
            s@ == (SetupView {
                transport: Transport::Tcp,
                protocol: Protocol::Rep,
                target: TargetView::Bind(any_host()),
                phase: PhaseView::CreatingSocket,
            }),
    {
        ConnectionSetup::binding_any(Transport::Tcp, Protocol::Rep)
    }

    /// The answer of discovery to a request: a provider that registers is
    /// sent the address table (the addresses of the health checker, the
    /// broker and the publisher, as a JSON object) with command `SET`; nothing
    /// else is answered.
    pub fn answer(request: &Message, address_table: &str) -> (r: Option<Message>)
        ensures
            match r {
                Some(m) => discovery_answer(request@, address_table@) == Some(m@),
                None => discovery_answer(request@, address_table@) is None,
            },
    {
        let register = String::from_str("REGISTER");
        if request.body.command == register {
            Some(
                Message {
                    header: Header::new(String::from_str("discovery"), request.header.source().clone()),
                    body: Body {
                        command: String::from_str("SET"),
                        payload: String::from_str(address_table),
                    },
                },
            )
        } else {
            None
        }
    }
}

} // verus!
