use vstd::prelude::*;
use vstd::string::StringExecFns;
use crate::connection::{
    setup_next, spec_connect_url, SetupActionView, SetupEventView, ConnectionSetup, ConnectionStateError, ErrorView, PhaseView, Protocol, SetupView, TargetView,
    Transport,
};
use crate::data::message::{Body, Header, Message, MessageView};
use crate::service::discovery::discovery_answer;

verus! {

/// Declares `std::io::Error`, which `process_incoming` returns, so that it can
/// be carried; Verus sees nothing inside it and nothing is claimed of it.
#[verifier::external_type_specification]
#[verifier::external_body]
pub struct ExIoError(std::io::Error);

/// A provider registers at the discovery service, which answers with the
/// addresses of the health checker, the broker it pushes to and the publisher
/// it subscribes to. It then connects a respondent socket to the health
/// checker, a push socket and a subscribe socket, and answers each ping of the
/// health checker with a pong.
pub struct Provider;

/// The messages a provider takes in, one at a time.
pub struct Incoming {
    inner: Provider,
}

impl Incoming {
    /// The provider whose messages this stream takes in.
    pub closed spec fn provider(&self) -> Provider {
        self.inner
    }
}

/// The addresses a provider learns when it registers: where the health
/// checker surveys, where it pushes, and where it subscribes.
#[derive(Debug)]
pub struct ProviderAddresses {
    pub health: String,
    pub push: String,
    pub publish: String,
}

pub struct AddressesView {
    pub health: Seq<char>,
    pub push: Seq<char>,
    pub publish: Seq<char>,
}

impl View for ProviderAddresses {
    type V = AddressesView;

    open spec fn view(&self) -> AddressesView {
        AddressesView { health: self.health@, push: self.push@, publish: self.publish@ }
    }
}

/// The entries of the JSON object `text` whose values are all strings, in the
/// order of their keys, as `serde_json` reads it into a `BTreeMap<String,
/// String>`; `None` where it does not read it so.
pub uninterp spec fn json_string_entries(text: Seq<char>) -> Option<Seq<(Seq<char>, Seq<char>)>>;

/// The entries, each taken as its characters.
pub open spec fn entries_view(v: Seq<(String, String)>) -> Seq<(Seq<char>, Seq<char>)> {
    v.map_values(|e: (String, String)| (e.0@, e.1@))
}

/// Reads `text` with `serde_json::from_str` into a `BTreeMap<String, String>`
/// and hands its entries out in the map's order; `None` where serde_json
/// refuses the text. What comes out is named `json_string_entries`; nothing
/// about JSON is claimed here.
#[verifier::external_body]
fn parse_string_map(text: &str) -> (r: Option<Vec<(String, String)>>)
    ensures
        match r {
            Some(v) => json_string_entries(text@) == Some(entries_view(v@)),
            None => json_string_entries(text@) is None,
        },
{
    serde_json::from_str::<std::collections::BTreeMap<String, String>>(text).ok().map(
        |m| m.into_iter().collect(),
    )
}

/// The value of the first entry with this key.
pub open spec fn lookup(entries: Seq<(Seq<char>, Seq<char>)>, key: Seq<char>) -> Option<Seq<char>>
    decreases entries.len(),
{
    if entries.len() == 0 {
        None
    } else if entries[0].0 == key {
        Some(entries[0].1)
    } else {
        lookup(entries.drop_first(), key)
    }
}

/// The addresses in an address table: its `health`, `push` and `publish`
/// entries, where all three are there.
pub open spec fn addresses_in(entries: Seq<(Seq<char>, Seq<char>)>) -> Option<AddressesView> {
    match (lookup(entries, "health"@), lookup(entries, "push"@), lookup(entries, "publish"@)) {
        (Some(h), Some(p), Some(q)) => Some(AddressesView { health: h, push: p, publish: q }),
        _ => None,
    }
}

/// The addresses that a reply of discovery hands out: a `SET` reply whose
/// payload is an address table holding all three.
pub open spec fn reply_addresses(command: Seq<char>, payload: Seq<char>) -> Option<AddressesView> {
    if command == "SET"@ {
        match json_string_entries(payload) {
            Some(entries) => addresses_in(entries),
            None => None,
        }
    } else {
        None
    }
}

/// Finds the value of the first entry with this key.
pub fn find_entry(entries: &Vec<(String, String)>, key: &str) -> (r: Option<String>)
    ensures
        match r {
            Some(v) => lookup(entries_view(entries@), key@) == Some(v@),
            None => lookup(entries_view(entries@), key@) is None,
        },
{
    let ghost all = entries_view(entries@);
    let wanted = String::from_str(key);
    let mut i: usize = 0;
    assert(all.skip(0) =~= all);
    while i < entries.len()
        invariant
            i <= entries.len(),
            all == entries_view(entries@),
            wanted@ == key@,
            lookup(all, key@) == lookup(all.skip(i as int), key@),
        decreases entries.len() - i,
    {
        let ghost rest = all.skip(i as int);
        assert(rest.len() > 0);
        assert(rest[0] == (entries@[i as int].0@, entries@[i as int].1@));
        if entries[i].0 == wanted {
            return Some(entries[i].1.clone());
        }
        assert(rest.drop_first() =~= all.skip(i + 1));
        i = i + 1;
    }
    None
}

impl Provider {
    /// The provider connects a request socket over TCP to the discovery
    /// service at `discovery_address`, to register.
    pub fn discovery_setup(discovery_address: &str) -> (s: ConnectionSetup)
        ensures
            s@ == (SetupView {
                transport: Transport::Tcp,
                protocol: Protocol::Req,
                target: TargetView::Connect(discovery_address@),
                phase: PhaseView::CreatingSocket,
            }),
    {
        ConnectionSetup::connecting(discovery_address, Transport::Tcp, Protocol::Req)
    }

    /// The request that registers the provider `name`: from `name` to
    /// `discovery`, command `REGISTER`, payload `name`.
    pub fn register_request(name: &str) -> (m: Message)
        ensures
            m@ == spec_register_request(name@),
    {
        Message {
            header: Header::new(String::from_str(name), String::from_str("discovery")),
            body: Body { command: String::from_str("REGISTER"), payload: String::from_str(name) },
        }
    }

    /// Takes the three addresses out of an address table.
    pub fn addresses_from_entries(entries: Vec<(String, String)>) -> (r: Option<ProviderAddresses>)
        ensures
            match r {
                Some(a) => addresses_in(entries_view(entries@)) == Some(a@),
                None => addresses_in(entries_view(entries@)) is None,
            },
    {
        let health = find_entry(&entries, "health");
        let push = find_entry(&entries, "push");
        let publish = find_entry(&entries, "publish");
        match (health, push, publish) {
            (Some(health), Some(push), Some(publish)) => Some(
                ProviderAddresses { health, push, publish },
            ),
            _ => None,
        }
    }

    /// The addresses that discovery's reply hands out; any other reply is
    /// malformed.
    pub fn addresses_from_reply(reply: &Message) -> (r: Result<ProviderAddresses, ConnectionStateError>)
        ensures
            match r {
                Ok(a) => reply_addresses(reply.body.command@, reply.body.payload@) == Some(a@),
                Err(e) => reply_addresses(reply.body.command@, reply.body.payload@) is None
                    && e@ == ErrorView::Malformed,
            },
    {
        let set = String::from_str("SET");
        if reply.body.command != set {
            return Err(ConnectionStateError::Malformed);
        }
        match parse_string_map(reply.body.payload.as_str()) {
            Some(entries) => match Self::addresses_from_entries(entries) {
                Some(a) => Ok(a),
                None => Err(ConnectionStateError::Malformed),
            },
            None => Err(ConnectionStateError::Malformed),
        }
    }

    /// The connections a registered provider makes, all over TCP: a
    /// respondent socket to the health checker, a push socket, and a
    /// subscribe socket to the publisher.
    pub fn connection_setups(addresses: &ProviderAddresses) -> (r: (
        ConnectionSetup,
        ConnectionSetup,
        ConnectionSetup,
    ))
        ensures
            r.0@ == connecting_view(addresses@.health, Protocol::Respondent),
            r.1@ == connecting_view(addresses@.push, Protocol::Push),
            r.2@ == connecting_view(addresses@.publish, Protocol::Sub),
    {
        (
            ConnectionSetup::connecting(addresses.health.as_str(), Transport::Tcp, Protocol::Respondent),
            ConnectionSetup::connecting(addresses.push.as_str(), Transport::Tcp, Protocol::Push),
            ConnectionSetup::connecting(addresses.publish.as_str(), Transport::Tcp, Protocol::Sub),
        )
    }

    /// The answer of the provider `name` to a message on its health socket:
    /// a ping is answered with a pong back to its sender, carrying the time
    /// written as `stamp`; nothing else is answered.
    pub fn answer(request: &Message, name: &str, stamp: &str) -> (r: Option<Message>)
        ensures
            match r {
                Some(m) => provider_answer(request@, name@, stamp@) == Some(m@),
                None => provider_answer(request@, name@, stamp@) is None,
            },
    {
        let ping = String::from_str("PING");
        if request.body.command == ping {
            Some(
                Message {
                    header: Header::new(String::from_str(name), request.header.source().clone()),
                    body: Body { command: String::from_str("PONG"), payload: String::from_str(stamp) },
                },
            )
        } else {
            None
        }
    }

    /// The stream of what this provider takes in.
    pub fn incoming(self) -> (i: Incoming)
        ensures
            i.provider() == self,
    {
        Incoming { inner: self }
    }

    /// Leaves the registry; nothing is held that needs closing.
    pub fn disconnect(&self) {
    }

    /// Handles what came in; there is nothing to handle yet, so it succeeds.
    pub fn process_incoming(&mut self) -> (r: Result<(), std::io::Error>)
        ensures
            r is Ok,
    {
        Ok(())
    }
}

/// The answer of the provider `name` to a message on its health socket: a
/// ping is answered with a pong from `name` back to its sender, carrying the
/// time written as `stamp`; nothing else is answered.
pub open spec fn provider_answer(request: MessageView, name: Seq<char>, stamp: Seq<char>) -> Option<
    MessageView,
> {
    if request.command == "PING"@ {
        Some(MessageView { header: (name, request.header.0), command: "PONG"@, payload: stamp })
    } else {
        None
    }
}

/// Replies go back where requests came from: the provider answers a ping,
/// and only a ping, with a pong from itself to the ping's sender; discovery
/// answers a register request, and only that, with `SET` from `discovery` to
/// the provider that registered, carrying the address table.
pub proof fn lemma_replies_go_back(request: MessageView, name: Seq<char>, stamp: Seq<char>, table: Seq<char>)
    ensures
        provider_answer(request, name, stamp) is Some <==> request.command == "PING"@,
        provider_answer(request, name, stamp) matches Some(m) ==> m.header.0 == name
            && m.header.1 == request.header.0 && m.command == "PONG"@ && m.payload == stamp,
        discovery_answer(request, table) is Some <==> request.command == "REGISTER"@,
        discovery_answer(request, table) matches Some(m) ==> m.header.0 == "discovery"@
            && m.header.1 == request.header.0 && m.command == "SET"@ && m.payload == table,
{
}

/// The request that registers the provider `name`: from `name` to
/// `discovery`, command `REGISTER`, payload `name`.
pub open spec fn spec_register_request(name: Seq<char>) -> MessageView {
    MessageView { header: (name, "discovery"@), command: "REGISTER"@, payload: name }
}

/// The registration round trip: discovery answers a provider's register
/// request with a `SET` reply addressed back to that provider, and the
/// addresses the provider takes out of that reply are those of the address
/// table that discovery sent.
pub proof fn lemma_register_answered(name: Seq<char>, address_table: Seq<char>)
    ensures
        discovery_answer(spec_register_request(name), address_table) == Some(
            MessageView { header: ("discovery"@, name), command: "SET"@, payload: address_table },
        ),
        reply_addresses("SET"@, address_table) == match json_string_entries(address_table) {
            Some(entries) => addresses_in(entries),
            None => None,
        },
{
}

/// A setup that connects over TCP to `address` with `protocol`.
pub open spec fn connecting_view(address: Seq<char>, protocol: Protocol) -> SetupView {
    SetupView {
        transport: Transport::Tcp,
        protocol,
        target: TargetView::Connect(address),
        phase: PhaseView::CreatingSocket,
    }
}

/// Where a registration stands: the request is being written, the reply is
/// awaited, or it is over.
#[derive(Clone, Copy, Debug, PartialEq, Eq, Structural)]
pub enum RegistrationPhase {
    Sending,
    Receiving,
    Finished,
}

/// A provider's registration at the discovery service: it writes the
/// register request, reads the reply and takes the addresses out of it.
#[derive(Clone, Copy, Debug, PartialEq, Eq, Structural)]
pub struct Registration {
    pub phase: RegistrationPhase,
}

/// How the step that the registration asked for went: the request could not
/// be encoded, was written or could not be written; the reply was read as a
/// message, could not be decoded, or could not be read.
pub enum RegistrationEvent {
    Unencodable,
    Sent,
    SendRefused(String),
    Replied(Message),
    Undecodable,
    ReadRefused(String),
}

/// What the caller does next: read the reply, or stop registered with the
/// addresses, or stop with an error.
pub enum RegistrationAction {
    Receive,
    Registered(ProviderAddresses),
    Failed(ConnectionStateError),
}

/// The events that a registration expects in each phase.
pub open spec fn registration_accepts(r: Registration, e: RegistrationEvent) -> bool {
    match r.phase {
        RegistrationPhase::Sending => e is Unencodable || e is Sent || e is SendRefused,
        RegistrationPhase::Receiving => e is Replied || e is Undecodable || e is ReadRefused,
        RegistrationPhase::Finished => false,
    }
}

/// A registration accepts every outcome of the step it asks for: the request
/// could not be encoded, was written or could not be written while sending;
/// the reply was read, could not be decoded or could not be read while
/// receiving.
pub proof fn lemma_registration_accepts_every_outcome(r: Registration, reply: Message, message: String)
    ensures
        r.phase == RegistrationPhase::Sending ==> registration_accepts(r, RegistrationEvent::Unencodable)
            && registration_accepts(r, RegistrationEvent::Sent)
            && registration_accepts(r, RegistrationEvent::SendRefused(message)),
        r.phase == RegistrationPhase::Receiving ==> registration_accepts(r, RegistrationEvent::Replied(reply))
            && registration_accepts(r, RegistrationEvent::Undecodable)
            && registration_accepts(r, RegistrationEvent::ReadRefused(message)),
{
}

impl Registration {
    /// A registration whose request is about to be written.
    pub fn new() -> (r: Registration)
        ensures
            r.phase == RegistrationPhase::Sending,
    {
        Registration { phase: RegistrationPhase::Sending }
    }

    /// Whether the registration expects this event now.
    pub fn accepts(&self, event: &RegistrationEvent) -> (b: bool)
        ensures
            b == registration_accepts(*self, *event),
    {
        match self.phase {
            RegistrationPhase::Sending => match event {
                RegistrationEvent::Unencodable | RegistrationEvent::Sent
                | RegistrationEvent::SendRefused(_) => true,
                _ => false,
            },
            RegistrationPhase::Receiving => match event {
                RegistrationEvent::Replied(_) | RegistrationEvent::Undecodable
                | RegistrationEvent::ReadRefused(_) => true,
                _ => false,
            },
            RegistrationPhase::Finished => false,
        }
    }

    /// Takes in how the last step went and says what to do next: a written
    /// request is followed by reading the reply; a request that cannot be
    /// encoded, a reply that cannot be decoded or that hands out no addresses
    /// is malformed; a failed write or read fails with its error.
    pub fn step(&mut self, event: RegistrationEvent) -> (action: RegistrationAction)
        requires
            registration_accepts(*old(self), event),
        ensures
            final(self).phase == (if event is Sent {
                RegistrationPhase::Receiving
            } else {
                RegistrationPhase::Finished
            }),
            match event {
                RegistrationEvent::Sent => action is Receive,
                RegistrationEvent::Unencodable => action matches RegistrationAction::Failed(e)
                    && e@ == ErrorView::Malformed,
                RegistrationEvent::SendRefused(m) => action matches RegistrationAction::Failed(e)
                    && e@ == ErrorView::WriteFailure(m@),
                RegistrationEvent::Replied(reply) => match reply_addresses(
                    reply.body.command@,
                    reply.body.payload@,
                ) {
                    Some(a) => action matches RegistrationAction::Registered(x) && x@ == a,
                    None => action matches RegistrationAction::Failed(e) && e@ == ErrorView::Malformed,
                },
                RegistrationEvent::Undecodable => action matches RegistrationAction::Failed(e)
                    && e@ == ErrorView::Malformed,
                RegistrationEvent::ReadRefused(m) => action matches RegistrationAction::Failed(e)
                    && e@ == ErrorView::ReadFailure(m@),
            },
    {
        match event {
            RegistrationEvent::Sent => {
                self.phase = RegistrationPhase::Receiving;
                RegistrationAction::Receive
            },
            RegistrationEvent::Unencodable => {
                self.phase = RegistrationPhase::Finished;
                RegistrationAction::Failed(ConnectionStateError::Malformed)
            },
            RegistrationEvent::SendRefused(m) => {
                self.phase = RegistrationPhase::Finished;
                RegistrationAction::Failed(ConnectionStateError::WriteFailure(m))
            },
            RegistrationEvent::Replied(reply) => {
                self.phase = RegistrationPhase::Finished;
                match Provider::addresses_from_reply(&reply) {
                    Ok(a) => RegistrationAction::Registered(a),
                    Err(e) => RegistrationAction::Failed(e),
                }
            },
            RegistrationEvent::Undecodable => {
                self.phase = RegistrationPhase::Finished;
                RegistrationAction::Failed(ConnectionStateError::Malformed)
            },
            RegistrationEvent::ReadRefused(m) => {
                self.phase = RegistrationPhase::Finished;
                RegistrationAction::Failed(ConnectionStateError::ReadFailure(m))
            },
        }
    }
}

/// A registered provider connects each of its sockets at
/// `tcp://address` for the address that discovery handed out: the respondent
/// socket at the health checker's, the push socket at the broker's, the
/// subscribe socket at the publisher's.
pub proof fn lemma_provider_connects(addresses: AddressesView)
    ensures
        ({
            let health = connecting_view(addresses.health, Protocol::Respondent);
            let push = connecting_view(addresses.push, Protocol::Push);
            let publish = connecting_view(addresses.publish, Protocol::Sub);
            &&& setup_next(health, SetupEventView::SocketCreated).1 == SetupActionView::Connect(
                spec_connect_url(Transport::Tcp, addresses.health),
            )
            &&& setup_next(push, SetupEventView::SocketCreated).1 == SetupActionView::Connect(
                spec_connect_url(Transport::Tcp, addresses.push),
            )
            &&& setup_next(publish, SetupEventView::SocketCreated).1 == SetupActionView::Connect(
                spec_connect_url(Transport::Tcp, addresses.publish),
            )
        }),
{
}

impl Incoming {
    /// Takes in the next item: the provider processes what came in.
    pub fn next_item(&mut self) -> (r: Result<(), std::io::Error>)
        ensures
            r is Ok,
    {
        self.inner.process_incoming()
    }
}

} // verus!
