use vstd::prelude::*;
use vstd::string::StringExecFns;

verus! {

/// The transport part of a nanomsg endpoint address.
#[derive(Clone, Copy, Debug, PartialEq, Eq, Structural)]
pub enum Transport {
    Inproc,
    Ipc,
    Tcp,
    Udp,
    Pgm,
}

/// The scheme that names a transport in an endpoint address.
pub open spec fn transport_name(t: Transport) -> Seq<char> {
    match t {
        Transport::Inproc => "inproc"@,
        Transport::Ipc => "ipc"@,
        Transport::Tcp => "tcp"@,
        Transport::Udp => "udp"@,
        Transport::Pgm => "pgm"@,
    }
}

impl Transport {
    /// The scheme of this transport, as it is written in an address.
    pub fn to_string(&self) -> (s: String)
        ensures
            s@ == transport_name(*self),
    {
        match self {
            Transport::Inproc => String::from_str("inproc"),
            Transport::Ipc => String::from_str("ipc"),
            Transport::Tcp => String::from_str("tcp"),
            Transport::Udp => String::from_str("udp"),
            Transport::Pgm => String::from_str("pgm"),
        }
    }
}

/// The character of a decimal digit.
pub open spec fn digit_char(d: int) -> char {
    if d == 0 {
        '0'
    } else if d == 1 {
        '1'
    } else if d == 2 {
        '2'
    } else if d == 3 {
        '3'
    } else if d == 4 {
        '4'
    } else if d == 5 {
        '5'
    } else if d == 6 {
        '6'
    } else if d == 7 {
        '7'
    } else if d == 8 {
        '8'
    } else {
        '9'
    }
}

/// The decimal numeral of `n`, without leading zeros.
pub open spec fn decimal(n: nat) -> Seq<char>
    decreases n,
{
    if n < 10 {
        seq![digit_char(n as int)]
    } else {
        decimal(n / 10).push(digit_char((n % 10) as int))
    }
}

fn digit_text(d: u16) -> (s: &'static str)
    requires
        d < 10,
    ensures
        s@ == seq![digit_char(d as int)],
{
    proof {
        reveal_strlit("0");
        reveal_strlit("1");
        reveal_strlit("2");
        reveal_strlit("3");
        reveal_strlit("4");
        reveal_strlit("5");
        reveal_strlit("6");
        reveal_strlit("7");
        reveal_strlit("8");
        reveal_strlit("9");
    }
    if d == 0 {
        assert("0"@ =~= seq!['0']);
        "0"
    } else if d == 1 {
        assert("1"@ =~= seq!['1']);
        "1"
    } else if d == 2 {
        assert("2"@ =~= seq!['2']);
        "2"
    } else if d == 3 {
        assert("3"@ =~= seq!['3']);
        "3"
    } else if d == 4 {
        assert("4"@ =~= seq!['4']);
        "4"
    } else if d == 5 {
        assert("5"@ =~= seq!['5']);
        "5"
    } else if d == 6 {
        assert("6"@ =~= seq!['6']);
        "6"
    } else if d == 7 {
        assert("7"@ =~= seq!['7']);
        "7"
    } else if d == 8 {
        assert("8"@ =~= seq!['8']);
        "8"
    } else {
        assert("9"@ =~= seq!['9']);
        "9"
    }
}

/// Writes a port number in decimal, as an address carries it.
pub fn decimal_string(n: u16) -> (s: String)
    ensures
        s@ == decimal(n as nat),
{
    let mut m: u16 = n / 10;
    let mut s = String::from_str(digit_text(n % 10));
    assert(decimal(n as nat) == (if m == 0 { Seq::empty() } else { decimal(m as nat) }) + s@) by {
        if n >= 10 {
            assert(decimal(n as nat) =~= decimal(m as nat) + s@);
        } else {
            assert(decimal(n as nat) =~= Seq::<char>::empty() + s@);
        }
    }
    while m > 0
        invariant
            decimal(n as nat) == (if m == 0 { Seq::empty() } else { decimal(m as nat) }) + s@,
        decreases m,
    {
        let ghost old_s = s@;
        let ghost old_m = m;
        let mut t = String::from_str(digit_text(m % 10));
        t.append(s.as_str());
        s = t;
        m = m / 10;
        assert(decimal(old_m as nat) + old_s =~= (if m == 0 { Seq::empty() } else { decimal(m as nat) }) + s@);
    }
    s
}

/// Whether a character is a decimal digit.
pub open spec fn is_digit(c: char) -> bool {
    '0' <= c && c <= '9'
}

/// The value of a decimal digit character.
pub open spec fn digit_value(c: char) -> int {
    c as int - '0' as int
}

/// The number that a numeral reads as, its digits taken left to right.
pub open spec fn numeral_value(s: Seq<char>) -> int
    decreases s.len(),
{
    if s.len() == 0 {
        0
    } else {
        numeral_value(s.drop_last()) * 10 + digit_value(s.last())
    }
}

proof fn lemma_digit_char(d: int)
    requires
        0 <= d < 10,
    ensures
        is_digit(digit_char(d)),
        digit_value(digit_char(d)) == d,
        d != 0 ==> digit_char(d) != '0',
{
}

/// The decimal numeral of a number reads back as that number: it is not
/// empty, it is made of digits only, it starts with `0` only for zero, and
/// its digits, read left to right, give the number.
pub proof fn lemma_decimal_reads_back(n: nat)
    ensures
        decimal(n).len() > 0,
        forall|i: int| 0 <= i < decimal(n).len() ==> #[trigger] is_digit(decimal(n)[i]),
        decimal(n)[0] == '0' ==> n == 0,
        numeral_value(decimal(n)) == n,
    decreases n,
{
    if n < 10 {
        lemma_digit_char(n as int);
        let s = decimal(n);
        assert(s.drop_last() =~= Seq::<char>::empty());
        assert(numeral_value(s) == numeral_value(s.drop_last()) * 10 + digit_value(s.last()));
    } else {
        lemma_decimal_reads_back(n / 10);
        lemma_digit_char((n % 10) as int);
        let s = decimal(n);
        let head = decimal(n / 10);
        assert(s == head.push(digit_char((n % 10) as int)));
        assert(s.drop_last() =~= head);
        assert forall|i: int| 0 <= i < s.len() implies #[trigger] is_digit(s[i]) by {
            if i < head.len() {
                assert(s[i] == head[i]);
                assert(is_digit(head[i]));
            }
        }
        assert(s[0] == head[0]);
        assert(numeral_value(s) == numeral_value(head) * 10 + (n % 10) as int);
    }
}

/// Two ports are written alike only when they are the same port.
pub proof fn lemma_decimal_injective(m: nat, n: nat)
    ensures
        decimal(m) == decimal(n) ==> m == n,
{
    lemma_decimal_reads_back(m);
    lemma_decimal_reads_back(n);
}

/// The address of a remote endpoint: `transport://address`.
pub open spec fn spec_connect_url(t: Transport, address: Seq<char>) -> Seq<char> {
    transport_name(t) + "://"@ + address
}

/// The address of a local endpoint: `transport://host:port`.
pub open spec fn spec_bind_url(t: Transport, host: Seq<char>, port: nat) -> Seq<char> {
    transport_name(t) + "://"@ + host + ":"@ + decimal(port)
}

/// Each transport has its own name: two transports are written alike only
/// when they are the same transport.
pub proof fn lemma_transport_names_distinct(t1: Transport, t2: Transport)
    ensures
        transport_name(t1) == transport_name(t2) ==> t1 == t2,
        transport_name(t1).len() > 1,
{
    reveal_strlit("inproc");
    reveal_strlit("ipc");
    reveal_strlit("tcp");
    reveal_strlit("udp");
    reveal_strlit("pgm");
    if transport_name(t1) == transport_name(t2) && t1 != t2 {
        let a = transport_name(t1);
        let b = transport_name(t2);
        assert(a[0] == b[0] && a[1] == b[1]);
    }
}

proof fn lemma_scheme_prefix(t: Transport, rest: Seq<char>)
    ensures
        (transport_name(t) + "://"@ + rest)[0] == transport_name(t)[0],
        (transport_name(t) + "://"@ + rest)[1] == transport_name(t)[1],
{
    lemma_transport_names_distinct(t, t);
}

/// An address names its transport: it starts with the transport's name and
/// `://`, and the addresses of two different transports differ.
pub proof fn lemma_connect_url_names_transport(t1: Transport, t2: Transport, address: Seq<char>)
    ensures
        spec_connect_url(t1, address).subrange(0, transport_name(t1).len() as int) == transport_name(t1),
        spec_connect_url(t1, address).skip(transport_name(t1).len() + 3int) == address,
        spec_connect_url(t1, address) == spec_connect_url(t2, address) ==> t1 == t2,
{
    let u = spec_connect_url(t1, address);
    let n = transport_name(t1);
    reveal_strlit("://");
    assert(u.subrange(0, n.len() as int) =~= n);
    assert(u.skip(n.len() + 3int) =~= address);
    if u == spec_connect_url(t2, address) {
        lemma_scheme_prefix(t1, address);
        lemma_scheme_prefix(t2, address);
        if t1 != t2 {
            reveal_strlit("inproc");
            reveal_strlit("ipc");
            reveal_strlit("tcp");
            reveal_strlit("udp");
            reveal_strlit("pgm");
            assert(transport_name(t1)[0] == transport_name(t2)[0]);
            assert(transport_name(t1)[1] == transport_name(t2)[1]);
        }
    }
}

/// A bind address names its transport and its port: the addresses of two
/// different transports differ, and on one transport and host two ports give
/// the same address only when they are the same port.
pub proof fn lemma_bind_url_names_transport_and_port(
    t1: Transport,
    t2: Transport,
    host: Seq<char>,
    p1: nat,
    p2: nat,
)
    ensures
        spec_bind_url(t1, host, p1) == spec_bind_url(t2, host, p1) ==> t1 == t2,
        spec_bind_url(t1, host, p1) == spec_bind_url(t1, host, p2) ==> p1 == p2,
        spec_bind_url(t1, host, p1).subrange(0, transport_name(t1).len() as int) == transport_name(t1),
{
    let rest = host + ":"@ + decimal(p1);
    assert(spec_bind_url(t1, host, p1) =~= transport_name(t1) + "://"@ + rest);
    assert(spec_bind_url(t2, host, p1) =~= transport_name(t2) + "://"@ + rest);
    lemma_connect_url_names_transport(t1, t2, rest);
    let prefix = transport_name(t1) + "://"@ + host + ":"@;
    assert(spec_bind_url(t1, host, p1) =~= prefix + decimal(p1));
    assert(spec_bind_url(t1, host, p2) =~= prefix + decimal(p2));
    if spec_bind_url(t1, host, p1) == spec_bind_url(t1, host, p2) {
        assert((prefix + decimal(p1)).skip(prefix.len() as int) =~= decimal(p1));
        assert((prefix + decimal(p2)).skip(prefix.len() as int) =~= decimal(p2));
        lemma_decimal_injective(p1, p2);
    }
}

/// Writes the address that a socket connects to.
pub fn connect_url(transport: Transport, address: &str) -> (url: String)
    ensures
        url@ == spec_connect_url(transport, address@),
{
    let mut url = transport.to_string();
    url.append("://");
    url.append(address);
    url
}

/// Writes the address that a socket binds to.
pub fn bind_url(transport: Transport, host: &str, port: u16) -> (url: String)
    ensures
        url@ == spec_bind_url(transport, host@, port as nat),
{
    let mut url = transport.to_string();
    url.append("://");
    url.append(host);
    url.append(":");
    let digits = decimal_string(port);
    url.append(digits.as_str());
    url
}

/// Why a connection could not be set up or used. Each variant carries the
/// message of the socket or system error that caused it.
#[derive(Debug)]
pub enum ConnectionStateError {
    Uninitialized(String),
    Failed(String),
    ReadFailure(String),
    WriteFailure(String),
    AddressReuse(String),
    Malformed,
}

/// A connection error, with each message taken as its characters.
pub enum ErrorView {
    Uninitialized(Seq<char>),
    Failed(Seq<char>),
    ReadFailure(Seq<char>),
    WriteFailure(Seq<char>),
    AddressReuse(Seq<char>),
    Malformed,
}

impl View for ConnectionStateError {
    type V = ErrorView;

    open spec fn view(&self) -> ErrorView {
        match self {
            ConnectionStateError::Uninitialized(m) => ErrorView::Uninitialized(m@),
            ConnectionStateError::Failed(m) => ErrorView::Failed(m@),
            ConnectionStateError::ReadFailure(m) => ErrorView::ReadFailure(m@),
            ConnectionStateError::WriteFailure(m) => ErrorView::WriteFailure(m@),
            ConnectionStateError::AddressReuse(m) => ErrorView::AddressReuse(m@),
            ConnectionStateError::Malformed => ErrorView::Malformed,
        }
    }
}

/// How a connection error reads: the message of its cause, or `Malformed`.
pub open spec fn error_text(e: ErrorView) -> Seq<char> {
    match e {
        ErrorView::Uninitialized(m) => m,
        ErrorView::Failed(m) => m,
        ErrorView::ReadFailure(m) => m,
        ErrorView::WriteFailure(m) => m,
        ErrorView::AddressReuse(m) => m,
        ErrorView::Malformed => "Malformed"@,
    }
}

impl ConnectionStateError {
    /// The text of this error.
    pub fn to_string(&self) -> (s: String)
        ensures
            s@ == error_text(self@),
    {
        match self {
            ConnectionStateError::Uninitialized(m) => m.clone(),
            ConnectionStateError::Failed(m) => m.clone(),
            ConnectionStateError::ReadFailure(m) => m.clone(),
            ConnectionStateError::WriteFailure(m) => m.clone(),
            ConnectionStateError::AddressReuse(m) => m.clone(),
            ConnectionStateError::Malformed => String::from_str("Malformed"),
        }
    }
}

/// The scalability protocol a socket speaks.
#[derive(Clone, Copy, Debug, PartialEq, Eq, Structural)]
pub enum Protocol {
    Req,
    Rep,
    Push,
    Pull,
    Pair,
    Bus,
    Pub,
    Sub,
    Surveyor,
    Respondent,
}

/// Where a socket is attached: to a remote address, or to a local host on a
/// port that is free at the time.
#[derive(Debug)]
pub enum Target {
    Connect(String),
    Bind(String),
}

pub enum TargetView {
    Connect(Seq<char>),
    Bind(Seq<char>),
}

impl View for Target {
    type V = TargetView;

    open spec fn view(&self) -> TargetView {
        match self {
            Target::Connect(a) => TargetView::Connect(a@),
            Target::Bind(h) => TargetView::Bind(h@),
        }
    }
}

/// How far a connection setup has come. While the socket is being attached
/// the phase holds the address it is attached to.
#[derive(Debug)]
pub enum SetupPhase {
    CreatingSocket,
    FindingPort,
    Attaching(String),
    Finished,
}

pub enum PhaseView {
    CreatingSocket,
    FindingPort,
    Attaching(Seq<char>),
    Finished,
}

impl View for SetupPhase {
    type V = PhaseView;

    open spec fn view(&self) -> PhaseView {
        match self {
            SetupPhase::CreatingSocket => PhaseView::CreatingSocket,
            SetupPhase::FindingPort => PhaseView::FindingPort,
            SetupPhase::Attaching(u) => PhaseView::Attaching(u@),
            SetupPhase::Finished => PhaseView::Finished,
        }
    }
}

/// The steps of setting up a connection: create a socket for the protocol,
/// find a free port when binding, then connect or bind the socket to its
/// address. The caller does each step and reports how it went with `step`.
pub struct ConnectionSetup {
    pub transport: Transport,
    pub protocol: Protocol,
    pub target: Target,
    pub phase: SetupPhase,
}

pub struct SetupView {
    pub transport: Transport,
    pub protocol: Protocol,
    pub target: TargetView,
    pub phase: PhaseView,
}

impl View for ConnectionSetup {
    type V = SetupView;

    open spec fn view(&self) -> SetupView {
        SetupView {
            transport: self.transport,
            protocol: self.protocol,
            target: self.target@,
            phase: self.phase@,
        }
    }
}

/// How the step that the setup asked for went.
pub enum SetupEvent {
    SocketCreated,
    SocketRefused(String),
    PortFound(u16),
    PortRefused(String),
    Attached,
    AttachRefused(String),
}

pub enum SetupEventView {
    SocketCreated,
    SocketRefused(Seq<char>),
    PortFound(u16),
    PortRefused(Seq<char>),
    Attached,
    AttachRefused(Seq<char>),
}

impl View for SetupEvent {
    type V = SetupEventView;

    open spec fn view(&self) -> SetupEventView {
        match self {
            SetupEvent::SocketCreated => SetupEventView::SocketCreated,
            SetupEvent::SocketRefused(m) => SetupEventView::SocketRefused(m@),
            SetupEvent::PortFound(p) => SetupEventView::PortFound(*p),
            SetupEvent::PortRefused(m) => SetupEventView::PortRefused(m@),
            SetupEvent::Attached => SetupEventView::Attached,
            SetupEvent::AttachRefused(m) => SetupEventView::AttachRefused(m@),
        }
    }
}

/// What the caller does next: find a free port, connect or bind the socket to
/// the address given, or stop with the established address or an error.
pub enum SetupAction {
    FindFreePort,
    Connect(String),
    Bind(String),
    Established(String),
    Failed(ConnectionStateError),
}

pub enum SetupActionView {
    FindFreePort,
    Connect(Seq<char>),
    Bind(Seq<char>),
    Established(Seq<char>),
    Failed(ErrorView),
}

impl View for SetupAction {
    type V = SetupActionView;

    open spec fn view(&self) -> SetupActionView {
        match self {
            SetupAction::FindFreePort => SetupActionView::FindFreePort,
            SetupAction::Connect(u) => SetupActionView::Connect(u@),
            SetupAction::Bind(u) => SetupActionView::Bind(u@),
            SetupAction::Established(u) => SetupActionView::Established(u@),
            SetupAction::Failed(e) => SetupActionView::Failed(e@),
        }
    }
}

/// The host a socket binds to when none is named.
pub open spec fn any_host() -> Seq<char> {
    "0.0.0.0"@
}

/// The events that a setup expects in each phase.
pub open spec fn setup_accepts(s: SetupView, e: SetupEventView) -> bool {
    match s.phase {
        PhaseView::CreatingSocket => e is SocketCreated || e is SocketRefused,
        PhaseView::FindingPort => s.target is Bind && (e is PortFound || e is PortRefused),
        PhaseView::Attaching(_) => e is Attached || e is AttachRefused,
        PhaseView::Finished => false,
    }
}

/// The setup after an event, and what the caller does next.
pub open spec fn setup_next(s: SetupView, e: SetupEventView) -> (SetupView, SetupActionView) {
    let finished = SetupView { phase: PhaseView::Finished, ..s };
    match e {
        SetupEventView::SocketCreated => match s.target {
            TargetView::Connect(a) => {
                let url = spec_connect_url(s.transport, a);
                (SetupView { phase: PhaseView::Attaching(url), ..s }, SetupActionView::Connect(url))
            },
            TargetView::Bind(_) => (
                SetupView { phase: PhaseView::FindingPort, ..s },
                SetupActionView::FindFreePort,
            ),
        },
        SetupEventView::SocketRefused(m) => (
            finished,
            SetupActionView::Failed(ErrorView::Uninitialized(m)),
        ),
        SetupEventView::PortFound(port) => {
            let url = spec_bind_url(s.transport, s.target->Bind_0, port as nat);
            (SetupView { phase: PhaseView::Attaching(url), ..s }, SetupActionView::Bind(url))
        },
        SetupEventView::PortRefused(m) => (
            finished,
            SetupActionView::Failed(ErrorView::AddressReuse(m)),
        ),
        SetupEventView::Attached => (finished, SetupActionView::Established(s.phase->Attaching_0)),
        SetupEventView::AttachRefused(m) => (finished, SetupActionView::Failed(ErrorView::Failed(m))),
    }
}

impl ConnectionSetup {
    /// A setup that connects a socket to `transport://address`.
    pub fn connecting(address: &str, transport: Transport, protocol: Protocol) -> (s: Self)
        ensures
            s@ == (SetupView {
                transport,
                protocol,
                target: TargetView::Connect(address@),
                phase: PhaseView::CreatingSocket,
            }),
    {
        ConnectionSetup {
            transport,
            protocol,
            target: Target::Connect(String::from_str(address)),
            phase: SetupPhase::CreatingSocket,
        }
    }

    /// A setup that binds a socket to `transport://host:port` on a free port.
    pub fn binding(host: &str, transport: Transport, protocol: Protocol) -> (s: Self)
        ensures
            s@ == (SetupView {
                transport,
                protocol,
                target: TargetView::Bind(host@),
                phase: PhaseView::CreatingSocket,
            }),
    {
        ConnectionSetup {
            transport,
            protocol,
            target: Target::Bind(String::from_str(host)),
            phase: SetupPhase::CreatingSocket,
        }
    }

    /// A setup that binds a socket on every interface, `0.0.0.0`.
    pub fn binding_any(transport: Transport, protocol: Protocol) -> (s: Self)
        ensures
            s@ == (SetupView {
                transport,
                protocol,
                target: TargetView::Bind(any_host()),
                phase: PhaseView::CreatingSocket,
            }),
    {
        Self::binding("0.0.0.0", transport, protocol)
    }

    /// Whether the setup expects this event now.
    pub fn accepts(&self, event: &SetupEvent) -> (b: bool)
        ensures
            b == setup_accepts(self@, event@),
    {
        match &self.phase {
            SetupPhase::CreatingSocket => match event {
                SetupEvent::SocketCreated | SetupEvent::SocketRefused(_) => true,
                _ => false,
            },
            SetupPhase::FindingPort => match &self.target {
                Target::Bind(_) => match event {
                    SetupEvent::PortFound(_) | SetupEvent::PortRefused(_) => true,
                    _ => false,
                },
                Target::Connect(_) => false,
            },
            SetupPhase::Attaching(_) => match event {
                SetupEvent::Attached | SetupEvent::AttachRefused(_) => true,
                _ => false,
            },
            SetupPhase::Finished => false,
        }
    }

    /// Takes in how the last step went and says what to do next.
    pub fn step(&mut self, event: SetupEvent) -> (action: SetupAction)
        requires
            setup_accepts(old(self)@, event@),
        ensures
            (final(self)@, action@) == setup_next(old(self)@, event@),
    {
        match event {
            SetupEvent::SocketCreated => {
                match &self.target {
                    Target::Connect(address) => {
                        let url = connect_url(self.transport, address.as_str());
                        let reported = url.clone();
                        self.phase = SetupPhase::Attaching(url);
                        SetupAction::Connect(reported)
                    },
                    Target::Bind(_) => {
                        self.phase = SetupPhase::FindingPort;
                        SetupAction::FindFreePort
                    },
                }
            },
            SetupEvent::SocketRefused(m) => {
                self.phase = SetupPhase::Finished;
                SetupAction::Failed(ConnectionStateError::Uninitialized(m))
            },
            SetupEvent::PortFound(port) => {
                match &self.target {
                    Target::Bind(host) => {
                        let url = bind_url(self.transport, host.as_str(), port);
                        let reported = url.clone();
                        self.phase = SetupPhase::Attaching(url);
                        SetupAction::Bind(reported)
                    },
                    Target::Connect(_) => {
                        proof {
                            assert(false);
                        }
                        SetupAction::FindFreePort
                    },
                }
            },
            SetupEvent::PortRefused(m) => {
                self.phase = SetupPhase::Finished;
                SetupAction::Failed(ConnectionStateError::AddressReuse(m))
            },
            SetupEvent::Attached => {
                let url = match &self.phase {
                    SetupPhase::Attaching(url) => url.clone(),
                    _ => {
                        proof {
                            assert(false);
                        }
                        String::new()
                    },
                };
                self.phase = SetupPhase::Finished;
                SetupAction::Established(url)
            },
            SetupEvent::AttachRefused(m) => {
                self.phase = SetupPhase::Finished;
                SetupAction::Failed(ConnectionStateError::Failed(m))
            },
        }
    }
}

/// Milliseconds a listener pauses between two reads of its socket.
pub const POLL_PAUSE_MILLIS: i64 = 10;

/// How a non-blocking read of a listening socket went: something arrived, the
/// socket was busy, or the read broke with an error.
pub enum PollOutcome {
    Received,
    Busy,
    Broken(String),
}

/// What a listener does after a read: clear its buffer, pause and read again,
/// or stop with the reason given.
pub enum PollAction {
    Continue,
    Abort(String),
}

/// The reason a listener gives when a read breaks.
pub open spec fn spec_read_failure(message: Seq<char>) -> Seq<char> {
    "Critical error while reading: "@ + message
}

/// A listener keeps reading after a message or a busy socket, and stops on
/// any other read error.
pub fn on_poll(outcome: PollOutcome) -> (action: PollAction)
    ensures
        match outcome {
            PollOutcome::Broken(m) => action matches PollAction::Abort(r) && r@ == spec_read_failure(m@),
            _ => action is Continue,
        },
{
    match outcome {
        PollOutcome::Received => PollAction::Continue,
        PollOutcome::Busy => PollAction::Continue,
        PollOutcome::Broken(m) => {
            let mut reason = String::from_str("Critical error while reading: ");
            reason.append(m.as_str());
            PollAction::Abort(reason)
        },
    }
}

/// How far along a phase is; each accepted event moves the setup further.
pub open spec fn phase_rank(p: PhaseView) -> nat {
    match p {
        PhaseView::CreatingSocket => 0,
        PhaseView::FindingPort => 1,
        PhaseView::Attaching(_) => 2,
        PhaseView::Finished => 3,
    }
}

/// A connecting setup whose socket is created and then attached is
/// established at `transport://address`, and it connects to that address.
pub proof fn lemma_connect_establishes(transport: Transport, protocol: Protocol, address: Seq<char>)
    ensures
        ({
            let s0 = SetupView {
                transport,
                protocol,
                target: TargetView::Connect(address),
                phase: PhaseView::CreatingSocket,
            };
            let url = spec_connect_url(transport, address);
            let (s1, a1) = setup_next(s0, SetupEventView::SocketCreated);
            let (s2, a2) = setup_next(s1, SetupEventView::Attached);
            &&& setup_accepts(s0, SetupEventView::SocketCreated)
            &&& a1 == SetupActionView::Connect(url)
            &&& setup_accepts(s1, SetupEventView::Attached)
            &&& a2 == SetupActionView::Established(url)
            &&& s2.phase == PhaseView::Finished
        }),
{
}

/// A binding setup whose socket is created, which finds the free port `port`
/// and is then bound, is established at `transport://host:port`, and it binds
/// to that address.
pub proof fn lemma_bind_establishes(transport: Transport, protocol: Protocol, host: Seq<char>, port: u16)
    ensures
        ({
            let s0 = SetupView {
                transport,
                protocol,
                target: TargetView::Bind(host),
                phase: PhaseView::CreatingSocket,
            };
            let url = spec_bind_url(transport, host, port as nat);
            let (s1, a1) = setup_next(s0, SetupEventView::SocketCreated);
            let (s2, a2) = setup_next(s1, SetupEventView::PortFound(port));
            let (s3, a3) = setup_next(s2, SetupEventView::Attached);
            &&& setup_accepts(s0, SetupEventView::SocketCreated)
            &&& a1 == SetupActionView::FindFreePort
            &&& setup_accepts(s1, SetupEventView::PortFound(port))
            &&& a2 == SetupActionView::Bind(url)
            &&& setup_accepts(s2, SetupEventView::Attached)
            &&& a3 == SetupActionView::Established(url)
            &&& s3.phase == PhaseView::Finished
        }),
{
}

/// Every accepted event moves the setup to a later phase, so a setup takes at
/// most three steps, and a finished setup accepts no event.
pub proof fn lemma_setup_progresses(s: SetupView, e: SetupEventView)
    ensures
        setup_accepts(s, e) ==> phase_rank(setup_next(s, e).0.phase) > phase_rank(s.phase),
        phase_rank(s.phase) <= 3,
        s.phase is Finished ==> !setup_accepts(s, e),
{
}

/// A setup accepts both outcomes of the step it asks for: a socket created or
/// refused while creating it, a port found or refused while finding one for a
/// bind, the socket attached or refused while attaching it. After any accepted
/// event that asks for more work, the setup accepts every outcome of that
/// work.
pub proof fn lemma_setup_accepts_every_outcome(
    s: SetupView,
    e: SetupEventView,
    message: Seq<char>,
    port: u16,
)
    ensures
        s.phase is CreatingSocket ==> setup_accepts(s, SetupEventView::SocketCreated)
            && setup_accepts(s, SetupEventView::SocketRefused(message)),
        s.phase is FindingPort && s.target is Bind ==> setup_accepts(s, SetupEventView::PortFound(port))
            && setup_accepts(s, SetupEventView::PortRefused(message)),
        s.phase is Attaching ==> setup_accepts(s, SetupEventView::Attached)
            && setup_accepts(s, SetupEventView::AttachRefused(message)),
        setup_accepts(s, e) ==> ({
            let (next, action) = setup_next(s, e);
            &&& action is FindFreePort ==> setup_accepts(next, SetupEventView::PortFound(port))
                && setup_accepts(next, SetupEventView::PortRefused(message))
            &&& (action is Connect || action is Bind) ==> setup_accepts(next, SetupEventView::Attached)
                && setup_accepts(next, SetupEventView::AttachRefused(message))
        }),
{
}

/// A step finishes the setup exactly when it reports the outcome, and a
/// refused step is reported with the error of that step: a socket that cannot
/// be created as `Uninitialized`, a port that cannot be found as
/// `AddressReuse`, an address that cannot be attached as `Failed`.
pub proof fn lemma_setup_outcome(s: SetupView, e: SetupEventView)
    requires
        setup_accepts(s, e),
    ensures
        ({
            let (next, action) = setup_next(s, e);
            &&& (next.phase is Finished) <==> (action is Established || action is Failed)
            &&& next.transport == s.transport && next.protocol == s.protocol && next.target == s.target
            &&& (e matches SetupEventView::SocketRefused(m) ==> action == SetupActionView::Failed(ErrorView::Uninitialized(m)))
            &&& (e matches SetupEventView::PortRefused(m) ==> action == SetupActionView::Failed(ErrorView::AddressReuse(m)))
            &&& (e matches SetupEventView::AttachRefused(m) ==> action == SetupActionView::Failed(ErrorView::Failed(m)))
        }),
{
}

} // verus!
