use service_registry::connection::{
    bind_url, connect_url, decimal_string, on_poll, ConnectionSetup, ConnectionStateError,
    PollAction, PollOutcome, Protocol, SetupAction, SetupEvent, SetupPhase, Target, Transport,
};

#[test]
fn transport_names() {
    assert_eq!(Transport::Inproc.to_string(), "inproc");
    assert_eq!(Transport::Ipc.to_string(), "ipc");
    assert_eq!(Transport::Tcp.to_string(), "tcp");
    assert_eq!(Transport::Udp.to_string(), "udp");
    assert_eq!(Transport::Pgm.to_string(), "pgm");
}

#[test]
fn decimal_ports() {
    assert_eq!(decimal_string(0), "0");
    assert_eq!(decimal_string(7), "7");
    assert_eq!(decimal_string(10), "10");
    assert_eq!(decimal_string(8080), "8080");
    assert_eq!(decimal_string(65535), "65535");
}

#[test]
fn urls() {
    assert_eq!(connect_url(Transport::Tcp, "127.0.0.1:5555"), "tcp://127.0.0.1:5555");
    assert_eq!(connect_url(Transport::Ipc, "/tmp/health.ipc"), "ipc:///tmp/health.ipc");
    assert_eq!(connect_url(Transport::Tcp, ""), "tcp://");
    assert_eq!(bind_url(Transport::Tcp, "0.0.0.0", 40123), "tcp://0.0.0.0:40123");
    assert_eq!(bind_url(Transport::Udp, "10.0.0.1", 0), "udp://10.0.0.1:0");
}

#[test]
fn error_texts() {
    assert_eq!(ConnectionStateError::Uninitialized("no socket".to_string()).to_string(), "no socket");
    assert_eq!(ConnectionStateError::Failed("refused".to_string()).to_string(), "refused");
    assert_eq!(ConnectionStateError::ReadFailure("eof".to_string()).to_string(), "eof");
    assert_eq!(ConnectionStateError::WriteFailure("pipe".to_string()).to_string(), "pipe");
    assert_eq!(ConnectionStateError::AddressReuse("in use".to_string()).to_string(), "in use");
    assert_eq!(ConnectionStateError::Malformed.to_string(), "Malformed");
}

#[test]
fn connect_setup_runs() {
    let mut s = ConnectionSetup::connecting("127.0.0.1:9000", Transport::Tcp, Protocol::Req);
    assert_eq!(s.protocol, Protocol::Req);
    assert!(s.accepts(&SetupEvent::SocketCreated));
    assert!(!s.accepts(&SetupEvent::Attached));
    match s.step(SetupEvent::SocketCreated) {
        SetupAction::Connect(url) => assert_eq!(url, "tcp://127.0.0.1:9000"),
        _ => panic!("expected a connect"),
    }
    assert!(s.accepts(&SetupEvent::Attached));
    assert!(!s.accepts(&SetupEvent::PortFound(1)));
    match s.step(SetupEvent::Attached) {
        SetupAction::Established(url) => assert_eq!(url, "tcp://127.0.0.1:9000"),
        _ => panic!("expected an established connection"),
    }
    assert!(matches!(s.phase, SetupPhase::Finished));
    assert!(!s.accepts(&SetupEvent::SocketCreated));
}

#[test]
fn bind_setup_runs() {
    let mut s = ConnectionSetup::binding("192.168.1.2", Transport::Tcp, Protocol::Surveyor);
    assert!(matches!(s.step(SetupEvent::SocketCreated), SetupAction::FindFreePort));
    assert!(matches!(s.phase, SetupPhase::FindingPort));
    match s.step(SetupEvent::PortFound(5678)) {
        SetupAction::Bind(url) => assert_eq!(url, "tcp://192.168.1.2:5678"),
        _ => panic!("expected a bind"),
    }
    match s.step(SetupEvent::Attached) {
        SetupAction::Established(url) => assert_eq!(url, "tcp://192.168.1.2:5678"),
        _ => panic!("expected an established connection"),
    }
}

#[test]
fn bind_any_host() {
    let s = ConnectionSetup::binding_any(Transport::Ipc, Protocol::Pull);
    match &s.target {
        Target::Bind(h) => assert_eq!(h, "0.0.0.0"),
        _ => panic!("expected a bind target"),
    }
    assert_eq!(s.transport, Transport::Ipc);
}

#[test]
fn setup_failures_name_their_step() {
    let mut s = ConnectionSetup::connecting("a", Transport::Tcp, Protocol::Pair);
    match s.step(SetupEvent::SocketRefused("no sockets".to_string())) {
        SetupAction::Failed(ConnectionStateError::Uninitialized(m)) => assert_eq!(m, "no sockets"),
        _ => panic!("expected Uninitialized"),
    }
    assert!(matches!(s.phase, SetupPhase::Finished));

    let mut s = ConnectionSetup::binding("h", Transport::Tcp, Protocol::Rep);
    s.step(SetupEvent::SocketCreated);
    match s.step(SetupEvent::PortRefused("no port".to_string())) {
        SetupAction::Failed(ConnectionStateError::AddressReuse(m)) => assert_eq!(m, "no port"),
        _ => panic!("expected AddressReuse"),
    }

    let mut s = ConnectionSetup::connecting("a", Transport::Tcp, Protocol::Pair);
    s.step(SetupEvent::SocketCreated);
    match s.step(SetupEvent::AttachRefused("refused".to_string())) {
        SetupAction::Failed(ConnectionStateError::Failed(m)) => assert_eq!(m, "refused"),
        _ => panic!("expected Failed"),
    }
}

#[test]
fn connect_setup_never_looks_for_a_port() {
    let mut s = ConnectionSetup::connecting("a", Transport::Tcp, Protocol::Pair);
    s.step(SetupEvent::SocketCreated);
    assert!(!s.accepts(&SetupEvent::PortFound(80)));
}

#[test]
fn listener_decisions() {
    assert!(matches!(on_poll(PollOutcome::Received), PollAction::Continue));
    assert!(matches!(on_poll(PollOutcome::Busy), PollAction::Continue));
    match on_poll(PollOutcome::Broken("Bad file descriptor".to_string())) {
        PollAction::Abort(r) => assert_eq!(r, "Critical error while reading: Bad file descriptor"),
        _ => panic!("expected an abort"),
    }
}
