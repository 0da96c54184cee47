use service_registry::connection::{ConnectionStateError, Protocol, SetupAction, SetupEvent, Target, Transport};
use service_registry::data::message::{Body, Header, Message};
use service_registry::provider::{
    find_entry, Provider, ProviderAddresses, Registration, RegistrationAction, RegistrationEvent,
    RegistrationPhase,
};
use service_registry::service::discovery::Discovery;

fn message(source: &str, target: &str, command: &str, payload: &str) -> Message {
    Message {
        header: Header::new(source.to_string(), target.to_string()),
        body: Body { command: command.to_string(), payload: payload.to_string() },
    }
}

const TABLE: &str = r#"{"health":"10.0.0.1:4000","push":"10.0.0.2:4001","publish":"10.0.0.3:4002"}"#;

#[test]
fn register_request_names_the_provider() {
    let m = Provider::register_request("matrix-1341441");
    assert_eq!(m.header.source(), "matrix-1341441");
    assert_eq!(m.header.target(), "discovery");
    assert_eq!(m.body.command, "REGISTER");
    assert_eq!(m.body.payload, "matrix-1341441");
}

#[test]
fn discovery_answers_register_with_set() {
    let request = Provider::register_request("matrix-1341441");
    let reply = Discovery::answer(&request, TABLE).expect("a register request is answered");
    assert_eq!(reply.header.source(), "discovery");
    assert_eq!(reply.header.target(), "matrix-1341441");
    assert_eq!(reply.body.command, "SET");
    assert_eq!(reply.body.payload, TABLE);
    assert!(Discovery::answer(&message("x", "discovery", "PING", ""), TABLE).is_none());
}

#[test]
fn provider_answers_ping_with_pong() {
    let ping = message("heartbeat", "matrix-1341441", "PING", "1920302030");
    let pong = Provider::answer(&ping, "matrix-1341441", "1003919399").expect("a ping is answered");
    assert_eq!(pong.header.source(), "matrix-1341441");
    assert_eq!(pong.header.target(), "heartbeat");
    assert_eq!(pong.body.command, "PONG");
    assert_eq!(pong.body.payload, "1003919399");
    assert!(Provider::answer(&message("heartbeat", "m", "SET", ""), "m", "1").is_none());
}

#[test]
fn addresses_from_a_set_reply() {
    let reply = message("discovery", "matrix-1341441", "SET", TABLE);
    let a = Provider::addresses_from_reply(&reply).expect("all three addresses");
    assert_eq!(a.health, "10.0.0.1:4000");
    assert_eq!(a.push, "10.0.0.2:4001");
    assert_eq!(a.publish, "10.0.0.3:4002");
}

#[test]
fn malformed_replies() {
    let wrong_command = message("discovery", "m", "GET", TABLE);
    assert!(matches!(Provider::addresses_from_reply(&wrong_command), Err(ConnectionStateError::Malformed)));
    let not_json = message("discovery", "m", "SET", "health=1");
    assert!(matches!(Provider::addresses_from_reply(&not_json), Err(ConnectionStateError::Malformed)));
    let missing = message("discovery", "m", "SET", r#"{"health":"10.0.0.1:4000"}"#);
    assert!(matches!(Provider::addresses_from_reply(&missing), Err(ConnectionStateError::Malformed)));
}

#[test]
fn entries_are_found_by_key() {
    let entries = vec![("a".to_string(), "1".to_string()), ("b".to_string(), "2".to_string())];
    assert_eq!(find_entry(&entries, "b"), Some("2".to_string()));
    assert_eq!(find_entry(&entries, "c"), None);
    let entries = vec![("k".to_string(), "x".to_string()), ("k".to_string(), "y".to_string())];
    assert_eq!(find_entry(&entries, "k"), Some("x".to_string()));
}

#[test]
fn registration_runs() {
    let mut r = Registration::new();
    assert!(r.accepts(&RegistrationEvent::Sent));
    assert!(!r.accepts(&RegistrationEvent::Undecodable));
    assert!(matches!(r.step(RegistrationEvent::Sent), RegistrationAction::Receive));
    assert_eq!(r.phase, RegistrationPhase::Receiving);
    match r.step(RegistrationEvent::Replied(message("discovery", "m", "SET", TABLE))) {
        RegistrationAction::Registered(a) => assert_eq!(a.push, "10.0.0.2:4001"),
        _ => panic!("expected the addresses"),
    }
    assert_eq!(r.phase, RegistrationPhase::Finished);
}

#[test]
fn registration_failures() {
    let mut r = Registration::new();
    assert!(matches!(r.step(RegistrationEvent::Unencodable), RegistrationAction::Failed(ConnectionStateError::Malformed)));
    let mut r = Registration::new();
    match r.step(RegistrationEvent::SendRefused("broken pipe".to_string())) {
        RegistrationAction::Failed(ConnectionStateError::WriteFailure(m)) => assert_eq!(m, "broken pipe"),
        _ => panic!("expected a write failure"),
    }
    let mut r = Registration::new();
    r.step(RegistrationEvent::Sent);
    match r.step(RegistrationEvent::ReadRefused("reset".to_string())) {
        RegistrationAction::Failed(ConnectionStateError::ReadFailure(m)) => assert_eq!(m, "reset"),
        _ => panic!("expected a read failure"),
    }
    let mut r = Registration::new();
    r.step(RegistrationEvent::Sent);
    assert!(matches!(r.step(RegistrationEvent::Undecodable), RegistrationAction::Failed(ConnectionStateError::Malformed)));
}

#[test]
fn registered_provider_connects_its_sockets() {
    let addresses = ProviderAddresses {
        health: "10.0.0.1:4000".to_string(),
        push: "10.0.0.2:4001".to_string(),
        publish: "10.0.0.3:4002".to_string(),
    };
    let (mut health, push, subscribe) = Provider::connection_setups(&addresses);
    assert_eq!(health.protocol, Protocol::Respondent);
    assert_eq!(push.protocol, Protocol::Push);
    assert_eq!(subscribe.protocol, Protocol::Sub);
    assert_eq!(subscribe.transport, Transport::Tcp);
    assert!(matches!(&push.target, Target::Connect(a) if a == "10.0.0.2:4001"));
    match health.step(SetupEvent::SocketCreated) {
        SetupAction::Connect(url) => assert_eq!(url, "tcp://10.0.0.1:4000"),
        _ => panic!("expected a connect"),
    }
}
