use std::cell::Cell;

use service_registry::connection::{ConnectionStateError, Protocol, Target, Transport};
use service_registry::data::message::{Body, Header, Message, MessageBuilder};
use service_registry::provider::Provider;
use service_registry::service::discovery::{Discovery, Registry};
use service_registry::service::health::{
    Health, HealthAction, HealthEvent, HealthPhase, ReadOutcome, WriteOutcome, PING_INTERVAL_NANOS,
};
use service_registry::service::router::Router;
use service_registry::service::{CycleError, ServiceOptions};

fn reply(command: &str) -> Message {
    Message {
        header: Header::new("matrix-1341441".to_string(), "heartbeat".to_string()),
        body: Body { command: command.to_string(), payload: "1003919399".to_string() },
    }
}

#[test]
fn no_ping_before_the_interval() {
    let mut h = Health::new(1_000);
    assert!(matches!(h.step(HealthEvent::Tick(1_000 + PING_INTERVAL_NANOS)), HealthAction::CheckClock));
    assert_eq!(h, Health { last: 1_000, phase: HealthPhase::Idle });
}

#[test]
fn ping_after_the_interval() {
    let mut h = Health::new(1_000);
    let now = 1_001 + PING_INTERVAL_NANOS;
    assert!(matches!(h.step(HealthEvent::Tick(now)), HealthAction::SendPing));
    assert_eq!(h, Health { last: now, phase: HealthPhase::Writing });
}

#[test]
fn full_cycle_returns_the_reply_command() {
    let mut h = Health::new(0);
    let now = 31_000_000_000;
    assert!(matches!(h.step(HealthEvent::Tick(now)), HealthAction::SendPing));
    assert!(h.accepts(&HealthEvent::Wrote(WriteOutcome::Written)));
    assert!(!h.accepts(&HealthEvent::Tick(now)));
    assert!(matches!(h.step(HealthEvent::Wrote(WriteOutcome::Written)), HealthAction::Receive));
    match h.step(HealthEvent::Read(ReadOutcome::Reply(reply("PONG")))) {
        HealthAction::Return(Ok(c)) => assert_eq!(c, "PONG"),
        _ => panic!("expected the reply's command"),
    }
    assert_eq!(h, Health { last: now, phase: HealthPhase::Idle });
}

fn after_write(outcome: WriteOutcome) -> (Health, HealthAction) {
    let mut h = Health::new(0);
    h.step(HealthEvent::Tick(PING_INTERVAL_NANOS + 1));
    let a = h.step(HealthEvent::Wrote(outcome));
    (h, a)
}

fn after_read(outcome: ReadOutcome) -> (Health, HealthAction) {
    let (mut h, _) = after_write(WriteOutcome::Written);
    let a = h.step(HealthEvent::Read(outcome));
    (h, a)
}

#[test]
fn write_failures() {
    let (h, a) = after_write(WriteOutcome::TryAgain);
    assert!(matches!(a, HealthAction::Return(Err(CycleError::WouldBlock))));
    assert_eq!(h.phase, HealthPhase::Idle);
    let (h, a) = after_write(WriteOutcome::Failed);
    assert!(matches!(a, HealthAction::CloseAndReturn(CycleError::UnexpectedEof)));
    assert_eq!(h.phase, HealthPhase::Idle);
}

#[test]
fn read_failures() {
    assert!(matches!(after_read(ReadOutcome::Undecodable).1, HealthAction::Return(Err(CycleError::InvalidData))));
    assert!(matches!(after_read(ReadOutcome::TryAgain).1, HealthAction::Return(Err(CycleError::WouldBlock))));
    assert!(matches!(after_read(ReadOutcome::Failed).1, HealthAction::Return(Err(CycleError::TimedOut))));
}

#[test]
fn pings_are_spaced_by_the_interval() {
    let mut h = Health::new(0);
    let mut pings = Vec::new();
    let mut now: i64 = 0;
    while now < 200_000_000_000 {
        if !h.accepts(&HealthEvent::Tick(now)) {
            h.step(HealthEvent::Wrote(WriteOutcome::TryAgain));
        }
        if let HealthAction::SendPing = h.step(HealthEvent::Tick(now)) {
            pings.push(now);
        }
        now += 7_000_000_000;
    }
    assert_eq!(pings, vec![35_000_000_000, 70_000_000_000, 105_000_000_000, 140_000_000_000, 175_000_000_000]);
}

#[test]
fn ping_message_follows_the_health_protocol() {
    let ping = Health::ping_message("1920302030");
    assert_eq!(ping.header.source(), "heartbeat");
    assert_eq!(ping.header.target(), "");
    assert_eq!(ping.body.command, "PING");
    assert_eq!(ping.body.payload, "1920302030");
}

#[test]
fn survey_deadline_is_half_the_interval() {
    assert_eq!(Health::survey_deadline(), 15_000);
}

#[test]
fn configured_health() {
    assert_eq!(Health::configured(Ok(()), 42).ok(), Some(Health { last: 42, phase: HealthPhase::Idle }));
    match Health::configured(Err("Invalid argument".to_string()), 42) {
        Err(ConnectionStateError::Failed(m)) => assert_eq!(m, "Invalid argument"),
        _ => panic!("expected Failed"),
    }
}

#[test]
fn health_setup_from_options() {
    let s = Health::connection_setup(ServiceOptions { transport: None, bind_address: None });
    assert_eq!(s.transport, Transport::Tcp);
    assert_eq!(s.protocol, Protocol::Surveyor);
    assert!(matches!(&s.target, Target::Bind(h) if h == "0.0.0.0"));
    let s = Health::connection_setup(ServiceOptions {
        transport: Some(Transport::Ipc),
        bind_address: Some("127.0.0.1".to_string()),
    });
    assert_eq!(s.transport, Transport::Ipc);
    assert!(matches!(&s.target, Target::Bind(h) if h == "127.0.0.1"));
}

#[test]
fn service_setups() {
    let d = Discovery::connection_setup();
    assert_eq!(d.protocol, Protocol::Rep);
    assert!(matches!(&d.target, Target::Bind(h) if h == "0.0.0.0"));
    let r = Router::connection_setup();
    assert_eq!(r.protocol, Protocol::Pull);
    assert_eq!(r.transport, Transport::Tcp);
    let p = Provider::discovery_setup("10.0.0.1:7000");
    assert_eq!(p.protocol, Protocol::Req);
    assert_eq!(p.transport, Transport::Tcp);
    assert!(matches!(&p.target, Target::Connect(a) if a == "10.0.0.1:7000"));
}

#[test]
fn provider_processing() {
    let mut p = Provider;
    p.disconnect();
    assert!(p.process_incoming().is_ok());
    let mut incoming = p.incoming();
    assert!(incoming.next_item().is_ok());
}

#[test]
fn registry_runs_each_callback_once() {
    let r = Registry::new();
    let count = Cell::new(0);
    r.on_register_new_entry(|| count.set(count.get() + 1));
    assert_eq!(count.get(), 1);
    r.on_unregister_existing_entry(|| count.set(count.get() + 10));
    assert_eq!(count.get(), 11);
}

#[test]
fn message_parts() {
    let m = reply("PONG");
    assert_eq!(m.header.source(), "matrix-1341441");
    assert_eq!(m.header.target(), "heartbeat");
    assert_eq!(m.body.payload, "1003919399");
    let _b = MessageBuilder::new();
}

#[test]
fn ping_answered_by_a_provider_ends_the_cycle_with_pong() {
    let mut h = Health::new(0);
    assert!(matches!(h.step(HealthEvent::Tick(PING_INTERVAL_NANOS + 1)), HealthAction::SendPing));
    let ping = Health::ping_message("1920302030");
    let pong = Provider::answer(&ping, "matrix-1341441", "1003919399").expect("a ping is answered");
    assert_eq!(pong.header.target(), "heartbeat");
    assert!(matches!(h.step(HealthEvent::Wrote(WriteOutcome::Written)), HealthAction::Receive));
    match h.step(HealthEvent::Read(ReadOutcome::Reply(pong))) {
        HealthAction::Return(Ok(c)) => assert_eq!(c, "PONG"),
        _ => panic!("expected PONG"),
    }
    assert_eq!(h.phase, HealthPhase::Idle);
}
