use vstd::prelude::*;
use vstd::string::StringExecFns;
use crate::connection::{
    any_host, ConnectionSetup, ConnectionStateError, PhaseView, Protocol, SetupView, TargetView,
    Transport,
};
use crate::data::message::{Body, Header, Message, MessageView};
use crate::provider::provider_answer;
use crate::service::{CycleError, ServiceOptions};

verus! {

/// Seconds between two pings.
pub const PING_INTERVAL: i64 = 30;

/// Nanoseconds between two pings.
pub const PING_INTERVAL_NANOS: i64 = PING_INTERVAL * 1_000_000_000;

/// A stream of health states; it carries nothing yet.
pub struct HealthStateStream {}

/// Where a health cycle stands: waiting for the ping interval to pass, waiting
/// for the ping to be written, or waiting for the reply.
#[derive(Clone, Copy, Debug, PartialEq, Eq, Structural)]
pub enum HealthPhase {
    Idle,
    Writing,
    Reading,
}

/// The health checker surveys every registered service with a ping once the
/// ping interval has passed since the last ping, and reads the reply.
///
/// Times are nanoseconds on a steady clock.
#[derive(Clone, Copy, Debug, PartialEq, Eq, Structural)]
pub struct Health {
    /// When the last ping went out (or when the checker started).
    pub last: i64,
    pub phase: HealthPhase,
}

/// How writing the ping went.
#[derive(Clone, Copy, Debug, PartialEq, Eq, Structural)]
pub enum WriteOutcome {
    Written,
    TryAgain,
    Failed,
}

/// How reading the reply went: a message, bytes that are no message, a socket
/// that has nothing yet, or a failed read.
pub enum ReadOutcome {
    Reply(Message),
    Undecodable,
    TryAgain,
    Failed,
}

/// What happened since the last action: the clock was read, the ping was
/// written, or the reply was read.
pub enum HealthEvent {
    Tick(i64),
    Wrote(WriteOutcome),
    Read(ReadOutcome),
}

/// What the caller does next: read the clock again, send a ping, read the
/// reply, end the cycle with a result, or shut the endpoint down and end the
/// cycle with an error.
pub enum HealthAction {
    CheckClock,
    SendPing,
    Receive,
    Return(Result<String, CycleError>),
    CloseAndReturn(CycleError),
}

/// The events that the checker expects in each phase.
pub open spec fn health_accepts(h: Health, e: HealthEvent) -> bool {
    match h.phase {
        HealthPhase::Idle => e is Tick,
        HealthPhase::Writing => e is Wrote,
        HealthPhase::Reading => e is Read,
    }
}

/// Whether a ping is due at `now`: more than the ping interval has passed
/// since the last one.
pub open spec fn ping_due(last: i64, now: i64) -> bool {
    now - last > PING_INTERVAL_NANOS
}

/// The checker after an event, and what the caller does next.
pub open spec fn health_next(h: Health, e: HealthEvent) -> (Health, HealthAction) {
    let idle = Health { last: h.last, phase: HealthPhase::Idle };
    match e {
        HealthEvent::Tick(now) => if ping_due(h.last, now) {
            (Health { last: now, phase: HealthPhase::Writing }, HealthAction::SendPing)
        } else {
            (h, HealthAction::CheckClock)
        },
        HealthEvent::Wrote(w) => match w {
            WriteOutcome::Written => (
                Health { last: h.last, phase: HealthPhase::Reading },
                HealthAction::Receive,
            ),
            WriteOutcome::TryAgain => (idle, HealthAction::Return(Err(CycleError::WouldBlock))),
            WriteOutcome::Failed => (idle, HealthAction::CloseAndReturn(CycleError::UnexpectedEof)),
        },
        HealthEvent::Read(r) => match r {
            ReadOutcome::Reply(m) => (idle, HealthAction::Return(Ok(m.body.command))),
            ReadOutcome::Undecodable => (idle, HealthAction::Return(Err(CycleError::InvalidData))),
            ReadOutcome::TryAgain => (idle, HealthAction::Return(Err(CycleError::WouldBlock))),
            ReadOutcome::Failed => (idle, HealthAction::Return(Err(CycleError::TimedOut))),
        },
    }
}

/// The ping that the health checker surveys every service with: a message
/// from `heartbeat`, addressed to no one service in particular (it goes to
/// all of them), with command `PING` and the time it was sent as payload.
pub open spec fn spec_ping_message(stamp: Seq<char>) -> MessageView {
    MessageView { header: ("heartbeat"@, Seq::empty()), command: "PING"@, payload: stamp }
}

impl Health {
    /// A checker started at `now`: its first ping is due once the interval
    /// has passed.
    pub fn new(now: i64) -> (h: Health)
        ensures
            h == (Health { last: now, phase: HealthPhase::Idle }),
    {
        Health { last: now, phase: HealthPhase::Idle }
    }

    /// The checker binds a surveyor socket on the transport and host that the
    /// options name, TCP and every interface by default.
    pub fn connection_setup(options: ServiceOptions) -> (s: ConnectionSetup)
        ensures
            s@ == (SetupView {
                transport: match options.transport {
                    Some(t) => t,
                    None => Transport::Tcp,
                },
                protocol: Protocol::Surveyor,
                target: TargetView::Bind(
                    match options.bind_address {
                        Some(a) => a@,
                        None => any_host(),
                    },
                ),
                phase: PhaseView::CreatingSocket,
            }),
    {
        let transport = match options.transport {
            Some(t) => t,
            None => Transport::Tcp,
        };
        match options.bind_address {
            Some(address) => ConnectionSetup::binding(address.as_str(), transport, Protocol::Surveyor),
            None => ConnectionSetup::binding_any(transport, Protocol::Surveyor),
        }
    }

    /// How long, in milliseconds, a survey waits for replies: half the ping
    /// interval.
    pub fn survey_deadline() -> (d: isize)
        ensures
            d == PING_INTERVAL * 1000 / 2,
    {
        (PING_INTERVAL * 1000 / 2) as isize
    }

    /// A checker started at `now` once its survey deadline was set; a deadline
    /// that could not be set fails the setup with its error.
    pub fn configured(deadline: Result<(), String>, now: i64) -> (r: Result<Health, ConnectionStateError>)
        ensures
            match deadline {
                Ok(()) => r == Ok::<Health, ConnectionStateError>(
                    Health { last: now, phase: HealthPhase::Idle },
                ),
                Err(m) => r matches Err(ConnectionStateError::Failed(n)) && n == m,
            },
    {
        match deadline {
            Ok(()) => Ok(Health::new(now)),
            Err(m) => Err(ConnectionStateError::Failed(m)),
        }
    }

    /// The ping sent at the time written as `stamp`.
    pub fn ping_message(stamp: &str) -> (m: Message)
        ensures
            m@ == spec_ping_message(stamp@),
    {
        Message {
            header: Header::new(String::from_str("heartbeat"), String::new()),
            body: Body { command: String::from_str("PING"), payload: String::from_str(stamp) },
        }
    }

    /// Whether the checker expects this event now.
    pub fn accepts(&self, event: &HealthEvent) -> (b: bool)
        ensures
            b == health_accepts(*self, *event),
    {
        match self.phase {
            HealthPhase::Idle => match event {
                HealthEvent::Tick(_) => true,
                _ => false,
            },
            HealthPhase::Writing => match event {
                HealthEvent::Wrote(_) => true,
                _ => false,
            },
            HealthPhase::Reading => match event {
                HealthEvent::Read(_) => true,
                _ => false,
            },
        }
    }

    /// Takes in what happened and says what to do next.
    pub fn step(&mut self, event: HealthEvent) -> (action: HealthAction)
        requires
            health_accepts(*old(self), event),
        ensures
            (*final(self), action) == health_next(*old(self), event),
    {
        match event {
            HealthEvent::Tick(now) => {
                if now as i128 - self.last as i128 > PING_INTERVAL_NANOS as i128 {
                    self.last = now;
                    self.phase = HealthPhase::Writing;
                    HealthAction::SendPing
                } else {
                    HealthAction::CheckClock
                }
            },
            HealthEvent::Wrote(w) => match w {
                WriteOutcome::Written => {
                    self.phase = HealthPhase::Reading;
                    HealthAction::Receive
                },
                WriteOutcome::TryAgain => {
                    self.phase = HealthPhase::Idle;
                    HealthAction::Return(Err(CycleError::WouldBlock))
                },
                WriteOutcome::Failed => {
                    self.phase = HealthPhase::Idle;
                    HealthAction::CloseAndReturn(CycleError::UnexpectedEof)
                },
            },
            HealthEvent::Read(r) => {
                self.phase = HealthPhase::Idle;
                match r {
                    ReadOutcome::Reply(m) => HealthAction::Return(Ok(m.body.command)),
                    ReadOutcome::Undecodable => HealthAction::Return(Err(CycleError::InvalidData)),
                    ReadOutcome::TryAgain => HealthAction::Return(Err(CycleError::WouldBlock)),
                    ReadOutcome::Failed => HealthAction::Return(Err(CycleError::TimedOut)),
                }
            },
        }
    }
}

/// The checker after a run of events, one after another.
pub open spec fn health_run(h: Health, events: Seq<HealthEvent>) -> Health
    decreases events.len(),
{
    if events.len() == 0 {
        h
    } else {
        health_run(health_next(h, events[0]).0, events.drop_first())
    }
}

/// The times at which pings go out during a run of events.
pub open spec fn ping_times(h: Health, events: Seq<HealthEvent>) -> Seq<i64>
    decreases events.len(),
{
    if events.len() == 0 {
        Seq::empty()
    } else {
        let (next, action) = health_next(h, events[0]);
        let later = ping_times(next, events.drop_first());
        if action is SendPing {
            seq![next.last] + later
        } else {
            later
        }
    }
}

/// Whatever happens, pings are spaced: each ping goes out more than the ping
/// interval after the one before it, the first more than the interval after
/// the checker's last ping, and the checker then remembers the latest ping.
pub proof fn lemma_pings_spaced(h: Health, events: Seq<HealthEvent>)
    ensures
        ({
            let pings = ping_times(h, events);
            &&& forall|i: int|
                0 < i < pings.len() ==> #[trigger] pings[i] - pings[i - 1] > PING_INTERVAL_NANOS
            &&& pings.len() > 0 ==> pings[0] - h.last > PING_INTERVAL_NANOS
            &&& health_run(h, events).last == (if pings.len() == 0 {
                h.last
            } else {
                pings.last()
            })
        }),
    decreases events.len(),
{
    if events.len() > 0 {
        let (next, action) = health_next(h, events[0]);
        let rest = events.drop_first();
        lemma_pings_spaced(next, rest);
        let later = ping_times(next, rest);
        let pings = ping_times(h, events);
        if action is SendPing {
            assert(pings == seq![next.last] + later);
            assert forall|i: int| 0 < i < pings.len() implies #[trigger] pings[i] - pings[i - 1]
                > PING_INTERVAL_NANOS by {
                assert(pings[i] == later[i - 1]);
                if i > 1 {
                    assert(pings[i - 1] == later[i - 2]);
                    assert(later[i - 1] - later[i - 2] > PING_INTERVAL_NANOS);
                } else {
                    assert(pings[0] == next.last);
                }
            }
        } else {
            assert(next.last == h.last);
            assert(pings == later);
        }
    }
}

/// The health round trip: the checker's ping, answered by a provider, makes
/// the cycle that awaits the reply return `PONG`, and the checker is then idle.
pub proof fn lemma_ping_answered(
    h: Health,
    stamp: Seq<char>,
    name: Seq<char>,
    reply_stamp: Seq<char>,
    reply: Message,
)
    requires
        provider_answer(spec_ping_message(stamp), name, reply_stamp) == Some(reply@),
    ensures
        ({
            let (next, action) = health_next(h, HealthEvent::Read(ReadOutcome::Reply(reply)));
            &&& action matches HealthAction::Return(Ok(c)) && c@ == "PONG"@
            &&& next.phase == HealthPhase::Idle
            &&& next.last == h.last
        }),
{
}

/// Every ping is answered by a provider, whatever its time and the
/// provider's name.
pub proof fn lemma_ping_is_answerable(stamp: Seq<char>, name: Seq<char>, reply_stamp: Seq<char>)
    ensures
        provider_answer(spec_ping_message(stamp), name, reply_stamp) is Some,
{
}

/// The checker accepts every outcome of what it asked for: any time read
/// while idle, any outcome of writing the ping (written, busy, failed), and
/// any outcome of reading the reply (a reply, bytes that are no message, a
/// busy socket, a failed read). After each action, the checker accepts every
/// outcome of it.
pub proof fn lemma_health_accepts_every_outcome(
    h: Health,
    e: HealthEvent,
    now: i64,
    w: WriteOutcome,
    r: ReadOutcome,
)
    ensures
        h.phase == HealthPhase::Idle ==> health_accepts(h, HealthEvent::Tick(now)),
        h.phase == HealthPhase::Writing ==> health_accepts(h, HealthEvent::Wrote(w)),
        h.phase == HealthPhase::Reading ==> health_accepts(h, HealthEvent::Read(r)),
        health_accepts(h, e) ==> ({
            let (next, action) = health_next(h, e);
            &&& action is SendPing ==> health_accepts(next, HealthEvent::Wrote(w))
            &&& action is Receive ==> health_accepts(next, HealthEvent::Read(r))
            &&& (action is CheckClock || action is Return || action is CloseAndReturn)
                ==> health_accepts(next, HealthEvent::Tick(now))
        }),
{
}

/// How a cycle ends: a reply gives its command; bytes that are no message
/// give `InvalidData`; a busy socket, on writing or on reading, gives
/// `WouldBlock`; a failed read gives `TimedOut`; a failed write shuts the
/// endpoint down and gives `UnexpectedEof`.
pub proof fn lemma_cycle_outcomes(h: Health, reply: Message)
    ensures
        health_next(h, HealthEvent::Read(ReadOutcome::Reply(reply))).1 == HealthAction::Return(
            Ok(reply.body.command),
        ),
        health_next(h, HealthEvent::Read(ReadOutcome::Undecodable)).1 == HealthAction::Return(
            Err(CycleError::InvalidData),
        ),
        health_next(h, HealthEvent::Read(ReadOutcome::TryAgain)).1 == HealthAction::Return(
            Err(CycleError::WouldBlock),
        ),
        health_next(h, HealthEvent::Read(ReadOutcome::Failed)).1 == HealthAction::Return(
            Err(CycleError::TimedOut),
        ),
        health_next(h, HealthEvent::Wrote(WriteOutcome::TryAgain)).1 == HealthAction::Return(
            Err(CycleError::WouldBlock),
        ),
        health_next(h, HealthEvent::Wrote(WriteOutcome::Failed)).1 == HealthAction::CloseAndReturn(
            CycleError::UnexpectedEof,
        ),
        health_next(h, HealthEvent::Wrote(WriteOutcome::Written)).1 == HealthAction::Receive,
{
}

/// A ping goes out exactly when it is due, and the checker then counts the
/// interval from it; no other event moves the time of the last ping. Every
/// action that ends a cycle leaves the checker idle, ready for the next one.
pub proof fn lemma_cycle_step(h: Health, e: HealthEvent)
    ensures
        ({
            let (next, action) = health_next(h, e);
            &&& (action is SendPing) <==> (e matches HealthEvent::Tick(now) && now - h.last
                > PING_INTERVAL_NANOS)
            &&& action is SendPing ==> next.last == e->Tick_0 && next.phase == HealthPhase::Writing
            &&& !(action is SendPing) ==> next.last == h.last
            &&& (action is Return || action is CloseAndReturn) ==> next.phase == HealthPhase::Idle
            &&& action is Receive ==> next.phase == HealthPhase::Reading
        }),
{
}

} // verus!
