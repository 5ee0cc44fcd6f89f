//! The per-subscriber session: a state machine covering handshake,
//! heartbeat/timeout liveness, inbound-message handling and teardown.
//!
//! The machine only decides; the surrounding transport performs the actions
//! it returns (registering the connection, sending probe frames, applying a
//! write, closing the socket) and feeds the resulting events back in.
use vstd::prelude::*;

use crate::hub::Delivery;
use crate::hub::is_fanout;
use crate::hub::lemma_broadcast_skips_absent;
use crate::registry::removal_of;

verus! {

/// The lifecycle of one subscriber connection. `Closed` is terminal: a
/// discarded session is never reused; reconnection takes a fresh handshake.
#[derive(Clone, Copy, Debug, PartialEq, Eq, Structural)]
pub enum SessionState {
    /// The subscription handshake has not completed yet.
    Connecting,
    /// The connection is live; `last_activity_ms` is when the peer was
    /// last observed (probe reply or any inbound frame).
    Open { last_activity_ms: u64 },
    /// Teardown has begun: the connection is being closed and removed
    /// from the registry.
    Closing,
    /// The session is over.
    Closed,
}

/// What the transport observed on one subscriber connection, with the
/// current clock reading in milliseconds where the machine needs it.
#[derive(Debug)]
pub enum SessionEvent {
    /// The subscription handshake completed.
    HandshakeComplete,
    /// The periodic heartbeat timer fired.
    HeartbeatTick,
    /// The peer sent a liveness probe carrying `payload`.
    Probe(Vec<u8>),
    /// The peer answered a liveness probe.
    ProbeReply,
    /// The peer sent a full replacement document.
    InboundContent(Vec<u8>),
    /// The peer asked to close, in an orderly way.
    CloseSignal,
    /// The transport failed; the connection is unusable.
    TransportError,
    /// Any other inbound frame; it counts as peer activity and is
    /// otherwise ignored.
    OtherFrame,
    /// The transport finished closing the connection and the session has
    /// been removed from the registry.
    TeardownComplete,
}

/// What the transport must do next on behalf of the session.
#[derive(Debug)]
pub enum SessionAction {
    /// Add this connection to the registry and start the heartbeat timer.
    Register,
    /// Send a liveness probe to the peer.
    SendProbe,
    /// Answer the peer's liveness probe, echoing its payload.
    SendProbeReply(Vec<u8>),
    /// Hand this candidate content to the write handler (validate, store,
    /// fan out).
    Apply(Vec<u8>),
    /// Cancel the heartbeat timer, close the connection and remove it
    /// from the registry (idempotently), then report `TeardownComplete`.
    BeginTeardown,
    /// Nothing to do.
    Ignore,
}

/// Whether a peer last seen at `last_ms` has been silent for longer than
/// `timeout_ms` at clock reading `now_ms`.
pub open spec fn timed_out(last_ms: u64, now_ms: u64, timeout_ms: u64) -> bool {
    now_ms - last_ms > timeout_ms
}

/// The session transition function: from a state and an observed event to
/// the next state and the action the transport must perform.
pub open spec fn session_step(
    state: SessionState,
    event: SessionEvent,
    now_ms: u64,
    timeout_ms: u64,
) -> (SessionState, SessionAction) {
    match state {
        SessionState::Connecting => match event {
            SessionEvent::HandshakeComplete => (
                SessionState::Open { last_activity_ms: now_ms },
                SessionAction::Register,
            ),
            SessionEvent::CloseSignal => (SessionState::Closed, SessionAction::Ignore),
            SessionEvent::TransportError => (SessionState::Closed, SessionAction::Ignore),
            _ => (state, SessionAction::Ignore),
        },
        SessionState::Open { last_activity_ms } => match event {
            SessionEvent::HeartbeatTick => if timed_out(last_activity_ms, now_ms, timeout_ms) {
                (SessionState::Closing, SessionAction::BeginTeardown)
            } else {
                (state, SessionAction::SendProbe)
            },
            SessionEvent::Probe(payload) => (
                SessionState::Open { last_activity_ms: now_ms },
                SessionAction::SendProbeReply(payload),
            ),
            SessionEvent::ProbeReply => (
                SessionState::Open { last_activity_ms: now_ms },
                SessionAction::Ignore,
            ),
            SessionEvent::InboundContent(content) => (
                SessionState::Open { last_activity_ms: now_ms },
                SessionAction::Apply(content),
            ),
            SessionEvent::OtherFrame => (
                SessionState::Open { last_activity_ms: now_ms },
                SessionAction::Ignore,
            ),
            SessionEvent::CloseSignal => (SessionState::Closing, SessionAction::BeginTeardown),
            SessionEvent::TransportError => (SessionState::Closing, SessionAction::BeginTeardown),
            _ => (state, SessionAction::Ignore),
        },
        SessionState::Closing => match event {
            SessionEvent::TeardownComplete => (SessionState::Closed, SessionAction::Ignore),
            _ => (state, SessionAction::Ignore),
        },
        SessionState::Closed => (state, SessionAction::Ignore),
    }
}

/// One subscriber session: its connection identity, its eviction timeout,
/// and where it stands in the lifecycle.
pub struct Session {
    /// The identity under which this connection is registered.
    pub conn: u64,
    /// Inactivity threshold in milliseconds beyond which the peer is
    /// considered dead.
    pub timeout_ms: u64,
    /// The current lifecycle state.
    pub state: SessionState,
}

impl Session {
    /// Creates a session for connection `conn` that evicts the peer after
    /// `timeout_ms` milliseconds of silence. The handshake has not run yet.
    pub fn new(conn: u64, timeout_ms: u64) -> (s: Session)
        ensures
            s.conn == conn,
            s.timeout_ms == timeout_ms,
            s.state == SessionState::Connecting,
    {
        Session { conn, timeout_ms, state: SessionState::Connecting }
    }

    /// Advances the session by one observed event, exactly as the
    /// transition function `session_step` prescribes, and returns the
    /// action the transport must perform.
    pub fn step(&mut self, event: SessionEvent, now_ms: u64) -> (action: SessionAction)
        ensures
            final(self).conn == old(self).conn,
            final(self).timeout_ms == old(self).timeout_ms,
            (final(self).state, action) == session_step(
                old(self).state,
                event,
                now_ms,
                old(self).timeout_ms,
            ),
    {
        match self.state {
            SessionState::Connecting => match event {
                SessionEvent::HandshakeComplete => {
                    self.state = SessionState::Open { last_activity_ms: now_ms };
                    SessionAction::Register
                },
                SessionEvent::CloseSignal => {
                    self.state = SessionState::Closed;
                    SessionAction::Ignore
                },
                SessionEvent::TransportError => {
                    self.state = SessionState::Closed;
                    SessionAction::Ignore
                },
                _ => SessionAction::Ignore,
            },
            SessionState::Open { last_activity_ms } => match event {
                SessionEvent::HeartbeatTick => {
                    if now_ms > last_activity_ms && now_ms - last_activity_ms > self.timeout_ms {
                        self.state = SessionState::Closing;
                        SessionAction::BeginTeardown
                    } else {
                        SessionAction::SendProbe
                    }
                },
                SessionEvent::Probe(payload) => {
                    self.state = SessionState::Open { last_activity_ms: now_ms };
                    SessionAction::SendProbeReply(payload)
                },
                SessionEvent::ProbeReply => {
                    self.state = SessionState::Open { last_activity_ms: now_ms };
                    SessionAction::Ignore
                },
                SessionEvent::InboundContent(content) => {
                    self.state = SessionState::Open { last_activity_ms: now_ms };
                    SessionAction::Apply(content)
                },
                SessionEvent::OtherFrame => {
                    self.state = SessionState::Open { last_activity_ms: now_ms };
                    SessionAction::Ignore
                },
                SessionEvent::CloseSignal => {
                    self.state = SessionState::Closing;
                    SessionAction::BeginTeardown
                },
                SessionEvent::TransportError => {
                    self.state = SessionState::Closing;
                    SessionAction::BeginTeardown
                },
                _ => SessionAction::Ignore,
            },
            SessionState::Closing => match event {
                SessionEvent::TeardownComplete => {
                    self.state = SessionState::Closed;
                    SessionAction::Ignore
                },
                _ => SessionAction::Ignore,
            },
            SessionState::Closed => SessionAction::Ignore,
        }
    }
}

/// Law: a subscriber that has been silent for longer than the timeout is
/// torn down on the next heartbeat tick; its removal from the registry
/// leaves every other connection's membership untouched; fan-outs after
/// the removal do not target it; and a second removal racing the first
/// (explicit close against heartbeat timeout) changes nothing.
pub proof fn lemma_timeout_eviction(
    last_activity_ms: u64,
    now_ms: u64,
    timeout_ms: u64,
    before: Seq<u64>,
    after: Seq<u64>,
    again: Seq<u64>,
    c: u64,
    content: Seq<u8>,
    ds: Seq<Delivery>,
)
    requires
        timed_out(last_activity_ms, now_ms, timeout_ms),
        removal_of(before, after, c),
        removal_of(after, again, c),
        is_fanout(after, content, ds),
    ensures
        session_step(
            SessionState::Open { last_activity_ms },
            SessionEvent::HeartbeatTick,
            now_ms,
            timeout_ms,
        ) == (SessionState::Closing, SessionAction::BeginTeardown),
        !after.contains(c),
        forall|x: u64| x != c ==> (after.contains(x) <==> before.contains(x)),
        forall|i: int| 0 <= i < ds.len() ==> #[trigger] ds[i].target != c,
        again == after,
{
    lemma_broadcast_skips_absent(after, content, ds, c);
}

} // verus!
