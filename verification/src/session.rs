//! One connection's session: handshake first, then serving until the
//! connection's time is up or one of the serving loops ends.

use vstd::prelude::*;
use crate::coordinator::{logic_end_spec, logic_verdict_spec, Verdict};
use crate::error::IndexerError;
use crate::handshake::{handshake_spec, handshake_step, HandshakeEvent, HandshakeEventView};
use crate::handshake::{HandshakePhase, HANDSHAKE_TIMEOUT};
use crate::fee::FeesCache;
use crate::message::{Message, MessageView, Nonce, RateRespView, Version};
use crate::rates::RatesCache;
use crate::serve::{serve_request, serve_spec, ServeStep, ServeStepView};
use crate::version::{build_version_message, version_message_spec};

verus! {

/// Seconds a connection stays open once the handshake is complete.
pub const CONNECTION_DROP_TIMEOUT: u64 = 1200;

/// The instant `secs` seconds after `from`, or the last instant there is.
pub open spec fn deadline_after(from: u64, secs: u64) -> u64 {
    if from + secs <= u64::MAX {
        (from + secs) as u64
    } else {
        u64::MAX
    }
}

pub fn deadline(from: u64, secs: u64) -> (at: u64)
    ensures
        at == deadline_after(from, secs),
{
    if from <= u64::MAX - secs {
        from + secs
    } else {
        u64::MAX
    }
}

/// The first of the three serving loops to end, and how it ended.
#[derive(Clone, Copy, Debug, PartialEq, Eq)]
pub enum ServingEvent {
    /// The connection's time is up.
    DropTimeout,
    /// The request loop ended.
    RequestsEnded(Result<(), IndexerError>),
    /// The announce loop ended.
    AnnounceEnded(Result<(), IndexerError>),
}

/// How the session ends on the first serving loop that ends: running out
/// of time is a success, a loop's error is the session's error.
pub open spec fn serving_result(event: ServingEvent) -> Result<(), IndexerError> {
    match event {
        ServingEvent::DropTimeout => Ok(()),
        ServingEvent::RequestsEnded(r) => r,
        ServingEvent::AnnounceEnded(r) => r,
    }
}

pub fn close_serving(event: ServingEvent) -> (result: Result<(), IndexerError>)
    ensures
        result == serving_result(event),
{
    match event {
        ServingEvent::DropTimeout => Ok(()),
        ServingEvent::RequestsEnded(r) => r,
        ServingEvent::AnnounceEnded(r) => r,
    }
}

/// Where a session stands.
#[derive(Clone, Copy, Debug, PartialEq, Eq)]
pub enum SessionState {
    Handshaking(HandshakePhase),
    Serving,
    Closed(Result<(), IndexerError>),
}

/// The state of one connection. It belongs to the connection's logic task
/// alone and is dropped with it.
#[derive(Clone, Debug, PartialEq, Eq)]
pub struct Session {
    pub addr: String,
    pub state: SessionState,
    pub local_nonce: Nonce,
    pub peer_nonce: Option<Nonce>,
    /// When the handshake must be complete.
    pub handshake_deadline: u64,
    /// When the connection is dropped; set when the handshake completes.
    pub drop_deadline: Option<u64>,
}

/// The nonce the peer declared in `event`, if `event` is its `Version`.
pub open spec fn declared_nonce(event: HandshakeEventView) -> Option<Nonce> {
    match event {
        HandshakeEventView::Received(MessageView::Version(peer)) => Some(peer.nonce),
        _ => None,
    }
}

impl Session {
    /// What holds of every session that was started here: a handshake that
    /// has seen both messages has become `Serving`, and a serving session
    /// knows when it will be dropped.
    pub open spec fn wf(self) -> bool {
        &&& self.state != SessionState::Handshaking(HandshakePhase::Handshaked)
        &&& self.state == SessionState::Serving ==> self.drop_deadline.is_some()
    }

    /// The state after a handshake event at time `now`. But for a failure
    /// to send, a session that is not in its handshake stays as it is.
    pub open spec fn after_handshake(
        self,
        event: HandshakeEventView,
        peer_compatible: bool,
        now: u64,
    ) -> Session {
        if event == HandshakeEventView::SendFailed {
            self.after_send_failed()
        } else {
            self.after_received(event, peer_compatible, now)
        }
    }

    /// The state after a message of ours could not be enqueued: the session
    /// ends with `HandshakeSendError`, also where the message was the
    /// `VersionAck` for the `Version` that completed the handshake. A
    /// session that has ended stays as it is.
    pub open spec fn after_send_failed(self) -> Session {
        match self.state {
            SessionState::Closed(_) => self,
            _ => Session {
                state: SessionState::Closed(Err(IndexerError::HandshakeSendError)),
                ..self
            },
        }
    }

    /// The state after a handshake event other than a failure to send.
    pub open spec fn after_received(
        self,
        event: HandshakeEventView,
        peer_compatible: bool,
        now: u64,
    ) -> Session {
        match self.state {
            SessionState::Handshaking(phase) => {
                let step = handshake_spec(phase, self.local_nonce, event, peer_compatible);
                match step.next {
                    Ok(next) => Session {
                        state: if next == HandshakePhase::Handshaked {
                            SessionState::Serving
                        } else {
                            SessionState::Handshaking(next)
                        },
                        peer_nonce: if step.send_ack {
                            declared_nonce(event)
                        } else {
                            self.peer_nonce
                        },
                        drop_deadline: if next == HandshakePhase::Handshaked {
                            Some(deadline_after(now, CONNECTION_DROP_TIMEOUT))
                        } else {
                            self.drop_deadline
                        },
                        ..self
                    },
                    Err(error) => Session { state: SessionState::Closed(Err(error)), ..self },
                }
            },
            _ => self,
        }
    }

    /// Whether a handshake event makes the session enqueue a `VersionAck`.
    pub open spec fn acks(self, event: HandshakeEventView, peer_compatible: bool) -> bool {
        match self.state {
            SessionState::Handshaking(phase) => handshake_spec(
                phase,
                self.local_nonce,
                event,
                peer_compatible,
            ).send_ack,
            _ => false,
        }
    }

    /// The state after the first serving loop ended. A session that is not
    /// serving stays as it is.
    pub open spec fn after_serving(self, event: ServingEvent) -> Session {
        match self.state {
            SessionState::Serving => Session {
                state: SessionState::Closed(serving_result(event)),
                ..self
            },
            _ => self,
        }
    }

    /// What a received message calls for. Only a serving session answers:
    /// before the handshake is complete and after the session has ended,
    /// nothing is sent.
    pub open spec fn request_step(
        self,
        msg: MessageView,
        filters_height: u32,
        fees: FeesCache,
        rates: Seq<RateRespView>,
    ) -> ServeStepView {
        if self.state == SessionState::Serving {
            serve_spec(msg, filters_height, fees, rates)
        } else {
            ServeStepView::Ignore
        }
    }

    /// The state after a received message was dispatched: a rejection ends
    /// the session with its error, anything else leaves it as it is.
    pub open spec fn after_request(
        self,
        msg: MessageView,
        filters_height: u32,
        fees: FeesCache,
        rates: Seq<RateRespView>,
    ) -> Session {
        match self.request_step(msg, filters_height, fees, rates) {
            ServeStepView::Close { reject, error } => Session {
                state: SessionState::Closed(Err(error)),
                ..self
            },
            _ => self,
        }
    }

    /// Starts the session of a connection accepted at `now` from `addr`:
    /// draws the nonce and builds the `Version` message to enqueue first.
    /// The session remembers the nonce that the message carries.
    pub fn start(addr: String, current: Version, now: u64, scan_height: u32, chain_height: u32) -> (out:
        (Session, Message))
        ensures
            out.0 == (Session {
                addr,
                state: SessionState::Handshaking(HandshakePhase::AwaitingBoth),
                local_nonce: out.0.local_nonce,
                peer_nonce: None,
                handshake_deadline: deadline_after(now, HANDSHAKE_TIMEOUT),
                drop_deadline: None,
            }),
            out.1@ == MessageView::Version(
                version_message_spec(current, now, out.0.local_nonce, scan_height, chain_height),
            ),
            out.0.wf(),
    {
        let intro = build_version_message(current, now, scan_height, chain_height);
        let session = Session::accept(addr, intro.nonce, now);
        (session, Message::Version(intro))
    }

    /// A session for a connection accepted at `now` from `addr`.
    pub fn accept(addr: String, local_nonce: Nonce, now: u64) -> (session: Session)
        ensures
            session == (Session {
                addr,
                state: SessionState::Handshaking(HandshakePhase::AwaitingBoth),
                local_nonce,
                peer_nonce: None,
                handshake_deadline: deadline_after(now, HANDSHAKE_TIMEOUT),
                drop_deadline: None,
            }),
            session.wf(),
    {
        Session {
            addr,
            state: SessionState::Handshaking(HandshakePhase::AwaitingBoth),
            local_nonce,
            peer_nonce: None,
            handshake_deadline: deadline(now, HANDSHAKE_TIMEOUT),
            drop_deadline: None,
        }
    }

    /// Takes one handshake event at time `now`. Returns whether a
    /// `VersionAck` is to be enqueued.
    pub fn on_handshake(&mut self, event: &HandshakeEvent, peer_compatible: bool, now: u64) -> (send_ack:
        bool)
        ensures
            *final(self) == old(self).after_handshake(event@, peer_compatible, now),
            send_ack == old(self).acks(event@, peer_compatible),
            old(self).wf() ==> final(self).wf(),
    {
        match event {
            HandshakeEvent::SendFailed => {
                self.on_send_failed();
                return false;
            },
            _ => {},
        }
        match self.state {
            SessionState::Handshaking(phase) => {
                let step = handshake_step(phase, &self.local_nonce, event, peer_compatible);
                match step.next {
                    Ok(next) => {
                        if step.send_ack {
                            self.peer_nonce = match event {
                                HandshakeEvent::Received(Message::Version(peer)) => Some(peer.nonce),
                                _ => None,
                            };
                        }
                        if next.is_complete() {
                            self.state = SessionState::Serving;
                            self.drop_deadline = Some(deadline(now, CONNECTION_DROP_TIMEOUT));
                        } else {
                            self.state = SessionState::Handshaking(next);
                        }
                    },
                    Err(error) => {
                        self.state = SessionState::Closed(Err(error));
                    },
                }
                step.send_ack
            },
            _ => false,
        }
    }

    /// Tells the session that a message it asked to have enqueued, the
    /// `Version` or a `VersionAck`, could not be: the session ends with
    /// `HandshakeSendError`.
    pub fn on_send_failed(&mut self)
        ensures
            *final(self) == old(self).after_send_failed(),
            old(self).wf() ==> final(self).wf(),
    {
        match self.state {
            SessionState::Closed(_) => {},
            _ => {
                self.state = SessionState::Closed(Err(IndexerError::HandshakeSendError));
            },
        }
    }

    /// Dispatches one received message. Returns what is to be done about
    /// it; a session that is not serving ignores it.
    pub fn on_request(
        &mut self,
        msg: &Message,
        filters_height: u32,
        fees: &FeesCache,
        rates: &RatesCache,
    ) -> (step: ServeStep)
        ensures
            step@ == old(self).request_step(msg@, filters_height, *fees, rates@),
            *final(self) == old(self).after_request(msg@, filters_height, *fees, rates@),
            old(self).wf() ==> final(self).wf(),
    {
        match self.state {
            SessionState::Serving => {
                let step = serve_request(msg, filters_height, fees, rates);
                match &step {
                    ServeStep::Close { reject: _, error } => {
                        self.state = SessionState::Closed(Err(*error));
                    },
                    _ => {},
                }
                step
            },
            _ => ServeStep::Ignore,
        }
    }

    /// Closes a serving session on the first serving loop that ended.
    pub fn on_serving(&mut self, event: ServingEvent)
        ensures
            *final(self) == old(self).after_serving(event),
            old(self).wf() ==> final(self).wf(),
    {
        match self.state {
            SessionState::Serving => {
                self.state = SessionState::Closed(close_serving(event));
            },
            _ => {},
        }
    }

    /// Whether the session has ended.
    pub fn is_closed(&self) -> (closed: bool)
        ensures
            closed == (self.state is Closed),
    {
        match self.state {
            SessionState::Closed(_) => true,
            _ => false,
        }
    }
}

/// A serving session whose time is up closes without an error, its
/// deadline stood 1200 seconds after the instant the handshake completed,
/// and the coordinator closes the socket without reporting a failure.
pub proof fn drop_timeout_closes_cleanly(
    before: Session,
    event: HandshakeEventView,
    peer_compatible: bool,
    completed_at: u64,
)
    requires
        before.state is Handshaking,
        before.after_handshake(event, peer_compatible, completed_at).state == SessionState::Serving,
        completed_at + 1200 <= u64::MAX,
    ensures
        before.after_handshake(event, peer_compatible, completed_at).drop_deadline == Some(
            (completed_at + 1200) as u64,
        ),
        before.after_handshake(event, peer_compatible, completed_at).after_serving(
            ServingEvent::DropTimeout,
        ).state == SessionState::Closed(Ok(())),
        logic_verdict_spec(logic_end_spec(serving_result(ServingEvent::DropTimeout))) == (Verdict {
            abort_other: true,
            report_failure: false,
        }),
{
}

/// A session that has ended stays ended and sends nothing, whatever
/// arrives: no `VersionAck`, and no answer to any request.
pub proof fn closed_session_is_silent(
    session: Session,
    event: HandshakeEventView,
    peer_compatible: bool,
    now: u64,
    serving: ServingEvent,
    msg: MessageView,
    filters_height: u32,
    fees: FeesCache,
    rates: Seq<RateRespView>,
)
    requires
        session.state is Closed,
    ensures
        session.after_handshake(event, peer_compatible, now) == session,
        !session.acks(event, peer_compatible),
        session.after_serving(serving) == session,
        session.after_send_failed() == session,
        session.request_step(msg, filters_height, fees, rates) == ServeStepView::Ignore,
        session.after_request(msg, filters_height, fees, rates) == session,
{
}

/// A peer that declares the session's own nonce ends the session with
/// `HandshakeNonceIdentical`; the session sends no `VersionAck` for it and
/// is closed, so nothing is sent afterwards either.
pub proof fn self_connection_ends_session(
    session: Session,
    event: HandshakeEventView,
    now: u64,
)
    requires
        session.wf(),
        session.state is Handshaking,
        declared_nonce(event) == Some(session.local_nonce),
    ensures
        session.after_handshake(event, true, now).state == SessionState::Closed(
            Err(IndexerError::HandshakeNonceIdentical),
        ),
        !session.acks(event, true),
{
}

/// If the `VersionAck` for the `Version` that completes the handshake
/// cannot be enqueued, the session does not serve: it ends with
/// `HandshakeSendError`. So does every session that has not ended yet.
pub proof fn failed_ack_ends_session(
    before: Session,
    event: HandshakeEventView,
    peer_compatible: bool,
    now: u64,
)
    requires
        before.wf(),
        before.acks(event, peer_compatible),
    ensures
        before.after_handshake(event, peer_compatible, now).after_send_failed().state
            == SessionState::Closed(Err(IndexerError::HandshakeSendError)),
        before.after_handshake(event, peer_compatible, now).after_handshake(
            HandshakeEventView::SendFailed,
            peer_compatible,
            now,
        ) == before.after_handshake(event, peer_compatible, now).after_send_failed(),
{
}

/// A request is served only once both handshake messages have been seen.
pub proof fn no_service_before_handshake(
    session: Session,
    msg: MessageView,
    filters_height: u32,
    fees: FeesCache,
    rates: Seq<RateRespView>,
)
    requires
        session.state is Handshaking,
    ensures
        session.request_step(msg, filters_height, fees, rates) == ServeStepView::Ignore,
{
}

} // verus!
