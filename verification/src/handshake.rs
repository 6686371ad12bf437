//! The version handshake: both sides send `Version` and answer it with
//! `VersionAck`. The session may serve only after it has seen both from the
//! peer, in either order.

use vstd::prelude::*;
use crate::error::IndexerError;
use crate::message::{nonce_eq, Message, MessageView, Nonce};

verus! {

/// Seconds the peer has, from the accept, to complete the handshake.
pub const HANDSHAKE_TIMEOUT: u64 = 20;

/// How far the handshake has come.
#[derive(Clone, Copy, Debug, PartialEq, Eq, Structural)]
pub enum HandshakePhase {
    AwaitingBoth,
    GotVersion,
    GotAck,
    Handshaked,
}

impl HandshakePhase {
    /// Whether the peer's `Version` has been accepted.
    pub open spec fn got_version(self) -> bool {
        self == HandshakePhase::GotVersion || self == HandshakePhase::Handshaked
    }

    /// Whether the peer's `VersionAck` has arrived.
    pub open spec fn got_ack(self) -> bool {
        self == HandshakePhase::GotAck || self == HandshakePhase::Handshaked
    }

    /// The phase in which exactly the given messages have been seen.
    pub open spec fn of(got_version: bool, got_ack: bool) -> HandshakePhase {
        if got_version && got_ack {
            HandshakePhase::Handshaked
        } else if got_version {
            HandshakePhase::GotVersion
        } else if got_ack {
            HandshakePhase::GotAck
        } else {
            HandshakePhase::AwaitingBoth
        }
    }

    /// The phase after the peer's `Version` was accepted.
    pub fn with_version(self) -> (next: HandshakePhase)
        ensures
            next == HandshakePhase::of(true, self.got_ack()),
    {
        match self {
            HandshakePhase::AwaitingBoth | HandshakePhase::GotVersion => HandshakePhase::GotVersion,
            HandshakePhase::GotAck | HandshakePhase::Handshaked => HandshakePhase::Handshaked,
        }
    }

    /// The phase after the peer's `VersionAck` arrived.
    pub fn with_ack(self) -> (next: HandshakePhase)
        ensures
            next == HandshakePhase::of(self.got_version(), true),
    {
        match self {
            HandshakePhase::AwaitingBoth | HandshakePhase::GotAck => HandshakePhase::GotAck,
            HandshakePhase::GotVersion | HandshakePhase::Handshaked => HandshakePhase::Handshaked,
        }
    }

    /// Whether the session may start to serve.
    pub fn is_complete(self) -> (done: bool)
        ensures
            done == (self == HandshakePhase::Handshaked),
            done == (self.got_version() && self.got_ack()),
    {
        match self {
            HandshakePhase::Handshaked => true,
            _ => false,
        }
    }
}

/// What can happen while the handshake is under way.
#[derive(Clone, Debug, PartialEq, Eq)]
pub enum HandshakeEvent {
    /// The peer sent a message.
    Received(Message),
    /// The handshake deadline passed.
    DeadlineElapsed,
    /// The inbound channel closed.
    ChannelClosed,
    /// A message of ours could not be put on the outbound channel.
    SendFailed,
}

pub enum HandshakeEventView {
    Received(MessageView),
    DeadlineElapsed,
    ChannelClosed,
    SendFailed,
}

impl View for HandshakeEvent {
    type V = HandshakeEventView;

    open spec fn view(&self) -> HandshakeEventView {
        match *self {
            HandshakeEvent::Received(m) => HandshakeEventView::Received(m@),
            HandshakeEvent::DeadlineElapsed => HandshakeEventView::DeadlineElapsed,
            HandshakeEvent::ChannelClosed => HandshakeEventView::ChannelClosed,
            HandshakeEvent::SendFailed => HandshakeEventView::SendFailed,
        }
    }
}

/// The outcome of one event: the next phase or the error that ends the
/// session, and whether a `VersionAck` is to be enqueued.
#[derive(Clone, Copy, Debug, PartialEq, Eq)]
pub struct HandshakeStep {
    pub next: Result<HandshakePhase, IndexerError>,
    pub send_ack: bool,
}

/// The step that ends the session with `error` and sends nothing.
pub open spec fn fails_with(error: IndexerError) -> HandshakeStep {
    HandshakeStep { next: Err(error), send_ack: false }
}

/// The handshake's transition function.
///
/// `peer_compatible` is the verdict of the version rule on the version the
/// peer declared; it is read only when the event is a received `Version`.
/// Once both messages have been seen the handshake keeps its phase and
/// sends nothing, with one exception: the `VersionAck` that answers the
/// completing `Version` is enqueued after the step, so a failure to send
/// still ends the session.
pub open spec fn handshake_spec(
    phase: HandshakePhase,
    local_nonce: Nonce,
    event: HandshakeEventView,
    peer_compatible: bool,
) -> HandshakeStep {
    if event == HandshakeEventView::SendFailed {
        fails_with(IndexerError::HandshakeSendError)
    } else if phase == HandshakePhase::Handshaked {
        HandshakeStep { next: Ok(phase), send_ack: false }
    } else {
        match event {
            HandshakeEventView::DeadlineElapsed => fails_with(IndexerError::HandshakeTimeout),
            HandshakeEventView::ChannelClosed => fails_with(IndexerError::HandshakeRecv),
            HandshakeEventView::SendFailed => fails_with(IndexerError::HandshakeSendError),
            HandshakeEventView::Received(MessageView::Version(peer)) => {
                if !peer_compatible {
                    fails_with(IndexerError::NotCompatible(peer.version))
                } else if peer.nonce == local_nonce {
                    fails_with(IndexerError::HandshakeNonceIdentical)
                } else {
                    HandshakeStep {
                        next: Ok(HandshakePhase::of(true, phase.got_ack())),
                        send_ack: true,
                    }
                }
            },
            HandshakeEventView::Received(MessageView::VersionAck) => HandshakeStep {
                next: Ok(HandshakePhase::of(phase.got_version(), true)),
                send_ack: false,
            },
            HandshakeEventView::Received(_) => fails_with(IndexerError::HandshakeViolation),
        }
    }
}

/// Takes one event of the handshake.
pub fn handshake_step(
    phase: HandshakePhase,
    local_nonce: &Nonce,
    event: &HandshakeEvent,
    peer_compatible: bool,
) -> (step: HandshakeStep)
    ensures
        step == handshake_spec(phase, *local_nonce, event@, peer_compatible),
{
    match event {
        HandshakeEvent::SendFailed => {
            return HandshakeStep { next: Err(IndexerError::HandshakeSendError), send_ack: false };
        },
        _ => {},
    }
    if phase.is_complete() {
        return HandshakeStep { next: Ok(phase), send_ack: false };
    }
    match event {
        HandshakeEvent::DeadlineElapsed => HandshakeStep {
            next: Err(IndexerError::HandshakeTimeout),
            send_ack: false,
        },
        HandshakeEvent::ChannelClosed => HandshakeStep {
            next: Err(IndexerError::HandshakeRecv),
            send_ack: false,
        },
        HandshakeEvent::SendFailed => HandshakeStep {
            next: Err(IndexerError::HandshakeSendError),
            send_ack: false,
        },
        HandshakeEvent::Received(Message::Version(peer)) => {
            if !peer_compatible {
                HandshakeStep { next: Err(IndexerError::NotCompatible(peer.version)), send_ack: false }
            } else if nonce_eq(&peer.nonce, local_nonce) {
                HandshakeStep { next: Err(IndexerError::HandshakeNonceIdentical), send_ack: false }
            } else {
                HandshakeStep { next: Ok(phase.with_version()), send_ack: true }
            }
        },
        HandshakeEvent::Received(Message::VersionAck) => HandshakeStep {
            next: Ok(phase.with_ack()),
            send_ack: false,
        },
        HandshakeEvent::Received(_) => HandshakeStep {
            next: Err(IndexerError::HandshakeViolation),
            send_ack: false,
        },
    }
}

/// An event together with the version rule's verdict on it.
pub struct Arrival {
    pub event: HandshakeEventView,
    pub peer_compatible: bool,
}

/// Where the handshake stands after a run of events: the phase reached, or
/// the first error.
pub open spec fn handshake_run(phase: HandshakePhase, local_nonce: Nonce, arrivals: Seq<Arrival>)
    -> Result<HandshakePhase, IndexerError>
    decreases arrivals.len(),
{
    if arrivals.len() == 0 {
        Ok(phase)
    } else {
        let first = arrivals[0];
        match handshake_spec(phase, local_nonce, first.event, first.peer_compatible).next {
            Ok(next) => handshake_run(next, local_nonce, arrivals.drop_first()),
            Err(error) => Err(error),
        }
    }
}

/// The number of `VersionAck` messages enqueued over a run of events, up to
/// its end or its first error.
pub open spec fn handshake_acks(phase: HandshakePhase, local_nonce: Nonce, arrivals: Seq<Arrival>)
    -> nat
    decreases arrivals.len(),
{
    if arrivals.len() == 0 {
        0
    } else {
        let first = arrivals[0];
        let step = handshake_spec(phase, local_nonce, first.event, first.peer_compatible);
        let now: nat = if step.send_ack {
            1
        } else {
            0
        };
        match step.next {
            Ok(next) => now + handshake_acks(next, local_nonce, arrivals.drop_first()),
            Err(_) => now,
        }
    }
}

/// An event as it arrives, with the version rule's verdict on it.
#[derive(Clone, Debug, PartialEq, Eq)]
pub struct Arrived {
    pub event: HandshakeEvent,
    pub peer_compatible: bool,
}

impl View for Arrived {
    type V = Arrival;

    open spec fn view(&self) -> Arrival {
        Arrival { event: self.event@, peer_compatible: self.peer_compatible }
    }
}

/// The views of a run of arrivals, in the same order.
pub open spec fn arrival_views(arrivals: Seq<Arrived>) -> Seq<Arrival> {
    arrivals.map_values(|a: Arrived| a@)
}

/// Runs a fresh handshake over events held in memory. Returns where the
/// handshake stands after them, or its first error, and the number of
/// `VersionAck` messages it enqueued on the way.
pub fn run_handshake(local_nonce: &Nonce, arrivals: &Vec<Arrived>) -> (out: (
    Result<HandshakePhase, IndexerError>,
    usize,
))
    ensures
        out.0 == handshake_run(
            HandshakePhase::AwaitingBoth,
            *local_nonce,
            arrival_views(arrivals@),
        ),
        out.1 == handshake_acks(
            HandshakePhase::AwaitingBoth,
            *local_nonce,
            arrival_views(arrivals@),
        ),
{
    let ghost all = arrival_views(arrivals@);
    let mut phase = HandshakePhase::AwaitingBoth;
    let mut acks: usize = 0;
    let mut i: usize = 0;
    proof {
        assert(all.skip(0) =~= all);
    }
    while i < arrivals.len()
        invariant
            i <= arrivals.len(),
            acks <= i,
            all == arrival_views(arrivals@),
            handshake_run(HandshakePhase::AwaitingBoth, *local_nonce, all) == handshake_run(
                phase,
                *local_nonce,
                all.skip(i as int),
            ),
            handshake_acks(HandshakePhase::AwaitingBoth, *local_nonce, all) == acks
                + handshake_acks(phase, *local_nonce, all.skip(i as int)),
        decreases arrivals.len() - i,
    {
        proof {
            assert(all.skip(i as int).drop_first() =~= all.skip(i + 1));
            assert(all.skip(i as int)[0] == arrivals@[i as int]@);
        }
        let step = handshake_step(
            phase,
            local_nonce,
            &arrivals[i].event,
            arrivals[i].peer_compatible,
        );
        if step.send_ack {
            acks += 1;
        }
        match step.next {
            Ok(next) => {
                phase = next;
            },
            Err(error) => {
                return (Err(error), acks);
            },
        }
        i += 1;
    }
    (Ok(phase), acks)
}

/// A `Version` that the handshake accepts: compatible, and not our own nonce.
pub open spec fn good_version(local_nonce: Nonce, arrival: Arrival) -> bool {
    arrival.peer_compatible && match arrival.event {
        HandshakeEventView::Received(MessageView::Version(peer)) => peer.nonce != local_nonce,
        _ => false,
    }
}

pub open spec fn is_ack(arrival: Arrival) -> bool {
    arrival.event == HandshakeEventView::Received(MessageView::VersionAck)
}

/// Every arrival is an acceptable `Version` or a `VersionAck`.
pub open spec fn only_handshake_messages(local_nonce: Nonce, arrivals: Seq<Arrival>) -> bool {
    forall|i: int|
        0 <= i < arrivals.len() ==> good_version(local_nonce, #[trigger] arrivals[i]) || is_ack(
            arrivals[i],
        )
}

pub open spec fn has_version(local_nonce: Nonce, arrivals: Seq<Arrival>) -> bool {
    exists|i: int| 0 <= i < arrivals.len() && good_version(local_nonce, #[trigger] arrivals[i])
}

/// No arrival is a failure to send.
pub open spec fn all_sent(arrivals: Seq<Arrival>) -> bool {
    forall|i: int|
        0 <= i < arrivals.len() ==> (#[trigger] arrivals[i]).event
            != HandshakeEventView::SendFailed
}

pub open spec fn has_ack(arrivals: Seq<Arrival>) -> bool {
    exists|i: int| 0 <= i < arrivals.len() && is_ack(#[trigger] arrivals[i])
}

/// A run of acceptable handshake messages ends in the phase that records
/// what was seen before it together with what the run holds, whatever the
/// order.
pub proof fn handshake_run_collects(
    phase: HandshakePhase,
    local_nonce: Nonce,
    arrivals: Seq<Arrival>,
)
    requires
        only_handshake_messages(local_nonce, arrivals),
    ensures
        handshake_run(phase, local_nonce, arrivals) == Ok::<HandshakePhase, IndexerError>(
            HandshakePhase::of(
                phase.got_version() || has_version(local_nonce, arrivals),
                phase.got_ack() || has_ack(arrivals),
            ),
        ),
    decreases arrivals.len(),
{
    if arrivals.len() > 0 {
        let first = arrivals[0];
        let rest = arrivals.drop_first();
        let next = handshake_spec(phase, local_nonce, first.event, first.peer_compatible).next;
        assert(good_version(local_nonce, first) || is_ack(first));
        assert forall|i: int| 0 <= i < rest.len() implies good_version(
            local_nonce,
            #[trigger] rest[i],
        ) || is_ack(rest[i]) by {
            assert(rest[i] == arrivals[i + 1]);
        }
        assert(next.is_ok());
        handshake_run_collects(next.unwrap(), local_nonce, rest);
        if has_version(local_nonce, rest) {
            let i = choose|i: int| 0 <= i < rest.len() && good_version(local_nonce, #[trigger] rest[i]);
            assert(rest[i] == arrivals[i + 1]);
        }
        if has_ack(rest) {
            let i = choose|i: int| 0 <= i < rest.len() && is_ack(#[trigger] rest[i]);
            assert(rest[i] == arrivals[i + 1]);
        }
        if has_version(local_nonce, arrivals) {
            let i = choose|i: int|
                0 <= i < arrivals.len() && good_version(local_nonce, #[trigger] arrivals[i]);
            if i > 0 {
                assert(rest[i - 1] == arrivals[i]);
            }
        }
        if has_ack(arrivals) {
            let i = choose|i: int| 0 <= i < arrivals.len() && is_ack(#[trigger] arrivals[i]);
            if i > 0 {
                assert(rest[i - 1] == arrivals[i]);
            }
        }
    }
}

/// From a fresh session, a run of acceptable handshake messages completes
/// the handshake exactly when it holds both a `Version` and a `VersionAck`;
/// which of the two comes first makes no difference.
pub proof fn handshake_completes_iff_both(local_nonce: Nonce, arrivals: Seq<Arrival>)
    requires
        only_handshake_messages(local_nonce, arrivals),
    ensures
        handshake_run(HandshakePhase::AwaitingBoth, local_nonce, arrivals) == Ok::<
            HandshakePhase,
            IndexerError,
        >(HandshakePhase::Handshaked) <==> has_version(local_nonce, arrivals) && has_ack(arrivals),
{
    handshake_run_collects(HandshakePhase::AwaitingBoth, local_nonce, arrivals);
}

/// A run continues after its first part from the phase that part reached,
/// and fails as that part failed.
pub proof fn handshake_run_splits(
    phase: HandshakePhase,
    local_nonce: Nonce,
    before: Seq<Arrival>,
    after: Seq<Arrival>,
)
    ensures
        handshake_run(phase, local_nonce, before + after) == match handshake_run(
            phase,
            local_nonce,
            before,
        ) {
            Ok(reached) => handshake_run(reached, local_nonce, after),
            Err(error) => Err(error),
        },
    decreases before.len(),
{
    if before.len() == 0 {
        assert(before + after =~= after);
    } else {
        let first = before[0];
        assert((before + after)[0] == first);
        assert((before + after).drop_first() =~= before.drop_first() + after);
        match handshake_spec(phase, local_nonce, first.event, first.peer_compatible).next {
            Ok(next) => handshake_run_splits(next, local_nonce, before.drop_first(), after),
            Err(_) => {},
        }
    }
}

/// If the deadline passes after a run of acceptable handshake messages that
/// lacks the `Version` or the `VersionAck`, the session ends with
/// `HandshakeTimeout`, whatever arrives later. If the run held both, the
/// deadline comes too late to matter, as long as every send succeeds.
pub proof fn handshake_deadline(local_nonce: Nonce, before: Seq<Arrival>, after: Seq<Arrival>)
    requires
        only_handshake_messages(local_nonce, before),
        after.len() > 0,
        after[0].event == HandshakeEventView::DeadlineElapsed,
        all_sent(after),
    ensures
        handshake_run(HandshakePhase::AwaitingBoth, local_nonce, before + after) == (if has_version(
            local_nonce,
            before,
        ) && has_ack(before) {
            Ok::<HandshakePhase, IndexerError>(HandshakePhase::Handshaked)
        } else {
            Err::<HandshakePhase, IndexerError>(IndexerError::HandshakeTimeout)
        }),
{
    handshake_run_collects(HandshakePhase::AwaitingBoth, local_nonce, before);
    handshake_run_splits(HandshakePhase::AwaitingBoth, local_nonce, before, after);
    if has_version(local_nonce, before) && has_ack(before) {
        handshake_stays_complete(local_nonce, after);
    }
}

/// A completed handshake is not undone by anything that arrives later,
/// as long as every send succeeds.
pub proof fn handshake_stays_complete(local_nonce: Nonce, arrivals: Seq<Arrival>)
    requires
        all_sent(arrivals),
    ensures
        handshake_run(HandshakePhase::Handshaked, local_nonce, arrivals) == Ok::<
            HandshakePhase,
            IndexerError,
        >(HandshakePhase::Handshaked),
    decreases arrivals.len(),
{
    if arrivals.len() > 0 {
        assert(arrivals[0].event != HandshakeEventView::SendFailed);
        assert forall|i: int| 0 <= i < arrivals.drop_first().len() implies (
        #[trigger] arrivals.drop_first()[i]).event != HandshakeEventView::SendFailed by {
            assert(arrivals.drop_first()[i] == arrivals[i + 1]);
        }
        handshake_stays_complete(local_nonce, arrivals.drop_first());
    }
}

/// A `VersionAck` that could not be enqueued ends the session with
/// `HandshakeSendError` in every phase, the completed one included.
pub proof fn failed_send_ends_handshake(
    phase: HandshakePhase,
    local_nonce: Nonce,
    peer_compatible: bool,
)
    ensures
        handshake_spec(phase, local_nonce, HandshakeEventView::SendFailed, peer_compatible)
            == fails_with(IndexerError::HandshakeSendError),
{
}

/// A peer that declares our own nonce is refused with
/// `HandshakeNonceIdentical`, and nothing is sent to it, in every phase
/// before completion.
pub proof fn self_connection_is_refused(
    phase: HandshakePhase,
    local_nonce: Nonce,
    event: HandshakeEventView,
)
    requires
        phase != HandshakePhase::Handshaked,
        event matches HandshakeEventView::Received(MessageView::Version(peer)) && peer.nonce
            == local_nonce,
    ensures
        handshake_spec(phase, local_nonce, event, true) == fails_with(
            IndexerError::HandshakeNonceIdentical,
        ),
        !handshake_spec(phase, local_nonce, event, true).send_ack,
{
}

/// A peer whose version is not compatible is refused with `NotCompatible`
/// and gets no `VersionAck`, in every phase before completion.
pub proof fn incompatible_peer_is_refused(
    phase: HandshakePhase,
    local_nonce: Nonce,
    event: HandshakeEventView,
)
    requires
        phase != HandshakePhase::Handshaked,
        event is Received,
        event->Received_0 is Version,
    ensures
        handshake_spec(phase, local_nonce, event, false).next == Err::<
            HandshakePhase,
            IndexerError,
        >(IndexerError::NotCompatible(event->Received_0->Version_0.version)),
        !handshake_spec(phase, local_nonce, event, false).send_ack,
{
}

} // verus!
