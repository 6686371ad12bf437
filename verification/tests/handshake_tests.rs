use indexer_session::error::IndexerError;
use indexer_session::handshake::{
    handshake_step, run_handshake, Arrived, HandshakeEvent, HandshakePhase, HandshakeStep,
};
use indexer_session::message::{nonce_eq, Currency, FilterReq, Message, Version, VersionMessage};
use indexer_session::version::{build_version_message, version_message_with};

const LOCAL: [u8; 8] = [1, 2, 3, 4, 5, 6, 7, 8];
const PEER: [u8; 8] = [8, 7, 6, 5, 4, 3, 2, 1];

fn peer_version(nonce: [u8; 8]) -> HandshakeEvent {
    HandshakeEvent::Received(Message::Version(VersionMessage {
        version: Version { major: 1, minor: 2, patch: 3 },
        time: 1_600_000_000,
        nonce,
        scan_blocks: vec![],
    }))
}

fn ack() -> HandshakeEvent {
    HandshakeEvent::Received(Message::VersionAck)
}

fn run(events: &[HandshakeEvent]) -> (Result<HandshakePhase, IndexerError>, usize) {
    let mut phase = HandshakePhase::AwaitingBoth;
    let mut acks = 0;
    for e in events {
        let step = handshake_step(phase, &LOCAL, e, true);
        if step.send_ack {
            acks += 1;
        }
        match step.next {
            Ok(p) => phase = p,
            Err(e) => return (Err(e), acks),
        }
    }
    (Ok(phase), acks)
}

#[test]
fn version_then_ack_completes() {
    assert_eq!(run(&[peer_version(PEER), ack()]), (Ok(HandshakePhase::Handshaked), 1));
}

#[test]
fn ack_then_version_completes() {
    assert_eq!(run(&[ack(), peer_version(PEER)]), (Ok(HandshakePhase::Handshaked), 1));
}

#[test]
fn one_message_alone_does_not_complete() {
    assert_eq!(run(&[peer_version(PEER)]), (Ok(HandshakePhase::GotVersion), 1));
    assert_eq!(run(&[ack()]), (Ok(HandshakePhase::GotAck), 0));
    assert_eq!(run(&[ack(), ack()]), (Ok(HandshakePhase::GotAck), 0));
    assert_eq!(run(&[]), (Ok(HandshakePhase::AwaitingBoth), 0));
}

#[test]
fn version_is_acknowledged_at_once() {
    let step = handshake_step(HandshakePhase::AwaitingBoth, &LOCAL, &peer_version(PEER), true);
    assert_eq!(step, HandshakeStep { next: Ok(HandshakePhase::GotVersion), send_ack: true });
    let step = handshake_step(HandshakePhase::GotAck, &LOCAL, &peer_version(PEER), true);
    assert_eq!(step, HandshakeStep { next: Ok(HandshakePhase::Handshaked), send_ack: true });
}

#[test]
fn own_nonce_is_a_self_connection() {
    for phase in [HandshakePhase::AwaitingBoth, HandshakePhase::GotAck, HandshakePhase::GotVersion] {
        let step = handshake_step(phase, &LOCAL, &peer_version(LOCAL), true);
        assert_eq!(
            step,
            HandshakeStep { next: Err(IndexerError::HandshakeNonceIdentical), send_ack: false }
        );
    }
}

#[test]
fn incompatible_version_is_refused_without_ack() {
    let step = handshake_step(HandshakePhase::AwaitingBoth, &LOCAL, &peer_version(PEER), false);
    assert_eq!(
        step,
        HandshakeStep {
            next: Err(IndexerError::NotCompatible(Version { major: 1, minor: 2, patch: 3 })),
            send_ack: false
        }
    );
    // incompatibility is found before the nonce is looked at
    let step = handshake_step(HandshakePhase::GotAck, &LOCAL, &peer_version(LOCAL), false);
    assert_eq!(
        step.next,
        Err(IndexerError::NotCompatible(Version { major: 1, minor: 2, patch: 3 }))
    );
    assert!(!step.send_ack);
}

#[test]
fn other_message_violates_the_handshake() {
    let ping = HandshakeEvent::Received(Message::Ping(PEER));
    assert_eq!(run(&[ack(), ping]), (Err(IndexerError::HandshakeViolation), 0));
    let req = HandshakeEvent::Received(Message::GetFilters(FilterReq {
        currency: Currency::Btc,
        start: 0,
        amount: 1,
    }));
    assert_eq!(run(&[peer_version(PEER), req]), (Err(IndexerError::HandshakeViolation), 1));
}

#[test]
fn deadline_before_both_is_a_timeout() {
    assert_eq!(run(&[HandshakeEvent::DeadlineElapsed]), (Err(IndexerError::HandshakeTimeout), 0));
    assert_eq!(
        run(&[peer_version(PEER), HandshakeEvent::DeadlineElapsed, ack()]),
        (Err(IndexerError::HandshakeTimeout), 1)
    );
}

#[test]
fn deadline_after_completion_changes_nothing() {
    assert_eq!(
        run(&[ack(), peer_version(PEER), HandshakeEvent::DeadlineElapsed]),
        (Ok(HandshakePhase::Handshaked), 1)
    );
}

#[test]
fn closed_channel_and_failed_send_end_the_handshake() {
    assert_eq!(run(&[ack(), HandshakeEvent::ChannelClosed]), (Err(IndexerError::HandshakeRecv), 0));
    assert_eq!(
        run(&[peer_version(PEER), HandshakeEvent::SendFailed]),
        (Err(IndexerError::HandshakeSendError), 1)
    );
}

#[test]
fn phases_record_what_was_seen() {
    assert_eq!(HandshakePhase::AwaitingBoth.with_version(), HandshakePhase::GotVersion);
    assert_eq!(HandshakePhase::AwaitingBoth.with_ack(), HandshakePhase::GotAck);
    assert_eq!(HandshakePhase::GotVersion.with_ack(), HandshakePhase::Handshaked);
    assert_eq!(HandshakePhase::GotAck.with_version(), HandshakePhase::Handshaked);
    assert_eq!(HandshakePhase::GotVersion.with_version(), HandshakePhase::GotVersion);
    assert!(HandshakePhase::Handshaked.is_complete());
    assert!(!HandshakePhase::GotAck.is_complete());
}

#[test]
fn nonces_compare_by_bytes() {
    assert!(nonce_eq(&LOCAL, &[1, 2, 3, 4, 5, 6, 7, 8]));
    assert!(!nonce_eq(&LOCAL, &PEER));
    assert!(!nonce_eq(&LOCAL, &[1, 2, 3, 4, 5, 6, 7, 9]));
}

#[test]
fn version_message_holds_one_bitcoin_entry() {
    let current = Version { major: 2, minor: 1, patch: 0 };
    let msg = version_message_with(current, 1_700_000_000, PEER, 700_000, 700_010);
    assert_eq!(msg.version, current);
    assert_eq!(msg.time, 1_700_000_000);
    assert_eq!(msg.nonce, PEER);
    assert_eq!(msg.scan_blocks.len(), 1);
    assert_eq!(msg.scan_blocks[0].currency, Currency::Btc);
    assert_eq!(msg.scan_blocks[0].version, Version { major: 1, minor: 0, patch: 0 });
    assert_eq!(msg.scan_blocks[0].scan_height, 700_000);
    assert_eq!(msg.scan_blocks[0].height, 700_010);
    assert_eq!(Message::Version(msg).id(), indexer_session::message::MessageKind::Version);
}

#[test]
fn built_version_message_draws_its_nonce() {
    let current = Version { major: 2, minor: 1, patch: 0 };
    let a = build_version_message(current, 5, 10, 11);
    assert_eq!(a, version_message_with(current, 5, a.nonce, 10, 11));
    let mut all_same = true;
    for _ in 0..8 {
        if build_version_message(current, 5, 10, 11).nonce != a.nonce {
            all_same = false;
        }
    }
    assert!(!all_same);
}

fn arrived(event: HandshakeEvent, peer_compatible: bool) -> Arrived {
    Arrived { event, peer_compatible }
}

#[test]
fn handshake_over_events_in_memory() {
    let both = vec![arrived(ack(), true), arrived(peer_version(PEER), true)];
    assert_eq!(run_handshake(&LOCAL, &both), (Ok(HandshakePhase::Handshaked), 1));
    let swapped = vec![arrived(peer_version(PEER), true), arrived(ack(), false)];
    assert_eq!(run_handshake(&LOCAL, &swapped), (Ok(HandshakePhase::Handshaked), 1));
    let twice = vec![
        arrived(peer_version(PEER), true),
        arrived(peer_version(PEER), true),
        arrived(ack(), true),
        arrived(HandshakeEvent::ChannelClosed, true),
    ];
    assert_eq!(run_handshake(&LOCAL, &twice), (Ok(HandshakePhase::Handshaked), 2));
    let late = vec![
        arrived(peer_version(PEER), true),
        arrived(HandshakeEvent::DeadlineElapsed, true),
        arrived(ack(), true),
    ];
    assert_eq!(run_handshake(&LOCAL, &late), (Err(IndexerError::HandshakeTimeout), 1));
    let refused = vec![arrived(ack(), true), arrived(peer_version(PEER), false)];
    assert_eq!(
        run_handshake(&LOCAL, &refused),
        (Err(IndexerError::NotCompatible(Version { major: 1, minor: 2, patch: 3 })), 0)
    );
    let own = vec![arrived(peer_version(LOCAL), true), arrived(ack(), true)];
    assert_eq!(run_handshake(&LOCAL, &own), (Err(IndexerError::HandshakeNonceIdentical), 0));
    assert_eq!(run_handshake(&LOCAL, &vec![]), (Ok(HandshakePhase::AwaitingBoth), 0));
}

#[test]
fn failed_send_ends_a_completed_handshake_too() {
    assert_eq!(
        run(&[ack(), peer_version(PEER), HandshakeEvent::SendFailed]),
        (Err(IndexerError::HandshakeSendError), 1)
    );
    let step = handshake_step(HandshakePhase::Handshaked, &LOCAL, &HandshakeEvent::SendFailed, true);
    assert_eq!(step, HandshakeStep { next: Err(IndexerError::HandshakeSendError), send_ack: false });
    // nothing else undoes a completed handshake
    for e in [HandshakeEvent::ChannelClosed, HandshakeEvent::DeadlineElapsed, ack()] {
        let step = handshake_step(HandshakePhase::Handshaked, &LOCAL, &e, true);
        assert_eq!(step, HandshakeStep { next: Ok(HandshakePhase::Handshaked), send_ack: false });
    }
}
