use indexer_session::coordinator::{
    logic_task_end, on_logic_end, on_transport_end, pump_end, pump_task_end, ActiveConnections, PumpEnd, TaskEnd,
    Verdict,
};
use indexer_session::error::IndexerError;
use indexer_session::handshake::{HandshakeEvent, HandshakePhase, HANDSHAKE_TIMEOUT};
use indexer_session::fee::{FeesBtc, FeesCache};
use indexer_session::message::{Currency, FilterReq, Message, Version, VersionMessage};
use indexer_session::rates::RatesCache;
use indexer_session::serve::ServeStep;
use indexer_session::session::{
    close_serving, deadline, ServingEvent, Session, SessionState, CONNECTION_DROP_TIMEOUT,
};
use indexer_session::utxo::{CoinDecodeError, FilterCoin};

const LOCAL: [u8; 8] = [9; 8];
const PEER: [u8; 8] = [7; 8];

fn peer_version(nonce: [u8; 8]) -> HandshakeEvent {
    HandshakeEvent::Received(Message::Version(VersionMessage {
        version: Version { major: 1, minor: 0, patch: 0 },
        time: 0,
        nonce,
        scan_blocks: vec![],
    }))
}

#[test]
fn deadlines_are_twenty_and_twelve_hundred_seconds() {
    assert_eq!(HANDSHAKE_TIMEOUT, 20);
    assert_eq!(CONNECTION_DROP_TIMEOUT, 1200);
    assert_eq!(deadline(1000, HANDSHAKE_TIMEOUT), 1020);
    assert_eq!(deadline(1000, CONNECTION_DROP_TIMEOUT), 2200);
    assert_eq!(deadline(u64::MAX - 5, 20), u64::MAX);
    assert_eq!(deadline(u64::MAX - 20, 20), u64::MAX);
}

#[test]
fn session_walks_through_handshake_to_serving() {
    let mut s = Session::accept(String::from("10.0.0.1:5000"), LOCAL, 1000);
    assert_eq!(s.state, SessionState::Handshaking(HandshakePhase::AwaitingBoth));
    assert_eq!(s.handshake_deadline, 1020);
    assert_eq!(s.drop_deadline, None);
    assert_eq!(s.peer_nonce, None);
    assert!(!s.on_handshake(&HandshakeEvent::Received(Message::VersionAck), false, 1001));
    assert_eq!(s.state, SessionState::Handshaking(HandshakePhase::GotAck));
    assert!(s.on_handshake(&peer_version(PEER), true, 1005));
    assert_eq!(s.state, SessionState::Serving);
    assert_eq!(s.peer_nonce, Some(PEER));
    assert_eq!(s.drop_deadline, Some(2205));
    assert_eq!(s.addr, "10.0.0.1:5000");
    assert!(!s.is_closed());
    // the handshake takes no further part
    assert!(!s.on_handshake(&peer_version(PEER), true, 1006));
    assert_eq!(s.state, SessionState::Serving);
    assert_eq!(s.drop_deadline, Some(2205));
}

#[test]
fn drop_timeout_closes_without_error() {
    let mut s = Session::accept(String::from("peer"), LOCAL, 0);
    assert!(s.on_handshake(&peer_version(PEER), true, 1));
    assert!(!s.on_handshake(&HandshakeEvent::Received(Message::VersionAck), true, 2));
    assert_eq!(s.drop_deadline, Some(1202));
    s.on_serving(ServingEvent::DropTimeout);
    assert_eq!(s.state, SessionState::Closed(Ok(())));
    assert!(s.is_closed());
    s.on_serving(ServingEvent::RequestsEnded(Err(IndexerError::HandshakeRecv)));
    assert_eq!(s.state, SessionState::Closed(Ok(())));
}

#[test]
fn failed_handshake_closes_the_session_for_good() {
    let mut s = Session::accept(String::from("peer"), LOCAL, 0);
    assert!(!s.on_handshake(&peer_version(LOCAL), true, 1));
    assert_eq!(s.state, SessionState::Closed(Err(IndexerError::HandshakeNonceIdentical)));
    assert_eq!(s.peer_nonce, None);
    assert!(!s.on_handshake(&peer_version(PEER), true, 2));
    assert_eq!(s.state, SessionState::Closed(Err(IndexerError::HandshakeNonceIdentical)));
    // serving events do not reach a session that never served
    let mut t = Session::accept(String::from("peer"), LOCAL, 0);
    t.on_serving(ServingEvent::DropTimeout);
    assert_eq!(t.state, SessionState::Handshaking(HandshakePhase::AwaitingBoth));
    assert!(!t.on_handshake(&HandshakeEvent::DeadlineElapsed, true, 20));
    assert_eq!(t.state, SessionState::Closed(Err(IndexerError::HandshakeTimeout)));
}

#[test]
fn serving_ends_with_the_first_loop_that_ends() {
    let unsupported = IndexerError::NotSupportedCurrency(Currency::Zec);
    assert_eq!(close_serving(ServingEvent::DropTimeout), Ok(()));
    assert_eq!(close_serving(ServingEvent::RequestsEnded(Err(unsupported))), Err(unsupported));
    assert_eq!(close_serving(ServingEvent::AnnounceEnded(Ok(()))), Ok(()));
    assert_eq!(
        close_serving(ServingEvent::AnnounceEnded(Err(IndexerError::HandshakeSendError))),
        Err(IndexerError::HandshakeSendError)
    );
}

#[test]
fn failure_aborts_the_other_side_and_cancellation_does_not() {
    let pull = Verdict { abort_other: true, report_failure: true };
    let leave = Verdict { abort_other: false, report_failure: false };
    let close = Verdict { abort_other: true, report_failure: false };
    assert_eq!(on_logic_end(TaskEnd::Failed), pull);
    assert_eq!(on_logic_end(TaskEnd::Aborted), leave);
    // a session that ended without an error still has its socket closed
    assert_eq!(on_logic_end(TaskEnd::Finished), close);
    assert_eq!(on_transport_end(TaskEnd::Failed), pull);
    assert_eq!(on_transport_end(TaskEnd::Aborted), leave);
    assert_eq!(on_transport_end(TaskEnd::Finished), leave);
}

#[test]
fn pump_reports_its_first_failure() {
    assert_eq!(pump_end(false, true, true), PumpEnd::Done);
    assert_eq!(pump_end(true, true, true), PumpEnd::ReadFailed);
    assert_eq!(pump_end(true, false, false), PumpEnd::ReadFailed);
    assert_eq!(pump_end(false, false, true), PumpEnd::WriteFailed);
    assert_eq!(pump_end(false, false, false), PumpEnd::WriteFailed);
    assert_eq!(pump_end(false, true, false), PumpEnd::ForwardFailed);
    assert_eq!(pump_task_end(PumpEnd::Done), TaskEnd::Finished);
    assert_eq!(pump_task_end(PumpEnd::ReadFailed), TaskEnd::Failed);
    assert_eq!(pump_task_end(PumpEnd::WriteFailed), TaskEnd::Failed);
    assert_eq!(pump_task_end(PumpEnd::ForwardFailed), TaskEnd::Failed);
}

#[test]
fn gauge_returns_to_where_it_was() {
    let mut g = ActiveConnections { count: 3 };
    g.opened();
    assert_eq!(g.count, 4);
    g.opened();
    g.closed();
    g.closed();
    assert_eq!(g, ActiveConnections { count: 3 });
    let mut z = ActiveConnections { count: 0 };
    z.opened();
    z.closed();
    assert_eq!(z.count, 0);
}

#[test]
fn coin_keeps_the_script_of_its_output() {
    let outputs = vec![vec![0x51], vec![0x76, 0xA9, 0x14], vec![]];
    assert_eq!(FilterCoin::new_utxo(100, &outputs, 1).script, vec![0x76, 0xA9, 0x14]);
    assert_eq!(FilterCoin::new_utxo(0, &outputs, 0).script, vec![0x51]);
    assert_eq!(FilterCoin::new_utxo(0, &outputs, 2).script, Vec::<u8>::new());
}

#[test]
fn coin_encodes_as_length_then_script() {
    let coin = FilterCoin { script: vec![0x76, 0xA9, 0x14] };
    assert_eq!(coin.consensus_encode(), vec![0x03, 0x76, 0xA9, 0x14]);
    assert_eq!(FilterCoin { script: vec![] }.consensus_encode(), vec![0x00]);
    let long = FilterCoin { script: vec![0xAB; 300] };
    let bytes = long.consensus_encode();
    assert_eq!(bytes.len(), 303);
    assert_eq!(&bytes[..3], &[0xFD, 0x2C, 0x01]);
    assert!(bytes[3..].iter().all(|b| *b == 0xAB));
    let edge = FilterCoin { script: vec![1; 0xFC] }.consensus_encode();
    assert_eq!(edge.len(), 0xFD);
    assert_eq!(edge[0], 0xFC);
    let edge = FilterCoin { script: vec![1; 0xFD] }.consensus_encode();
    assert_eq!(&edge[..3], &[0xFD, 0xFD, 0x00]);
}

#[test]
fn coin_decodes_from_the_front() {
    let bytes = vec![0x02, 0x51, 0x52, 0xFF, 0xFF];
    assert_eq!(
        FilterCoin::consensus_decode(&bytes),
        Ok((FilterCoin { script: vec![0x51, 0x52] }, 3))
    );
    let coin = FilterCoin { script: vec![0x33; 400] };
    assert_eq!(FilterCoin::consensus_decode(&coin.consensus_encode()), Ok((coin, 403)));
    assert_eq!(FilterCoin::consensus_decode(&vec![]), Err(CoinDecodeError));
    assert_eq!(FilterCoin::consensus_decode(&vec![0x05, 1, 2]), Err(CoinDecodeError));
}

fn caches() -> (FeesCache, RatesCache) {
    (
        FeesCache { btc: FeesBtc { fastest_fee: 3, half_hour_fee: 2, hour_fee: 1 } },
        RatesCache { entries: vec![] },
    )
}

#[test]
fn started_session_remembers_the_nonce_it_sent() {
    let current = Version { major: 3, minor: 0, patch: 1 };
    let (s, intro) = Session::start(String::from("peer"), current, 500, 40, 41);
    assert_eq!(s.state, SessionState::Handshaking(HandshakePhase::AwaitingBoth));
    assert_eq!(s.handshake_deadline, 520);
    assert_eq!(s.drop_deadline, None);
    match intro {
        Message::Version(v) => {
            assert_eq!(v.nonce, s.local_nonce);
            assert_eq!(v.version, current);
            assert_eq!(v.time, 500);
            assert_eq!(v.scan_blocks.len(), 1);
            assert_eq!(v.scan_blocks[0].scan_height, 40);
            assert_eq!(v.scan_blocks[0].height, 41);
            // the peer echoing this very message is a connection to ourselves
            let mut s = s;
            assert!(!s.on_handshake(&HandshakeEvent::Received(Message::Version(v)), true, 501));
            assert_eq!(s.state, SessionState::Closed(Err(IndexerError::HandshakeNonceIdentical)));
        }
        other => panic!("not a version message: {:?}", other),
    }
}

#[test]
fn only_a_serving_session_answers() {
    let (fees, rates) = caches();
    let ping = Message::Ping([5; 8]);
    let mut s = Session::accept(String::from("peer"), LOCAL, 0);
    assert_eq!(s.on_request(&ping, 10, &fees, &rates), ServeStep::Ignore);
    assert!(s.on_handshake(&peer_version(PEER), true, 1));
    assert_eq!(s.on_request(&ping, 10, &fees, &rates), ServeStep::Ignore);
    assert!(!s.on_handshake(&HandshakeEvent::Received(Message::VersionAck), true, 2));
    assert_eq!(s.on_request(&ping, 10, &fees, &rates), ServeStep::Reply(Message::Pong([5; 8])));
    assert_eq!(s.state, SessionState::Serving);
    let bad = Message::GetFilters(FilterReq { currency: Currency::Dash, start: 0, amount: 1 });
    match s.on_request(&bad, 10, &fees, &rates) {
        ServeStep::Close { error, .. } => {
            assert_eq!(error, IndexerError::NotSupportedCurrency(Currency::Dash))
        }
        other => panic!("not closed: {:?}", other),
    }
    assert_eq!(
        s.state,
        SessionState::Closed(Err(IndexerError::NotSupportedCurrency(Currency::Dash)))
    );
    assert_eq!(s.on_request(&ping, 10, &fees, &rates), ServeStep::Ignore);
}

#[test]
fn coin_decoding_refuses_malformed_lengths() {
    // a length below 0xFD written in three bytes
    assert_eq!(FilterCoin::consensus_decode(&vec![0xFD, 0x01, 0x00, 0x51]), Err(CoinDecodeError));
    // a length below 0x10000 written in five bytes
    assert_eq!(
        FilterCoin::consensus_decode(&vec![0xFE, 0x01, 0x00, 0x00, 0x00, 0x51]),
        Err(CoinDecodeError)
    );
    // a length of 4_000_001
    assert_eq!(
        FilterCoin::consensus_decode(&vec![0xFE, 0x01, 0x09, 0x3D, 0x00, 0x51]),
        Err(CoinDecodeError)
    );
    // the marker without its bytes
    assert_eq!(FilterCoin::consensus_decode(&vec![0xFD, 0xFD]), Err(CoinDecodeError));
    assert_eq!(FilterCoin::consensus_decode(&vec![0xFF, 0, 0, 0, 0, 1, 0, 0]), Err(CoinDecodeError));
    // the shortest three-byte form
    let mut bytes = vec![0xFD, 0xFD, 0x00];
    bytes.extend(vec![7u8; 0xFD]);
    bytes.push(9);
    assert_eq!(
        FilterCoin::consensus_decode(&bytes),
        Ok((FilterCoin { script: vec![7u8; 0xFD] }, 0x100))
    );
    assert_eq!(FilterCoin::consensus_decode(&vec![0x00]), Ok((FilterCoin { script: vec![] }, 1)));
}

#[test]
fn timeout_closes_the_socket_without_a_failure() {
    let end = logic_task_end(close_serving(ServingEvent::DropTimeout));
    assert_eq!(end, TaskEnd::Finished);
    assert_eq!(on_logic_end(end), Verdict { abort_other: true, report_failure: false });
    let failed = logic_task_end(Err(IndexerError::HandshakeTimeout));
    assert_eq!(failed, TaskEnd::Failed);
    assert_eq!(on_logic_end(failed), Verdict { abort_other: true, report_failure: true });
    // the socket task, cancelled by that close, pulls nothing in turn
    assert_eq!(
        on_transport_end(TaskEnd::Aborted),
        Verdict { abort_other: false, report_failure: false }
    );
}

#[test]
fn failed_ack_ends_the_session_even_when_it_completed_the_handshake() {
    let mut s = Session::accept(String::from("peer"), LOCAL, 0);
    assert!(!s.on_handshake(&HandshakeEvent::Received(Message::VersionAck), true, 1));
    assert!(s.on_handshake(&peer_version(PEER), true, 2));
    assert_eq!(s.state, SessionState::Serving);
    s.on_send_failed();
    assert_eq!(s.state, SessionState::Closed(Err(IndexerError::HandshakeSendError)));
    // the same through the event
    let mut t = Session::accept(String::from("peer"), LOCAL, 0);
    assert!(!t.on_handshake(&HandshakeEvent::Received(Message::VersionAck), true, 1));
    assert!(t.on_handshake(&peer_version(PEER), true, 2));
    assert!(!t.on_handshake(&HandshakeEvent::SendFailed, true, 3));
    assert_eq!(t.state, SessionState::Closed(Err(IndexerError::HandshakeSendError)));
    // before completion
    let mut u = Session::accept(String::from("peer"), LOCAL, 0);
    assert!(u.on_handshake(&peer_version(PEER), true, 1));
    u.on_send_failed();
    assert_eq!(u.state, SessionState::Closed(Err(IndexerError::HandshakeSendError)));
    // a session that has ended keeps its result
    let mut v = Session::accept(String::from("peer"), LOCAL, 0);
    assert!(!v.on_handshake(&HandshakeEvent::DeadlineElapsed, true, 20));
    v.on_send_failed();
    assert_eq!(v.state, SessionState::Closed(Err(IndexerError::HandshakeTimeout)));
}

#[test]
fn coin_decoding_refuses_nine_byte_lengths() {
    let bytes = vec![0xFF, 0x01, 0x00, 0x00, 0x00, 0x01, 0x00, 0x00, 0x00, 0x42];
    assert_eq!(FilterCoin::consensus_decode(&bytes), Err(CoinDecodeError));
    assert_eq!(FilterCoin::consensus_decode(&vec![0xFF]), Err(CoinDecodeError));
    assert_eq!(
        FilterCoin::consensus_decode(&vec![0xFF, 1, 0, 0, 0, 0, 0, 0, 0, 0x42]),
        Err(CoinDecodeError)
    );
}
