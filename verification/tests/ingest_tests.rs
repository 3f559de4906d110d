use solana_sdk::message::Message;
use solana_sdk::message::VersionedMessage;
use solana_sdk::signature::Signature;
use solana_sdk::transaction::VersionedTransaction;
use tempo_ingest::decode::StreamEnvelope;
use tempo_ingest::decode::TxEvent;
use tempo_ingest::errors::IngestError;
use tempo_ingest::errors::Termination;
use tempo_ingest::ingest::run_stream;
use tempo_ingest::ingest::session_step;
use tempo_ingest::ingest::SessionEvent;
use tempo_ingest::ingest::SessionState;
use tempo_ingest::ingest::StreamEvent;

fn tx_payload(first_byte: u8) -> Vec<u8> {
    let tx = VersionedTransaction {
        signatures: vec![Signature::from([first_byte; 64])],
        message: VersionedMessage::Legacy(Message::default()),
    };
    bincode::serialize(&tx).expect("serialization of a transaction succeeds")
}

fn envelope(slot: u64, index: Option<u64>, payload: Vec<u8>) -> StreamEvent {
    StreamEvent::Envelope(StreamEnvelope { slot, index, payload })
}

#[test]
fn three_envelopes_then_close_emit_three_events_in_order() {
    let events = vec![
        envelope(1, Some(0), tx_payload(1)),
        envelope(2, Some(1), tx_payload(2)),
        envelope(3, None, tx_payload(3)),
        StreamEvent::Closed,
    ];
    let mut sink: Vec<TxEvent> = Vec::new();
    let t = run_stream(&events, &mut sink);
    assert_eq!(t, Some(Termination::Graceful));
    assert_eq!(sink.len(), 3);
    assert_eq!(sink[0].slot, 1);
    assert_eq!(sink[0].first_signature, Some(vec![1u8; 64]));
    assert_eq!(sink[1].slot, 2);
    assert_eq!(sink[1].first_signature, Some(vec![2u8; 64]));
    assert_eq!(sink[2].slot, 3);
    assert_eq!(sink[2].index, None);
    assert_eq!(sink[2].first_signature, Some(vec![3u8; 64]));
}

#[test]
fn malformed_envelope_is_skipped_and_the_loop_continues() {
    let events = vec![
        envelope(1, None, tx_payload(1)),
        envelope(2, None, vec![0xff, 0x00, 0x33]),
        envelope(3, None, tx_payload(3)),
        StreamEvent::Closed,
    ];
    let mut sink: Vec<TxEvent> = Vec::new();
    let t = run_stream(&events, &mut sink);
    assert_eq!(t, Some(Termination::Graceful));
    assert_eq!(sink.len(), 2);
    assert_eq!(sink[0].slot, 1);
    assert_eq!(sink[1].slot, 3);
}

#[test]
fn stream_error_terminates_abruptly() {
    let events = vec![envelope(1, None, tx_payload(1)), StreamEvent::Failed];
    let mut sink: Vec<TxEvent> = Vec::new();
    let t = run_stream(&events, &mut sink);
    assert_eq!(t, Some(Termination::Abrupt));
    assert_eq!(sink.len(), 1);
}

#[test]
fn cancellation_mid_stream_returns_the_cancellation_signal() {
    let events = vec![
        envelope(1, None, tx_payload(1)),
        StreamEvent::Cancelled,
        envelope(2, None, tx_payload(2)),
    ];
    let mut sink: Vec<TxEvent> = Vec::new();
    let t = run_stream(&events, &mut sink);
    assert_eq!(t, Some(Termination::Cancelled));
    // nothing after the cancellation is processed
    assert_eq!(sink.len(), 1);
}

#[test]
fn exhausted_observations_leave_the_stream_live() {
    let events = vec![envelope(1, None, tx_payload(1))];
    let mut sink: Vec<TxEvent> = Vec::new();
    let t = run_stream(&events, &mut sink);
    assert_eq!(t, None);
    assert_eq!(sink.len(), 1);
}

#[test]
fn rejected_subscription_fails_without_processing_envelopes() {
    let (state, emit) = session_step(SessionState::Connecting, &SessionEvent::SubscribeRejected);
    assert_eq!(state, SessionState::Failed(IngestError::SubscriptionRejected));
    assert!(emit.is_none());
    // the failure is terminal: a late envelope neither changes it nor emits
    let (state2, emit2) = session_step(
        state,
        &SessionEvent::Stream(envelope(1, None, tx_payload(1))),
    );
    assert_eq!(state2, SessionState::Failed(IngestError::SubscriptionRejected));
    assert!(emit2.is_none());
}

#[test]
fn connect_failure_is_distinguished_from_rejection() {
    let (state, emit) = session_step(SessionState::Connecting, &SessionEvent::ConnectFailed);
    assert_eq!(state, SessionState::Failed(IngestError::TransportUnavailable));
    assert!(emit.is_none());
}

#[test]
fn accepted_subscription_starts_streaming_and_emits() {
    let (state, emit) = session_step(SessionState::Connecting, &SessionEvent::SubscribeAccepted);
    assert_eq!(state, SessionState::Streaming);
    assert!(emit.is_none());
    let (state2, emit2) = session_step(
        state,
        &SessionEvent::Stream(envelope(9, Some(4), tx_payload(5))),
    );
    assert_eq!(state2, SessionState::Streaming);
    let e = emit2.expect("a decodable envelope emits an event");
    assert_eq!(e.slot, 9);
    assert_eq!(e.index, Some(4));
    assert_eq!(e.first_signature, Some(vec![5u8; 64]));
}

#[test]
fn cancellation_while_streaming_ends_the_session() {
    let (state, emit) = session_step(
        SessionState::Streaming,
        &SessionEvent::Stream(StreamEvent::Cancelled),
    );
    assert_eq!(state, SessionState::Ended(Termination::Cancelled));
    assert!(emit.is_none());
}

#[test]
fn graceful_close_while_streaming_ends_the_session() {
    let (state, emit) = session_step(
        SessionState::Streaming,
        &SessionEvent::Stream(StreamEvent::Closed),
    );
    assert_eq!(state, SessionState::Ended(Termination::Graceful));
    assert!(emit.is_none());
}
