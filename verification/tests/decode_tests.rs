use solana_sdk::message::Message;
use solana_sdk::message::VersionedMessage;
use solana_sdk::signature::Signature;
use solana_sdk::transaction::VersionedTransaction;
use tempo_ingest::decode::event_from_envelope;
use tempo_ingest::decode::StreamEnvelope;

fn tx_payload(sig_bytes: Vec<[u8; 64]>) -> Vec<u8> {
    let tx = VersionedTransaction {
        signatures: sig_bytes.into_iter().map(Signature::from).collect(),
        message: VersionedMessage::Legacy(Message::default()),
    };
    bincode::serialize(&tx).expect("serialization of a transaction succeeds")
}

#[test]
fn decode_exposes_first_signature_unchanged() {
    let payload = tx_payload(vec![[7u8; 64], [9u8; 64]]);
    let env = StreamEnvelope { slot: 5, index: Some(2), payload };
    let e = event_from_envelope(&env).expect("valid payload decodes");
    assert_eq!(e.slot, 5);
    assert_eq!(e.index, Some(2));
    assert_eq!(e.first_signature, Some(vec![7u8; 64]));
}

#[test]
fn decode_without_signatures_yields_sentinel() {
    let payload = tx_payload(vec![]);
    let env = StreamEnvelope { slot: 11, index: None, payload };
    let e = event_from_envelope(&env).expect("valid payload decodes");
    assert_eq!(e.slot, 11);
    assert_eq!(e.index, None);
    assert_eq!(e.first_signature, None);
}

#[test]
fn truncated_payload_fails_to_decode() {
    let mut payload = tx_payload(vec![[7u8; 64]]);
    payload.truncate(10);
    let env = StreamEnvelope { slot: 1, index: None, payload };
    assert!(event_from_envelope(&env).is_none());
}

#[test]
fn garbage_payload_fails_to_decode() {
    let env = StreamEnvelope { slot: 1, index: None, payload: vec![0xffu8; 3] };
    assert!(event_from_envelope(&env).is_none());
}
