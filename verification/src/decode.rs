//! The stream envelope, the normalized event handed to the sink, and the
//! binary decoding of an envelope's payload into the embedded transaction's
//! signatures. The decoder itself is the external fixed binary format; what
//! the event carries for every possible decoder outcome is verified here.

use vstd::prelude::*;

verus! {

/// One unit received from the stream: positional metadata and the opaque
/// bytes of a serialized versioned transaction.
pub struct StreamEnvelope {
    /// The slot the transaction was observed in.
    pub slot: u64,
    /// The transaction's position within the slot's block, when known.
    pub index: Option<u64>,
    /// The serialized transaction.
    pub payload: Vec<u8>,
}

/// The spec-level value of a stream envelope.
pub ghost struct EnvelopeView {
    pub slot: u64,
    pub index: Option<u64>,
    pub payload: Seq<u8>,
}

impl View for StreamEnvelope {
    type V = EnvelopeView;

    open spec fn view(&self) -> EnvelopeView {
        EnvelopeView { slot: self.slot, index: self.index, payload: self.payload@ }
    }
}

/// The normalized event handed to the sink: slot, position, and the first
/// signature of the decoded transaction — `None` is the "no signature"
/// sentinel of a transaction that carries none.
pub struct TxEvent {
    pub slot: u64,
    pub index: Option<u64>,
    pub first_signature: Option<Vec<u8>>,
}

/// The spec-level value of a normalized event.
pub ghost struct TxEventView {
    pub slot: u64,
    pub index: Option<u64>,
    pub first_signature: Option<Seq<u8>>,
}

impl View for TxEvent {
    type V = TxEventView;

    open spec fn view(&self) -> TxEventView {
        TxEventView {
            slot: self.slot,
            index: self.index,
            first_signature: match self.first_signature {
                Some(s) => Some(s@),
                None => None,
            },
        }
    }
}

/// What the fixed binary format decodes a payload to, if anything: the
/// ordered signatures of the embedded versioned transaction, each as its
/// 64 bytes. A function of the payload bytes alone.
pub uninterp spec fn decoded_signatures(payload: Seq<u8>) -> Option<Seq<Seq<u8>>>;

/// Relies on bincode::deserialize of solana_sdk's VersionedTransaction:
/// decoding is a function of the payload bytes alone and fails exactly on
/// bytes that are no valid encoding; the signatures come out in order.
#[verifier::external_body]
fn decode_payload_signatures(payload: &Vec<u8>) -> (r: Option<Vec<Vec<u8>>>)
    ensures
        r is Some <==> decoded_signatures(payload@) is Some,
        r matches Some(sigs) ==> decoded_signatures(payload@) == Some(
            sigs@.map_values(|s: Vec<u8>| s@),
        ),
{
    let tx: solana_sdk::transaction::VersionedTransaction =
        match bincode::deserialize(payload.as_slice()) {
            Ok(tx) => tx,
            Err(_) => return None,
        };
    Some(tx.signatures.iter().map(|sig| sig.as_ref().to_vec()).collect())
}

/// The first signature, or the "no signature" sentinel for a transaction
/// that carries none.
pub open spec fn first_signature_of(sigs: Seq<Seq<u8>>) -> Option<Seq<u8>> {
    if sigs.len() == 0 {
        None
    } else {
        Some(sigs[0])
    }
}

/// The event an envelope yields, if its payload decodes.
pub open spec fn envelope_event(env: EnvelopeView) -> Option<TxEventView> {
    match decoded_signatures(env.payload) {
        Some(sigs) => Some(
            TxEventView {
                slot: env.slot,
                index: env.index,
                first_signature: first_signature_of(sigs),
            },
        ),
        None => None,
    }
}

/// Build the normalized event from a decoded transaction's signatures:
/// the first signature unchanged when there is one, the "no signature"
/// sentinel when the transaction carries none.
pub fn event_from_decoded(slot: u64, index: Option<u64>, sigs: &Vec<Vec<u8>>) -> (e: TxEvent)
    ensures
        e@ == (TxEventView {
            slot,
            index,
            first_signature: first_signature_of(sigs@.map_values(|s: Vec<u8>| s@)),
        }),
{
    let first_signature = if sigs.len() == 0 {
        None
    } else {
        Some(sigs[0].clone())
    };
    TxEvent { slot, index, first_signature }
}

/// Decode an envelope's payload and normalize it: `None` exactly when the
/// payload is no valid encoding; otherwise the event carries the envelope's
/// slot and index and the transaction's first signature or sentinel.
pub fn event_from_envelope(env: &StreamEnvelope) -> (r: Option<TxEvent>)
    ensures
        r is Some <==> envelope_event(env@) is Some,
        r matches Some(e) ==> envelope_event(env@) == Some(e@),
{
    match decode_payload_signatures(&env.payload) {
        Some(sigs) => Some(event_from_decoded(env.slot, env.index, &sigs)),
        None => None,
    }
}

} // verus!
