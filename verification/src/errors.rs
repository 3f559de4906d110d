//! The failure taxonomy of the ingestion pipeline: errors that end a
//! connection attempt, and the ways an established stream terminates.

use vstd::prelude::*;

verus! {

/// A failure that ends a connection attempt before a stream is live.
#[derive(Clone, Copy, PartialEq, Eq, Structural, Debug)]
pub enum IngestError {
    /// The signing secret was missing, empty or malformed.
    InvalidCredential,
    /// The channel to the relay could not be opened.
    TransportUnavailable,
    /// The relay refused the authenticated subscription.
    SubscriptionRejected,
}

/// How an established stream ended.
#[derive(Clone, Copy, PartialEq, Eq, Structural, Debug)]
pub enum Termination {
    /// The far end closed the stream; unexpected but not an error.
    Graceful,
    /// A stream-level error broke the connection.
    Abrupt,
    /// The caller cancelled the loop from outside.
    Cancelled,
}

} // verus!
