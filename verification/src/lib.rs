//! Verified core of an authenticated streaming ingestion pipeline.
//!
//! The library covers the logic of a client that subscribes to a relay's
//! transaction stream: building and signing the authentication handshake,
//! resolving a region to a relay endpoint, assembling the subscription
//! request, decoding each received payload, and the state machine that
//! classifies stream outcomes. Network transport itself is left to the
//! caller, which feeds the loop with the events it observed.

pub mod errors;
pub mod digits;
pub mod split;
pub mod endpoint;
pub mod auth;
pub mod credential;
pub mod decode;
pub mod ingest;
pub mod request;
