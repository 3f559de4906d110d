//! Assembly of the signed subscription request for one connection attempt:
//! a fresh nonce, the wall-clock timestamp, the canonical challenge string,
//! the signature over it, and the account filter.

use vstd::prelude::*;

verus! {

use vstd::string::StringExecFns;
use crate::auth::format_spec;
use crate::auth::AuthMessage;
use crate::credential::decode_base58;
use crate::credential::base58_decoded;
use crate::credential::sig_verifies;
use crate::credential::signature_of;
use crate::credential::valid_secret_encoding;
use crate::credential::Credential;
use crate::errors::IngestError;
use crate::split::count_sep;

/// Relies on rand::random (the thread-local CSPRNG) for the single-use
/// nonce; nothing is assumed of the value.
#[verifier::external_body]
fn fresh_nonce() -> u64 {
    rand::random()
}

/// Relies on std::time::SystemTime::now for the wall clock; the reading is
/// converted to whole seconds since the epoch. Nothing is assumed of the
/// value.
#[verifier::external_body]
fn unix_time_seconds() -> u64 {
    match std::time::SystemTime::now().duration_since(std::time::UNIX_EPOCH) {
        Ok(d) => d.as_secs(),
        Err(_) => 0,
    }
}

/// A signed authentication handshake: the message, its canonical string,
/// and the signature over that string.
pub struct SignedAuth {
    pub message: AuthMessage,
    pub encoded: String,
    pub signature: Vec<u8>,
}

impl SignedAuth {
    /// The handshake belongs to this credential and domain: the string is
    /// the canonical challenge, exactly signed, and the signature verifies
    /// against the credential's identity.
    pub open spec fn wf_for(self, cred: Credential, domain: Seq<char>) -> bool {
        &&& self.message.domain@ == domain
        &&& self.message.public_identity@ == cred.public_identity@
        &&& self.encoded@ == format_spec(
            domain,
            cred.public_identity@,
            self.message.nonce,
            self.message.timestamp,
        )
        &&& self.signature@ == signature_of(cred.secret@, self.encoded@)
        &&& sig_verifies(cred.public_identity@, self.encoded@, self.signature@)
    }
}

/// Build and sign the challenge for the given nonce and timestamp: the four
/// fields joined in fixed order, nothing before, between or after them,
/// signed with the credential's secret.
pub fn build_auth(cred: &Credential, domain: &str, nonce: u64, timestamp: u64) -> (r: SignedAuth)
    requires
        cred.wf(),
        count_sep(domain@) == 0,
    ensures
        r.wf_for(*cred, domain@),
        r.message.nonce == nonce,
        r.message.timestamp == timestamp,
        r.message.wf(),
{
    let message = AuthMessage {
        domain: String::from_str(domain),
        public_identity: cred.public_identity.clone(),
        nonce,
        timestamp,
    };
    let encoded = message.format();
    let signature = cred.sign(encoded.as_str());
    SignedAuth { message, encoded, signature }
}

/// The one request sent to open a stream: identity, challenge string,
/// signature, and the account filter — empty means "all accounts".
pub struct SubscriptionRequest {
    pub public_identity: String,
    pub auth_message: String,
    pub auth_signature: Vec<u8>,
    pub account_filter: Vec<Vec<u8>>,
}

/// The request belongs to this credential, domain and filter: its challenge
/// string is canonical for some nonce and timestamp, exactly signed, and
/// verifiable against the advertised identity.
pub open spec fn request_wf_for(
    req: SubscriptionRequest,
    cred: Credential,
    domain: Seq<char>,
    filter: Seq<Seq<u8>>,
) -> bool {
    &&& req.public_identity@ == cred.public_identity@
    &&& exists|n: u64, t: u64|
        req.auth_message@ == format_spec(domain, cred.public_identity@, n, t)
    &&& req.auth_signature@ == signature_of(cred.secret@, req.auth_message@)
    &&& sig_verifies(cred.public_identity@, req.auth_message@, req.auth_signature@)
    &&& req.account_filter@.map_values(|a: Vec<u8>| a@) == filter
}

/// Build the subscription request for one connection attempt: a freshly
/// generated nonce, the current wall-clock time, and the signed challenge.
pub fn build_request(cred: &Credential, domain: &str, account_filter: Vec<Vec<u8>>) -> (r:
    SubscriptionRequest)
    requires
        cred.wf(),
        count_sep(domain@) == 0,
    ensures
        request_wf_for(r, *cred, domain@, account_filter@.map_values(|a: Vec<u8>| a@)),
{
    let nonce = fresh_nonce();
    let timestamp = unix_time_seconds();
    let auth = build_auth(cred, domain, nonce, timestamp);
    let r = SubscriptionRequest {
        public_identity: auth.message.public_identity,
        auth_message: auth.encoded,
        auth_signature: auth.signature,
        account_filter,
    };
    proof {
        assert(r.auth_message@ == format_spec(domain@, cred.public_identity@, nonce, timestamp));
    }
    r
}

/// One connection attempt's request, from the raw secret string: load and
/// validate the credential, then build the signed request. Fails with
/// `InvalidCredential` exactly when the secret encoding is malformed.
pub fn prepare_subscription(secret: &str, domain: &str, account_filter: Vec<Vec<u8>>) -> (r:
    Result<(Credential, SubscriptionRequest), IngestError>)
    requires
        count_sep(domain@) == 0,
    ensures
        r is Ok <==> valid_secret_encoding(secret@),
        r matches Ok(p) ==> p.0.wf() && request_wf_for(
            p.1,
            p.0,
            domain@,
            account_filter@.map_values(|a: Vec<u8>| a@),
        ),
        r matches Err(e) ==> e == IngestError::InvalidCredential,
{
    let cred = match Credential::load(secret) {
        Ok(c) => c,
        Err(e) => {
            return Err(e);
        },
    };
    let req = build_request(&cred, domain, account_filter);
    Ok((cred, req))
}

/// Decode a base58 account identifier for the filter: accepted exactly when
/// it is valid base58 for 32 bytes.
pub fn decode_account_id(s: &str) -> (r: Option<Vec<u8>>)
    ensures
        match r {
            Some(b) => base58_decoded(s@) == Some(b@) && b@.len() == 32,
            None => base58_decoded(s@) is None || (base58_decoded(s@) matches Some(b) && b.len()
                != 32),
        },
{
    match decode_base58(s) {
        Some(b) => {
            if b.len() == 32 {
                Some(b)
            } else {
                None
            }
        },
        None => None,
    }
}

} // verus!
