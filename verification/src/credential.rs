//! The signing credential: 32 bytes of secret material and the public
//! identity derived from them. Loading validates the encoded secret; signing
//! and verification go through the ed25519 implementation of the ledger SDK
//! behind trusted wrappers.

use vstd::prelude::*;

use solana_sdk::signer::Signer;

verus! {

use crate::errors::IngestError;
use crate::split::count_sep;

/// What bs58 decodes a base58 string to, if it is valid base58.
pub uninterp spec fn base58_decoded(s: Seq<char>) -> Option<Seq<u8>>;

/// Whether 64 keypair bytes hold a secret key followed by its matching
/// public key.
pub uninterp spec fn keypair_bytes_ok(b: Seq<u8>) -> bool;

/// The base58 public identity derived from 32 secret bytes.
pub uninterp spec fn identity_of(secret: Seq<u8>) -> Seq<char>;

/// The ed25519 signature over a message, by the key derived from 32 secret
/// bytes. RFC 8032 signing is deterministic: the signature is a function of
/// the secret and the message alone.
pub uninterp spec fn signature_of(secret: Seq<u8>, message: Seq<char>) -> Seq<u8>;

/// Whether a signature verifies against a base58 identity and a message.
pub uninterp spec fn sig_verifies(identity: Seq<char>, message: Seq<char>, signature: Seq<u8>) -> bool;

/// Relies on bs58::decode (crate bs58): decoding a base58 string is a
/// function of the string alone; it fails exactly when the string is not
/// valid base58.
#[verifier::external_body]
pub(crate) fn decode_base58(s: &str) -> (r: Option<Vec<u8>>)
    ensures
        r is Some <==> base58_decoded(s@) is Some,
        r matches Some(b) ==> base58_decoded(s@) == Some(b@),
{
    bs58::decode(s).into_vec().ok()
}

/// Relies on solana_sdk's Keypair::try_from for 64 keypair bytes: whether
/// they hold a secret key and its matching public key is a function of the
/// bytes alone.
#[verifier::external_body]
fn keypair_bytes_valid(b: &Vec<u8>) -> (r: bool)
    requires
        b@.len() == 64,
    ensures
        r == keypair_bytes_ok(b@),
{
    solana_sdk::signature::Keypair::try_from(b.as_slice()).is_ok()
}

/// Relies on solana_sdk's Keypair::new_from_array (total on 32 bytes) and
/// Signer::pubkey: the base58 identity derived from a secret is a function
/// of the secret bytes alone; a base58 string of a 32-byte key is non-empty
/// and its alphabet is alphanumeric, so it holds no separator.
#[verifier::external_body]
fn derive_identity(secret: &Vec<u8>) -> (r: String)
    requires
        secret@.len() == 32,
    ensures
        r@ == identity_of(secret@),
        r@.len() > 0,
        count_sep(r@) == 0,
{
    let arr: [u8; 32] = secret.as_slice().try_into().unwrap();
    let kp = solana_sdk::signature::Keypair::new_from_array(arr);
    kp.pubkey().to_string()
}

/// Relies on Signer::sign_message of solana_sdk's Keypair (RFC 8032
/// ed25519, deterministic, infallible for a keypair): the 64-byte signature
/// over the message's UTF-8 bytes is a function of secret and message alone,
/// and verifies against the identity derived from the same secret.
#[verifier::external_body]
fn sign_with_secret(secret: &Vec<u8>, message: &str) -> (r: Vec<u8>)
    requires
        secret@.len() == 32,
    ensures
        r@ == signature_of(secret@, message@),
        r@.len() == 64,
        sig_verifies(identity_of(secret@), message@, r@),
{
    let arr: [u8; 32] = secret.as_slice().try_into().unwrap();
    let kp = solana_sdk::signature::Keypair::new_from_array(arr);
    kp.sign_message(message.as_bytes()).as_ref().to_vec()
}

/// Relies on solana_sdk's Signature::verify and Pubkey's base58 parse: the
/// outcome is a function of identity, message and signature bytes alone;
/// it is false whenever identity or signature do not even parse.
#[verifier::external_body]
fn verify_with_identity(identity: &str, message: &str, signature: &Vec<u8>) -> (r: bool)
    ensures
        r == sig_verifies(identity@, message@, signature@),
{
    let pk: solana_sdk::pubkey::Pubkey = match identity.parse() {
        Ok(p) => p,
        Err(_) => return false,
    };
    let sig = match solana_sdk::signature::Signature::try_from(signature.as_slice()) {
        Ok(s) => s,
        Err(_) => return false,
    };
    sig.verify(pk.as_ref(), message.as_bytes())
}

/// A signing keypair held as plain values: the 32-byte secret material and
/// the public identity derived from it. Immutable once loaded.
pub struct Credential {
    /// The 32-byte secret signing material.
    pub secret: Vec<u8>,
    /// The base58 public identity derived from the secret.
    pub public_identity: String,
}

/// Whether a secret string is a well-formed encoding: valid base58 for
/// exactly 64 bytes that hold a secret key and its matching public key.
pub open spec fn valid_secret_encoding(s: Seq<char>) -> bool {
    match base58_decoded(s) {
        Some(b) => b.len() == 64 && keypair_bytes_ok(b),
        None => false,
    }
}

impl Credential {
    /// The credential's invariant: 32 secret bytes, and the identity is the
    /// one derived from them.
    pub open spec fn wf(self) -> bool {
        &&& self.secret@.len() == 32
        &&& self.public_identity@ == identity_of(self.secret@)
        &&& self.public_identity@.len() > 0
        &&& count_sep(self.public_identity@) == 0
    }

    /// Load a credential from a base58-encoded 64-byte keypair string.
    /// Fails with `InvalidCredential` exactly when the encoding is malformed
    /// (not base58, not 64 bytes — an empty string included — or an
    /// inconsistent keypair).
    pub fn load(secret: &str) -> (r: Result<Credential, IngestError>)
        ensures
            r is Ok <==> valid_secret_encoding(secret@),
            r matches Ok(c) ==> c.wf() && (base58_decoded(secret@) matches Some(b) && c.secret@
                == b.subrange(0, 32)),
            r matches Err(e) ==> e == IngestError::InvalidCredential,
    {
        let bytes = match decode_base58(secret) {
            Some(b) => b,
            None => {
                return Err(IngestError::InvalidCredential);
            },
        };
        if bytes.len() != 64 {
            return Err(IngestError::InvalidCredential);
        }
        if !keypair_bytes_valid(&bytes) {
            return Err(IngestError::InvalidCredential);
        }
        let mut sk: Vec<u8> = Vec::new();
        let mut i: usize = 0;
        while i < 32
            invariant
                0 <= i <= 32,
                bytes@.len() == 64,
                sk@ =~= bytes@.subrange(0, i as int),
            decreases 32 - i,
        {
            sk.push(bytes[i]);
            proof {
                assert(bytes@.subrange(0, i + 1) =~= bytes@.subrange(0, i as int).push(
                    bytes@[i as int],
                ));
            }
            i = i + 1;
        }
        let public_identity = derive_identity(&sk);
        Ok(Credential { secret: sk, public_identity })
    }

    /// Sign the UTF-8 bytes of a message string with this credential.
    ///
    /// Law: signing is deterministic — the signature is a function of the
    /// secret material and the message alone, so signing the same message
    /// twice yields the same bytes — and the signature verifies against
    /// this credential's public identity.
    pub fn sign(&self, message: &str) -> (sig: Vec<u8>)
        requires
            self.wf(),
        ensures
            sig@ == signature_of(self.secret@, message@),
            sig@.len() == 64,
            sig_verifies(self.public_identity@, message@, sig@),
    {
        sign_with_secret(&self.secret, message)
    }

    /// Check a signature over a message against this credential's identity.
    pub fn verify(&self, message: &str, signature: &Vec<u8>) -> (r: bool)
        ensures
            r == sig_verifies(self.public_identity@, message@, signature@),
    {
        verify_with_identity(self.public_identity.as_str(), message, signature)
    }
}

} // verus!
