use solana_sdk::signature::Keypair;
use solana_sdk::signer::Signer;
use tempo_ingest::credential::Credential;
use tempo_ingest::errors::IngestError;

#[test]
fn load_derives_the_keypair_identity() {
    let kp = Keypair::new();
    let cred = Credential::load(&kp.to_base58_string()).expect("valid keypair string loads");
    assert_eq!(cred.public_identity, kp.pubkey().to_string());
}

#[test]
fn load_rejects_empty_secret() {
    assert!(matches!(Credential::load(""), Err(IngestError::InvalidCredential)));
}

#[test]
fn load_rejects_non_base58() {
    assert!(matches!(
        Credential::load("not base58 at all !!!"),
        Err(IngestError::InvalidCredential)
    ));
}

#[test]
fn load_rejects_wrong_length() {
    // valid base58, but only three bytes
    let short = bs58::encode(&[1u8, 2, 3]).into_string();
    assert!(matches!(Credential::load(&short), Err(IngestError::InvalidCredential)));
}

#[test]
fn load_rejects_mismatched_keypair_bytes() {
    let kp = Keypair::new();
    let mut bytes = kp.to_bytes().to_vec();
    // corrupt the public half so it no longer matches the secret half
    bytes[40] = bytes[40].wrapping_add(1);
    let s = bs58::encode(&bytes).into_string();
    assert!(matches!(Credential::load(&s), Err(IngestError::InvalidCredential)));
}

#[test]
fn signing_twice_yields_the_same_signature() {
    let kp = Keypair::new();
    let cred = Credential::load(&kp.to_base58_string()).unwrap();
    let a = cred.sign("relay.example|id|1|2");
    let b = cred.sign("relay.example|id|1|2");
    assert_eq!(a, b);
    assert_eq!(a.len(), 64);
}

#[test]
fn signature_verifies_against_the_identity() {
    let kp = Keypair::new();
    let cred = Credential::load(&kp.to_base58_string()).unwrap();
    let msg = "relay.example|id|42|1700000000";
    let sig = cred.sign(msg);
    assert!(cred.verify(msg, &sig));
}

#[test]
fn verification_fails_for_a_different_message() {
    let kp = Keypair::new();
    let cred = Credential::load(&kp.to_base58_string()).unwrap();
    let sig = cred.sign("relay.example|id|42|1700000000");
    assert!(!cred.verify("relay.example|id|42|1700000001", &sig));
}

#[test]
fn verification_fails_for_a_corrupted_signature() {
    let kp = Keypair::new();
    let cred = Credential::load(&kp.to_base58_string()).unwrap();
    let msg = "relay.example|id|42|1700000000";
    let mut sig = cred.sign(msg);
    sig[0] = sig[0].wrapping_add(1);
    assert!(!cred.verify(msg, &sig));
}

#[test]
fn verification_fails_for_another_identity() {
    let kp1 = Keypair::new();
    let kp2 = Keypair::new();
    let cred1 = Credential::load(&kp1.to_base58_string()).unwrap();
    let cred2 = Credential::load(&kp2.to_base58_string()).unwrap();
    let msg = "relay.example|id|42|1700000000";
    let sig = cred1.sign(msg);
    assert!(!cred2.verify(msg, &sig));
}
