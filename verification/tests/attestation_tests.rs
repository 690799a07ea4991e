use k256::elliptic_curve::rand_core::OsRng;
use k256::schnorr::signature::Verifier;
use k256::schnorr::SigningKey;
use sha2::{Digest, Sha256};

use verifier_server::attestation::{build_canonical_message, sign_attestation, verify_attestation};
use verifier_server::errors::{SessionError, SigningError};
use verifier_server::hexfmt::hex_decode;
use verifier_server::output::{
    Direction, HashAlgId, PlaintextHash, TranscriptCommitment, VerifierOutput,
};

fn sha256_output(name: Option<&str>, value: Vec<u8>) -> VerifierOutput {
    VerifierOutput {
        server_name: name.map(|s| s.to_string()),
        transcript: None,
        transcript_commitments: vec![TranscriptCommitment::Hash(PlaintextHash {
            direction: Direction::Received,
            alg: HashAlgId::Sha256,
            value,
        })],
    }
}

#[test]
fn canonical_message_has_fixed_layout() {
    let commitment: Vec<u8> = vec![0xAA; 32];
    let m = build_canonical_message("sandbox.plaid.com", 1_700_000_000, &commitment);
    assert_eq!(m.len(), 96);
    let mut expected: Vec<u8> = Vec::new();
    expected.extend_from_slice(b"sandbox.plaid.com");
    expected.extend_from_slice(&[0u8; 15]);
    expected.extend_from_slice(&1_700_000_000u64.to_le_bytes());
    expected.extend_from_slice(&[0u8; 24]);
    expected.extend_from_slice(&[0xAA; 32]);
    assert_eq!(m, expected);
}

#[test]
fn long_identity_is_not_padded() {
    let commitment: Vec<u8> = vec![1, 2, 3];
    let name = "a-very-long-name-over-thirty-two-bytes.example";
    let m = build_canonical_message(name, 7, &commitment);
    assert_eq!(m.len(), name.len() + 32 + 3);
}

#[test]
fn signed_attestation_verifies() {
    let key = SigningKey::random(&mut OsRng);
    let out = sha256_output(Some("sandbox.plaid.com"), vec![0xAA; 32]);
    let att = sign_attestation(&out, 1_700_000_000, &key).expect("signing should succeed");
    assert_eq!(att.server_name, "sandbox.plaid.com");
    assert_eq!(att.timestamp, 1_700_000_000);
    assert_eq!(att.balance_commitment, vec![0xAA; 32]);
    assert_eq!(att.verifier_pubkey.len(), 32);
    assert_eq!(att.signature.len(), 134);
    assert!(verify_attestation(&att));
}

#[test]
fn signature_matches_independent_bip340_verification() {
    let key = SigningKey::random(&mut OsRng);
    let out = sha256_output(Some("localhost"), vec![0x11; 32]);
    let att = sign_attestation(&out, 42, &key).expect("signing should succeed");

    let message = build_canonical_message("localhost", 42, &vec![0x11; 32]);
    let digest = Sha256::digest(&message);
    let raw = hex::decode(&att.signature).expect("signature should be hex");
    assert_eq!(raw.len(), 67);
    assert_eq!(&raw[..3], &[0x01, 0x00, 0x00]);
    let sig = k256::schnorr::Signature::try_from(&raw[3..]).expect("signature should parse");
    let vk = k256::schnorr::VerifyingKey::from_bytes(&att.verifier_pubkey)
        .expect("public key should parse");
    vk.verify(&digest, &sig).expect("independent verification should succeed");
}

#[test]
fn mutating_identity_breaks_verification() {
    let key = SigningKey::random(&mut OsRng);
    let out = sha256_output(Some("sandbox.plaid.com"), vec![0xAA; 32]);
    let mut att = sign_attestation(&out, 1_700_000_000, &key).unwrap();
    att.server_name = "sandbox.plaid.con".to_string();
    assert!(!verify_attestation(&att));
}

#[test]
fn mutating_timestamp_breaks_verification() {
    let key = SigningKey::random(&mut OsRng);
    let out = sha256_output(Some("sandbox.plaid.com"), vec![0xAA; 32]);
    let mut att = sign_attestation(&out, 1_700_000_000, &key).unwrap();
    att.timestamp += 1;
    assert!(!verify_attestation(&att));
}

#[test]
fn mutating_commitment_breaks_verification() {
    let key = SigningKey::random(&mut OsRng);
    let out = sha256_output(Some("sandbox.plaid.com"), vec![0xAA; 32]);
    let mut att = sign_attestation(&out, 1_700_000_000, &key).unwrap();
    att.balance_commitment[0] ^= 0x01;
    assert!(!verify_attestation(&att));
}

#[test]
fn tampered_signature_is_rejected() {
    let key = SigningKey::random(&mut OsRng);
    let out = sha256_output(Some("sandbox.plaid.com"), vec![0xAA; 32]);
    let mut att = sign_attestation(&out, 1_700_000_000, &key).unwrap();
    att.signature = format!("ff{}", &att.signature[2..]);
    assert!(!verify_attestation(&att));
    att.signature = "not-hex".to_string();
    assert!(!verify_attestation(&att));
}

#[test]
fn oversized_identity_fails_before_signing() {
    let key = SigningKey::random(&mut OsRng);
    let out = sha256_output(
        Some("this-identity-is-far-longer-than-the-32-byte-field.plaid.com"),
        vec![0xAA; 32],
    );
    match sign_attestation(&out, 1_700_000_000, &key) {
        Err(SessionError::Signing(SigningError::IdentityTooLong)) => {}
        other => panic!("expected identity-too-long, got {other:?}"),
    }
}

#[test]
fn missing_identity_signs_as_unknown() {
    let key = SigningKey::random(&mut OsRng);
    let out = sha256_output(None, vec![0xCC; 32]);
    let att = sign_attestation(&out, 5, &key).unwrap();
    assert_eq!(att.server_name, "unknown");
    assert!(verify_attestation(&att));
}

#[test]
fn signing_is_deterministic_for_equal_inputs() {
    let key = SigningKey::random(&mut OsRng);
    let make = || sha256_output(Some("sandbox.plaid.com"), vec![0xAA; 32]);
    let first = sign_attestation(&make(), 1_700_000_000, &key).unwrap();
    let second = sign_attestation(&make(), 1_700_000_000, &key).unwrap();
    assert_eq!(first.server_name, second.server_name);
    assert_eq!(first.timestamp, second.timestamp);
    assert_eq!(first.balance_commitment, second.balance_commitment);
    assert_eq!(first.signature, second.signature);
    assert_eq!(first.verifier_pubkey, second.verifier_pubkey);
}

#[test]
fn hex_decode_roundtrip_and_rejections() {
    assert_eq!(hex_decode("00ff10"), Some(vec![0x00, 0xFF, 0x10]));
    assert_eq!(hex_decode(""), Some(vec![]));
    assert_eq!(hex_decode("abc"), None);
    assert_eq!(hex_decode("zz"), None);
    assert_eq!(hex_decode("AB"), None);
}
