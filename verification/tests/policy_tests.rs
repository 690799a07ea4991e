use verifier_server::errors::PolicyViolation;
use verifier_server::output::{
    Direction, HashAlgId, PartialTranscript, PlaintextHash, TranscriptCommitment, VerifierOutput,
};
use verifier_server::policy::{
    analyze_commitments, extract_balance_commitment, identity_bytes_approved, reveals_transcript,
    validate_plaid_connection,
};

fn hash_commitment(alg: HashAlgId, value: Vec<u8>) -> TranscriptCommitment {
    TranscriptCommitment::Hash(PlaintextHash {
        direction: Direction::Received,
        alg,
        value,
    })
}

fn output_with(name: Option<&str>, commitments: Vec<TranscriptCommitment>) -> VerifierOutput {
    VerifierOutput {
        server_name: name.map(|s| s.to_string()),
        transcript: None,
        transcript_commitments: commitments,
    }
}

#[test]
fn approved_identities_pass_identity_step() {
    for name in [
        "production.plaid.com",
        "sandbox.plaid.com",
        "development.plaid.com",
        "api.plaid.com",
        "localhost",
        "127.0.0.1",
    ] {
        assert!(identity_bytes_approved(name.as_bytes()), "{name}");
    }
}

#[test]
fn other_identities_fail_identity_step() {
    for name in [
        "evil.example.com",
        "plaid.com",
        "plaid.com.evil.net",
        "notplaid.com",
        "",
        "localhost2",
    ] {
        assert!(!identity_bytes_approved(name.as_bytes()), "{name}");
    }
}

#[test]
fn validation_rejects_unapproved_identity() {
    let out = output_with(
        Some("evil.example.com"),
        vec![hash_commitment(HashAlgId::Sha256, vec![0xAA; 32])],
    );
    assert_eq!(
        validate_plaid_connection(&out),
        Err(PolicyViolation::BadIdentity)
    );
    assert_eq!(
        PolicyViolation::BadIdentity.code(),
        "bad-identity"
    );
}

#[test]
fn validation_rejects_missing_identity() {
    let out = output_with(None, vec![hash_commitment(HashAlgId::Sha256, vec![1; 32])]);
    assert_eq!(
        validate_plaid_connection(&out),
        Err(PolicyViolation::BadIdentity)
    );
}

#[test]
fn validation_rejects_empty_commitments() {
    let out = output_with(Some("sandbox.plaid.com"), vec![]);
    assert_eq!(
        validate_plaid_connection(&out),
        Err(PolicyViolation::NoCommitments)
    );
    assert_eq!(PolicyViolation::NoCommitments.code(), "no-commitments");
}

#[test]
fn validation_rejects_encoding_only() {
    let out = output_with(Some("localhost"), vec![TranscriptCommitment::Encoding]);
    assert_eq!(
        validate_plaid_connection(&out),
        Err(PolicyViolation::UnsupportedAlgorithm)
    );
    assert_eq!(
        PolicyViolation::UnsupportedAlgorithm.code(),
        "unsupported-algorithm"
    );
}

#[test]
fn validation_rejects_non_sha256_hashes_only() {
    let out = output_with(
        Some("sandbox.plaid.com"),
        vec![
            hash_commitment(HashAlgId::Blake3, vec![2; 32]),
            hash_commitment(HashAlgId::Keccak256, vec![3; 32]),
            TranscriptCommitment::Unknown,
        ],
    );
    assert_eq!(
        validate_plaid_connection(&out),
        Err(PolicyViolation::UnsupportedAlgorithm)
    );
}

#[test]
fn validation_accepts_sha256_commitment() {
    let out = output_with(
        Some("sandbox.plaid.com"),
        vec![hash_commitment(HashAlgId::Sha256, vec![0xAA; 32])],
    );
    assert_eq!(validate_plaid_connection(&out), Ok(()));
}

#[test]
fn validation_accepts_sha256_among_others() {
    let out = output_with(
        Some("localhost"),
        vec![
            TranscriptCommitment::Encoding,
            hash_commitment(HashAlgId::Blake3, vec![9; 32]),
            hash_commitment(HashAlgId::Sha256, vec![7; 32]),
        ],
    );
    assert_eq!(validate_plaid_connection(&out), Ok(()));
}

#[test]
fn extraction_returns_first_sha256_value() {
    let out = output_with(
        Some("sandbox.plaid.com"),
        vec![
            TranscriptCommitment::Encoding,
            hash_commitment(HashAlgId::Blake3, vec![1; 32]),
            hash_commitment(HashAlgId::Sha256, vec![0xAA; 32]),
            hash_commitment(HashAlgId::Sha256, vec![0xBB; 32]),
        ],
    );
    assert_eq!(extract_balance_commitment(&out), Ok(vec![0xAA; 32]));
}

#[test]
fn extraction_fails_without_commitments() {
    let out = output_with(Some("sandbox.plaid.com"), vec![]);
    assert_eq!(
        extract_balance_commitment(&out),
        Err(PolicyViolation::NoCommitments)
    );
}

#[test]
fn extraction_fails_without_sha256() {
    let out = output_with(
        Some("sandbox.plaid.com"),
        vec![hash_commitment(HashAlgId::Blake3, vec![1; 32])],
    );
    assert_eq!(
        extract_balance_commitment(&out),
        Err(PolicyViolation::UnsupportedAlgorithm)
    );
}

#[test]
fn revealed_transcript_is_flagged_not_rejected() {
    let mut out = output_with(
        Some("sandbox.plaid.com"),
        vec![hash_commitment(HashAlgId::Sha256, vec![0xAA; 32])],
    );
    out.transcript = Some(PartialTranscript {
        sent: b"GET /balance HTTP/1.1\r\n\r\n".to_vec(),
        received: b"HTTP/1.1 200 OK\r\n\r\n{}".to_vec(),
    });
    assert!(reveals_transcript(&out));
    assert_eq!(validate_plaid_connection(&out), Ok(()));
    let no_reveal = output_with(Some("sandbox.plaid.com"), vec![]);
    assert!(!reveals_transcript(&no_reveal));
}

#[test]
fn commitment_count_is_reported() {
    let out = output_with(
        Some("sandbox.plaid.com"),
        vec![
            TranscriptCommitment::Encoding,
            hash_commitment(HashAlgId::Sha256, vec![0; 32]),
        ],
    );
    assert_eq!(analyze_commitments(&out), 2);
}
