use vstd::bytes::{lemma_auto_spec_u64_to_from_le_bytes, spec_u64_from_le_bytes, spec_u64_to_le_bytes, u64_to_le_bytes};
use vstd::prelude::*;
use vstd::slice::{slice_subrange, slice_to_vec};

use crate::crypto::{
    schnorr_sign, schnorr_sign_succeeds, schnorr_signature_of, schnorr_verifies, schnorr_verify,
    sha256, sha256_of, verifying_key_bytes_of,
};
use crate::errors::{PolicyViolation, SessionError, SigningError};
use crate::hexfmt::{hex_bytes_of, hex_decode, hex_encode, lemma_hex_bytes_injective};
use crate::output::{first_qualifying_value, VerifierOutput};
use crate::policy::extract_balance_commitment;
use crate::str_bytes;

verus! {

/// Width in bytes of each fixed field of the canonical message: the
/// identity and the timestamp are each padded to this width so that
/// downstream consumers can parse the signed message by fixed offsets.
pub open spec fn field_width() -> int {
    32
}

/// A byte sequence padded on the right with zeros up to the fixed field
/// width. A sequence already at or over the width is left unchanged.
pub open spec fn pad_field(b: Seq<u8>) -> Seq<u8> {
    b + Seq::new(if b.len() <= field_width() {
        (field_width() - b.len()) as nat
    } else {
        0
    }, |i: int| 0u8)
}

/// The fixed three-byte version tag prepended to the raw signature before
/// hex encoding, so future layout changes remain distinguishable.
pub open spec fn signature_version() -> Seq<u8> {
    seq![0x01u8, 0x00u8, 0x00u8]
}

/// The canonical message that is hashed and signed: identity field, then
/// timestamp field (little-endian seconds), each zero-padded to the fixed
/// width, then the commitment bytes, in this order.
pub open spec fn canonical_message_of(identity: Seq<u8>, timestamp: u64, commitment: Seq<u8>) -> Seq<u8> {
    pad_field(identity) + pad_field(spec_u64_to_le_bytes(timestamp)) + commitment
}

/// A signed statement binding an origin identity, a timestamp and the
/// prover's commitment, verifiable against the embedded public key.
#[derive(Clone, Debug)]
pub struct Attestation {
    /// The origin the TLS session was established with.
    pub server_name: String,
    /// Seconds since the Unix epoch at which the attestation was produced.
    pub timestamp: u64,
    /// The prover's commitment to the attested value, as supplied.
    pub balance_commitment: Vec<u8>,
    /// Hex-encoded signature, version tag first.
    pub signature: String,
    /// The verifier's 32-byte x-only public key.
    pub verifier_pubkey: Vec<u8>,
}

/// The canonical message an attestation's own fields bind it to.
pub open spec fn attestation_message(att: Attestation) -> Seq<u8> {
    canonical_message_of(str_bytes(att.server_name@), att.timestamp, att.balance_commitment@)
}

/// What it means for an attestation to be internally valid: some 64-byte
/// raw signature is hex-encoded in its signature field behind the version
/// tag, and that signature verifies over the SHA-256 hash of the canonical
/// message reconstructed from the attestation's own fields, under its own
/// embedded public key.
pub open spec fn attestation_valid(att: Attestation) -> bool {
    exists|sig: Seq<u8>|
        {
            &&& sig.len() == 64
            &&& att.verifier_pubkey@.len() == 32
            &&& str_bytes(att.signature@) == hex_bytes_of(signature_version() + sig)
            &&& #[trigger] schnorr_verifies(
                att.verifier_pubkey@,
                sha256_of(attestation_message(att)),
                sig,
            )
        }
}

/// The identity recorded in an attestation: the reported origin, or the
/// fixed placeholder "unknown" when the engine reported none.
pub open spec fn attested_identity(name: Option<String>) -> Seq<char> {
    match name {
        Some(s) => s@,
        None => "unknown"@,
    }
}

/// Appends `data` to `m` unchanged.
fn push_all(m: &mut Vec<u8>, data: &[u8])
    ensures
        final(m)@ == old(m)@ + data@,
{
    let n: usize = data.len();
    for i in 0..n
        invariant
            n == data@.len(),
            m@ == old(m)@ + data@.take(i as int),
    {
        m.push(data[i]);
        assert(old(m)@ + data@.take(i as int) + seq![data@[i as int]] =~= old(m)@ + data@.take(
            i as int + 1,
        ));
    }
    assert(data@.take(n as int) =~= data@);
}

/// Appends `data` to `m`, zero-padded on the right to the fixed field width.
fn push_padded(m: &mut Vec<u8>, data: &[u8])
    ensures
        final(m)@ == old(m)@ + pad_field(data@),
{
    let n: usize = data.len();
    push_all(m, data);
    let zeros: usize = if n >= 32 {
        0
    } else {
        32 - n
    };
    for k in 0..zeros
        invariant
            zeros <= 32,
            m@ == old(m)@ + data@ + Seq::new(k as nat, |i: int| 0u8),
    {
        m.push(0u8);
        assert(Seq::new(k as nat, |i: int| 0u8).push(0u8) =~= Seq::new(
            (k + 1) as nat,
            |i: int| 0u8,
        ));
        assert(old(m)@ + data@ + Seq::new(k as nat, |i: int| 0u8) + seq![0u8] =~= old(m)@ + data@
            + Seq::new((k + 1) as nat, |i: int| 0u8));
    }
    assert(m@ =~= old(m)@ + pad_field(data@));
}

/// Builds the canonical message for the given identity, timestamp and
/// commitment, by the fixed binary layout.
pub fn build_canonical_message(name: &str, timestamp: u64, commitment: &Vec<u8>) -> (m: Vec<u8>)
    ensures
        m@ == canonical_message_of(str_bytes(name@), timestamp, commitment@),
{
    let mut m: Vec<u8> = Vec::new();
    push_padded(&mut m, name.as_bytes());
    let ts: Vec<u8> = u64_to_le_bytes(timestamp);
    push_padded(&mut m, ts.as_slice());
    push_all(&mut m, commitment.as_slice());
    assert(m@ =~= canonical_message_of(str_bytes(name@), timestamp, commitment@));
    m
}

/// The SHA-256 digest of the canonical message an output and a timestamp
/// determine: exactly what the signer hands to the signing routine.
pub open spec fn signing_digest(output: VerifierOutput, timestamp: u64) -> Seq<u8>
    recommends
        first_qualifying_value(output.transcript_commitments@) is Some,
{
    sha256_of(
        canonical_message_of(
            str_bytes(attested_identity(output.server_name)),
            timestamp,
            first_qualifying_value(output.transcript_commitments@)->Some_0,
        ),
    )
}

/// Produces a signed attestation for a verification output: selects the
/// prover's first SHA-256 commitment, builds the canonical message from
/// the identity, the given timestamp and that commitment, hashes it with
/// SHA-256 and signs the hash with the given BIP-340 Schnorr key. The
/// identity must fit the fixed field width; an output without a qualifying
/// commitment is rejected with its policy reason and nothing is signed.
/// Signing is deterministic: success, the signature bytes and the embedded
/// key are all functions of the output, the timestamp and the key, and the
/// one signing failure arm occurs exactly when the signing routine itself
/// fails on this digest.
pub fn sign_attestation(
    output: &VerifierOutput,
    timestamp: u64,
    key: &k256::schnorr::SigningKey,
) -> (r: Result<Attestation, SessionError>)
    ensures
        match r {
            Ok(att) => {
                &&& first_qualifying_value(output.transcript_commitments@) == Some(
                    att.balance_commitment@,
                )
                &&& att.server_name@ == attested_identity(output.server_name)
                &&& str_bytes(att.server_name@).len() <= field_width()
                &&& att.timestamp == timestamp
                &&& att.verifier_pubkey@ == verifying_key_bytes_of(*key)
                &&& str_bytes(att.signature@) == hex_bytes_of(
                    signature_version() + schnorr_signature_of(
                        *key,
                        signing_digest(*output, timestamp),
                    ),
                )
                &&& schnorr_sign_succeeds(*key, signing_digest(*output, timestamp))
                &&& attestation_valid(att)
            },
            Err(SessionError::Policy(e)) => {
                &&& first_qualifying_value(output.transcript_commitments@) is None
                &&& e == (if output.transcript_commitments@.len() == 0 {
                    PolicyViolation::NoCommitments
                } else {
                    PolicyViolation::UnsupportedAlgorithm
                })
            },
            Err(SessionError::Signing(SigningError::IdentityTooLong)) => {
                &&& first_qualifying_value(output.transcript_commitments@) is Some
                &&& str_bytes(attested_identity(output.server_name)).len() > field_width()
            },
            Err(SessionError::Signing(SigningError::SignatureFailed)) => {
                &&& first_qualifying_value(output.transcript_commitments@) is Some
                &&& str_bytes(attested_identity(output.server_name)).len() <= field_width()
                &&& !schnorr_sign_succeeds(*key, signing_digest(*output, timestamp))
            },
            _ => false,
        },
{
    let commitment: Vec<u8> = match extract_balance_commitment(output) {
        Ok(c) => c,
        Err(e) => {
            return Err(SessionError::Policy(e));
        },
    };
    let name: String = match &output.server_name {
        Some(s) => s.clone(),
        None => "unknown".to_owned(),
    };
    if name.as_str().as_bytes().len() > 32 {
        return Err(SessionError::Signing(SigningError::IdentityTooLong));
    }
    let message: Vec<u8> = build_canonical_message(name.as_str(), timestamp, &commitment);
    let message_hash: Vec<u8> = sha256(&message);
    proof {
        assert(first_qualifying_value(output.transcript_commitments@)->Some_0 == commitment@);
        assert(str_bytes(attested_identity(output.server_name)) == str_bytes(name@));
        assert(signing_digest(*output, timestamp) == message_hash@);
    }
    let (sig, pubkey): (Vec<u8>, Vec<u8>) = match schnorr_sign(key, &message_hash) {
        Some(p) => p,
        None => {
            return Err(SessionError::Signing(SigningError::SignatureFailed));
        },
    };
    let mut versioned: Vec<u8> = Vec::new();
    versioned.push(0x01u8);
    versioned.push(0x00u8);
    versioned.push(0x00u8);
    let ghost raw_sig: Seq<u8> = sig@;
    push_all(&mut versioned, sig.as_slice());
    assert(versioned@ =~= signature_version() + raw_sig);
    let signature: String = hex_encode(&versioned);
    let att = Attestation {
        server_name: name,
        timestamp,
        balance_commitment: commitment,
        signature,
        verifier_pubkey: pubkey,
    };
    proof {
        assert(attestation_message(att) == message@);
        assert(schnorr_verifies(att.verifier_pubkey@, sha256_of(attestation_message(att)), raw_sig));
        assert(attestation_valid(att));
    }
    Ok(att)
}

/// The raw signature a valid attestation's hex field encodes.
proof fn valid_attestation_signature(att: Attestation) -> (sig: Seq<u8>)
    requires
        attestation_valid(att),
    ensures
        sig.len() == 64,
        att.verifier_pubkey@.len() == 32,
        str_bytes(att.signature@) == hex_bytes_of(signature_version() + sig),
        schnorr_verifies(att.verifier_pubkey@, sha256_of(attestation_message(att)), sig),
{
    choose|sig: Seq<u8>|
        {
            &&& sig.len() == 64
            &&& att.verifier_pubkey@.len() == 32
            &&& str_bytes(att.signature@) == hex_bytes_of(signature_version() + sig)
            &&& #[trigger] schnorr_verifies(
                att.verifier_pubkey@,
                sha256_of(attestation_message(att)),
                sig,
            )
        }
}

/// Checks an attestation against its own fields: reconstructs the
/// canonical message, decodes the versioned signature and verifies it
/// under the embedded public key. Returns exactly whether the attestation
/// is valid.
pub fn verify_attestation(att: &Attestation) -> (r: bool)
    ensures
        r == attestation_valid(*att),
{
    if att.verifier_pubkey.len() != 32 {
        return false;
    }
    let decoded: Vec<u8> = match hex_decode(att.signature.as_str()) {
        Some(v) => v,
        None => {
            proof {
                if attestation_valid(*att) {
                    let sig = valid_attestation_signature(*att);
                    assert(false);
                }
            }
            return false;
        },
    };
    let valid_prefix: bool = decoded.len() == 67 && decoded[0] == 0x01 && decoded[1] == 0x00
        && decoded[2] == 0x00;
    if !valid_prefix {
        proof {
            if attestation_valid(*att) {
                let sig = valid_attestation_signature(*att);
                lemma_hex_bytes_injective(decoded@, signature_version() + sig);
                assert(false);
            }
        }
        return false;
    }
    let sig: Vec<u8> = slice_to_vec(slice_subrange(decoded.as_slice(), 3, 67));
    proof {
        assert(decoded@ =~= signature_version() + sig@);
    }
    let message: Vec<u8> = build_canonical_message(
        att.server_name.as_str(),
        att.timestamp,
        &att.balance_commitment,
    );
    let message_hash: Vec<u8> = sha256(&message);
    let ok: bool = schnorr_verify(&att.verifier_pubkey, &message_hash, &sig);
    proof {
        assert(attestation_message(*att) == message@);
        if ok {
            assert(attestation_valid(*att));
        } else {
            if attestation_valid(*att) {
                let other = valid_attestation_signature(*att);
                lemma_hex_bytes_injective(decoded@, signature_version() + other);
                assert(other =~= sig@);
                assert(false);
            }
        }
    }
    ok
}

/// Distinct fields give distinct canonical messages: for identities of
/// equal byte length within the field width and commitments of equal
/// length, equal canonical messages force equal identity, timestamp and
/// commitment. Changing any one byte of a field, which keeps its length,
/// therefore always changes the message that is hashed and signed.
pub proof fn lemma_canonical_message_injective(
    id1: Seq<u8>,
    ts1: u64,
    c1: Seq<u8>,
    id2: Seq<u8>,
    ts2: u64,
    c2: Seq<u8>,
)
    requires
        id1.len() == id2.len(),
        id1.len() <= field_width(),
        c1.len() == c2.len(),
        canonical_message_of(id1, ts1, c1) == canonical_message_of(id2, ts2, c2),
    ensures
        id1 == id2,
        ts1 == ts2,
        c1 == c2,
{
    lemma_auto_spec_u64_to_from_le_bytes();
    let m1 = canonical_message_of(id1, ts1, c1);
    let m2 = canonical_message_of(id2, ts2, c2);
    assert(pad_field(id1).len() == field_width());
    assert(pad_field(id2).len() == field_width());
    assert(pad_field(spec_u64_to_le_bytes(ts1)).len() == field_width());
    assert(pad_field(spec_u64_to_le_bytes(ts2)).len() == field_width());
    assert(id1 =~= m1.subrange(0, id1.len() as int));
    assert(id2 =~= m2.subrange(0, id2.len() as int));
    assert(spec_u64_to_le_bytes(ts1) =~= m1.subrange(32, 40));
    assert(spec_u64_to_le_bytes(ts2) =~= m2.subrange(32, 40));
    assert(ts1 == spec_u64_from_le_bytes(spec_u64_to_le_bytes(ts1)));
    assert(ts2 == spec_u64_from_le_bytes(spec_u64_to_le_bytes(ts2)));
    assert(c1 =~= m1.skip(64));
    assert(c2 =~= m2.skip(64));
}

} // verus!
