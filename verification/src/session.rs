use vstd::prelude::*;

use crate::attestation::{
    attestation_valid, attested_identity, field_width, sign_attestation, signature_version,
    signing_digest, Attestation,
};
use crate::crypto::{schnorr_sign_succeeds, schnorr_signature_of, verifying_key_bytes_of};
use crate::hexfmt::hex_bytes_of;
use crate::errors::{PolicyViolation, SessionError, SigningError};
use crate::output::{first_qualifying_value, has_qualifying, lemma_first_qualifying_value_some, VerifierOutput};
use crate::policy::{policy_decision, validate_plaid_connection};
use crate::str_bytes;

verus! {

/// Policy-fixed limits on the TLS session being verified: an anti-abuse
/// bound sized to the target API's expected payloads, not a general
/// protocol limit.
pub struct ProtocolLimits {
    /// Maximum bytes the prover may send during the session.
    pub max_sent_data: usize,
    /// Maximum bytes the prover may receive during the session.
    pub max_recv_data: usize,
}

impl ProtocolLimits {
    /// The limits the engine is configured with here: 4 KiB for requests,
    /// 16 KiB for responses.
    pub fn plaid() -> (r: ProtocolLimits)
        ensures
            r.max_sent_data == 4096,
            r.max_recv_data == 16384,
    {
        ProtocolLimits { max_sent_data: 4096, max_recv_data: 16384 }
    }
}

/// Runs the after-engine chain of one session: the acceptance policy
/// first, then attestation signing. A rejected output carries its policy
/// reason and nothing is ever signed for it; an accepted output yields an
/// attestation over the prover's first SHA-256 commitment, or the signing
/// failure.
pub fn process_output(
    output: &VerifierOutput,
    timestamp: u64,
    key: &k256::schnorr::SigningKey,
) -> (r: Result<Attestation, SessionError>)
    ensures
        match r {
            Ok(att) => {
                &&& policy_decision(output.server_name, output.transcript_commitments@) is Ok
                &&& first_qualifying_value(output.transcript_commitments@) == Some(
                    att.balance_commitment@,
                )
                &&& att.server_name@ == attested_identity(output.server_name)
                &&& att.timestamp == timestamp
                &&& att.verifier_pubkey@ == verifying_key_bytes_of(*key)
                &&& str_bytes(att.signature@) == hex_bytes_of(
                    signature_version() + schnorr_signature_of(
                        *key,
                        signing_digest(*output, timestamp),
                    ),
                )
                &&& schnorr_sign_succeeds(*key, signing_digest(*output, timestamp))
                &&& attestation_valid(att)
            },
            Err(SessionError::Policy(v)) => policy_decision(
                output.server_name,
                output.transcript_commitments@,
            ) == Err::<(), PolicyViolation>(v),
            Err(SessionError::Signing(SigningError::IdentityTooLong)) => {
                &&& policy_decision(output.server_name, output.transcript_commitments@) is Ok
                &&& str_bytes(attested_identity(output.server_name)).len() > field_width()
            },
            Err(SessionError::Signing(SigningError::SignatureFailed)) => {
                &&& policy_decision(output.server_name, output.transcript_commitments@) is Ok
                &&& !schnorr_sign_succeeds(*key, signing_digest(*output, timestamp))
            },
            _ => false,
        },
{
    match validate_plaid_connection(output) {
        Ok(_) => {},
        Err(v) => {
            return Err(SessionError::Policy(v));
        },
    }
    proof {
        lemma_first_qualifying_value_some(output.transcript_commitments@);
        assert(has_qualifying(output.transcript_commitments@));
    }
    sign_attestation(output, timestamp, key)
}

} // verus!
