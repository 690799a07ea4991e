use vstd::prelude::*;
use vstd::slice::slice_to_vec;

use crate::errors::PolicyViolation;
use crate::output::{
    first_qualifying_value, has_qualifying, is_qualifying, lemma_first_qualifying_value_some,
    HashAlgId, TranscriptCommitment, VerifierOutput,
};
use crate::{bytes_eq, seq_ends_with, slice_ends_with, str_bytes};

verus! {

/// The domain suffix every approved origin may carry: ".plaid.com".
pub open spec fn approved_suffix() -> Seq<u8> {
    seq![0x2eu8, 0x70u8, 0x6cu8, 0x61u8, 0x69u8, 0x64u8, 0x2eu8, 0x63u8, 0x6fu8, 0x6du8]
}

/// The loopback test identity "localhost".
pub open spec fn localhost_bytes() -> Seq<u8> {
    seq![0x6cu8, 0x6fu8, 0x63u8, 0x61u8, 0x6cu8, 0x68u8, 0x6fu8, 0x73u8, 0x74u8]
}

/// The loopback test identity "127.0.0.1".
pub open spec fn loopback_bytes() -> Seq<u8> {
    seq![0x31u8, 0x32u8, 0x37u8, 0x2eu8, 0x30u8, 0x2eu8, 0x30u8, 0x2eu8, 0x31u8]
}

/// The approved-origin policy over the identity's bytes: any domain under
/// ".plaid.com", or one of the loopback test identities.
pub open spec fn identity_approved(b: Seq<u8>) -> bool {
    ||| seq_ends_with(b, approved_suffix())
    ||| b == localhost_bytes()
    ||| b == loopback_bytes()
}

/// Whether an identity was reported at all and is approved.
pub open spec fn identity_ok(name: Option<String>) -> bool {
    name matches Some(s) && identity_approved(str_bytes(s@))
}

/// The acceptance decision over a verification output, applied in order:
/// identity first, then commitment presence, then commitment algorithm.
/// The first failing step names the rejection.
pub open spec fn policy_decision(
    name: Option<String>,
    cs: Seq<TranscriptCommitment>,
) -> Result<(), PolicyViolation> {
    if !identity_ok(name) {
        Err(PolicyViolation::BadIdentity)
    } else if cs.len() == 0 {
        Err(PolicyViolation::NoCommitments)
    } else if !has_qualifying(cs) {
        Err(PolicyViolation::UnsupportedAlgorithm)
    } else {
        Ok(())
    }
}

/// Checks whether the identity's bytes satisfy the approved-origin policy.
pub fn identity_bytes_approved(b: &[u8]) -> (r: bool)
    ensures
        r == identity_approved(b@),
{
    let suffix: [u8; 10] = [0x2e, 0x70, 0x6c, 0x61, 0x69, 0x64, 0x2e, 0x63, 0x6f, 0x6d];
    let localhost: [u8; 9] = [0x6c, 0x6f, 0x63, 0x61, 0x6c, 0x68, 0x6f, 0x73, 0x74];
    let loopback: [u8; 9] = [0x31, 0x32, 0x37, 0x2e, 0x30, 0x2e, 0x30, 0x2e, 0x31];
    assert(suffix@ =~= approved_suffix());
    assert(localhost@ =~= localhost_bytes());
    assert(loopback@ =~= loopback_bytes());
    slice_ends_with(b, suffix.as_slice()) || bytes_eq(b, localhost.as_slice()) || bytes_eq(
        b,
        loopback.as_slice(),
    )
}

/// Gatekeeper before any signature is produced: confirms the session was
/// against an approved origin and that the prover committed to transcript
/// data with at least one SHA-256 hash commitment. The first failing step
/// aborts with its typed reason; signing must not be attempted after a
/// rejection.
pub fn validate_plaid_connection(output: &VerifierOutput) -> (r: Result<(), PolicyViolation>)
    ensures
        r == policy_decision(output.server_name, output.transcript_commitments@),
{
    let name = match &output.server_name {
        Some(n) => n,
        None => {
            return Err(PolicyViolation::BadIdentity);
        },
    };
    if !identity_bytes_approved(name.as_str().as_bytes()) {
        return Err(PolicyViolation::BadIdentity);
    }
    assert(identity_ok(output.server_name));
    if output.transcript_commitments.len() == 0 {
        return Err(PolicyViolation::NoCommitments);
    }
    let cs = &output.transcript_commitments;
    let n: usize = cs.len();
    for i in 0..n
        invariant
            n == cs@.len(),
            n > 0,
            cs == &output.transcript_commitments,
            identity_ok(output.server_name),
            forall|j: int| 0 <= j < i ==> !is_qualifying(cs@[j]),
    {
        match &cs[i] {
            TranscriptCommitment::Hash(h) => match h.alg {
                HashAlgId::Sha256 => {
                    assert(is_qualifying(cs@[i as int]));
                    assert(has_qualifying(cs@));
                    return Ok(());
                },
                _ => {},
            },
            _ => {},
        }
    }
    assert(!has_qualifying(cs@));
    Err(PolicyViolation::UnsupportedAlgorithm)
}

/// Whether the prover revealed transcript bytes (full-reveal mode). A
/// revealed transcript is accepted, but it is a lower-privacy mode the
/// caller should surface as a privacy warning.
pub fn reveals_transcript(output: &VerifierOutput) -> (r: bool)
    ensures
        r == (output.transcript is Some),
{
    match &output.transcript {
        Some(_) => true,
        None => false,
    }
}

/// The number of commitments the engine reported, for observability records.
pub fn analyze_commitments(output: &VerifierOutput) -> (n: usize)
    ensures
        n == output.transcript_commitments@.len(),
{
    output.transcript_commitments.len()
}

/// If no commitment among the first `i` qualifies, the first qualifying
/// value of the whole sequence is that of the rest.
proof fn lemma_first_qualifying_skip(cs: Seq<TranscriptCommitment>, i: int)
    requires
        0 <= i <= cs.len(),
        forall|j: int| 0 <= j < i ==> !is_qualifying(cs[j]),
    ensures
        first_qualifying_value(cs) == first_qualifying_value(cs.skip(i)),
    decreases i,
{
    if i == 0 {
        assert(cs.skip(0) =~= cs);
    } else {
        lemma_first_qualifying_skip(cs, i - 1);
        assert(cs.skip(i - 1).len() > 0);
        assert(cs.skip(i - 1).first() == cs[i - 1]);
        assert(!is_qualifying(cs[i - 1]));
        assert(cs.skip(i - 1).drop_first() =~= cs.skip(i));
    }
}

/// Selects the value of the first SHA-256 hash commitment: the prover's
/// own commitment to the attested value, returned unchanged. It is never
/// rehashed or reinterpreted here; trusting it as supplied is what makes
/// operation without plaintext reveal possible.
pub fn extract_balance_commitment(output: &VerifierOutput) -> (r: Result<Vec<u8>, PolicyViolation>)
    ensures
        match r {
            Ok(v) => first_qualifying_value(output.transcript_commitments@) == Some(v@),
            Err(e) => {
                &&& first_qualifying_value(output.transcript_commitments@) is None
                &&& e == (if output.transcript_commitments@.len() == 0 {
                    PolicyViolation::NoCommitments
                } else {
                    PolicyViolation::UnsupportedAlgorithm
                })
            },
        },
{
    let cs = &output.transcript_commitments;
    let n: usize = cs.len();
    for i in 0..n
        invariant
            n == cs@.len(),
            cs == &output.transcript_commitments,
            forall|j: int| 0 <= j < i ==> !is_qualifying(cs@[j]),
    {
        match &cs[i] {
            TranscriptCommitment::Hash(h) => match h.alg {
                HashAlgId::Sha256 => {
                    proof {
                        lemma_first_qualifying_skip(cs@, i as int);
                        assert(cs@.skip(i as int).first() == cs@[i as int]);
                        assert(is_qualifying(cs@[i as int]));
                    }
                    return Ok(slice_to_vec(h.value.as_slice()));
                },
                _ => {},
            },
            _ => {},
        }
    }
    proof {
        lemma_first_qualifying_skip(cs@, n as int);
        assert(cs@.skip(n as int) =~= Seq::<TranscriptCommitment>::empty());
        lemma_first_qualifying_value_some(cs@);
    }
    Err(
        if cs.len() == 0 {
            PolicyViolation::NoCommitments
        } else {
            PolicyViolation::UnsupportedAlgorithm
        },
    )
}

/// The identity step of the policy: a reported identity in the approved
/// set never draws `bad-identity`; any other identity, or a missing one,
/// draws exactly `bad-identity`, whatever the commitments.
pub proof fn lemma_identity_policy(name: Option<String>, cs: Seq<TranscriptCommitment>)
    ensures
        identity_ok(name) ==> policy_decision(name, cs) != Err::<(), PolicyViolation>(
            PolicyViolation::BadIdentity,
        ),
        !identity_ok(name) ==> policy_decision(name, cs) == Err::<(), PolicyViolation>(
            PolicyViolation::BadIdentity,
        ),
{
}

/// An output with an empty commitment list is rejected as
/// `no-commitments` whenever the identity step passed, so signing is
/// never reached for it.
pub proof fn lemma_no_commitments_rejected(name: Option<String>, cs: Seq<TranscriptCommitment>)
    requires
        identity_ok(name),
        cs.len() == 0,
    ensures
        policy_decision(name, cs) == Err::<(), PolicyViolation>(PolicyViolation::NoCommitments),
{
}

/// An output whose commitments are only encodings, unknown kinds or
/// hashes under an algorithm other than SHA-256 is rejected as
/// `unsupported-algorithm` whenever the identity step passed.
pub proof fn lemma_unsupported_algorithm_rejected(
    name: Option<String>,
    cs: Seq<TranscriptCommitment>,
)
    requires
        identity_ok(name),
        cs.len() > 0,
        forall|i: int| 0 <= i < cs.len() ==> !is_qualifying(#[trigger] cs[i]),
    ensures
        policy_decision(name, cs) == Err::<(), PolicyViolation>(
            PolicyViolation::UnsupportedAlgorithm,
        ),
{
}

} // verus!
