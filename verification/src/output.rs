use vstd::prelude::*;

verus! {

/// Direction of the transcript data a commitment refers to.
#[derive(Clone, Copy, PartialEq, Eq, Structural, Debug)]
pub enum Direction {
    Sent,
    Received,
}

/// Hash algorithm reported for a plaintext hash commitment.
///
/// The engine reports an algorithm identifier with each hash commitment;
/// only SHA-256 is acceptable for attestation. Identifiers this service
/// does not recognise are carried as `Other` so that they fail policy
/// instead of being silently mistaken for a supported algorithm.
#[derive(Clone, Copy, PartialEq, Eq, Structural, Debug)]
pub enum HashAlgId {
    Sha256,
    Blake3,
    Keccak256,
    Other,
}

/// A commitment to a hash over a range of transcript plaintext.
pub struct PlaintextHash {
    /// Which half of the transcript the hashed plaintext belongs to.
    pub direction: Direction,
    /// The algorithm the prover used to hash the plaintext.
    pub alg: HashAlgId,
    /// The hash value itself: the prover's commitment.
    pub value: Vec<u8>,
}

/// A commitment the prover made to transcript data.
///
/// `Hash` binds to a value and can back an attestation. `Encoding` attests
/// only to byte-position integrity and is insufficient alone. `Unknown`
/// carries any commitment kind this service does not recognise, so new
/// engine-reported kinds fail safe.
pub enum TranscriptCommitment {
    Hash(PlaintextHash),
    Encoding,
    Unknown,
}

/// The transcript halves the prover chose to reveal, if any.
pub struct PartialTranscript {
    /// Bytes the prover sent to the origin.
    pub sent: Vec<u8>,
    /// Bytes the prover received from the origin.
    pub received: Vec<u8>,
}

/// Normalized result of one run of the verification engine.
pub struct VerifierOutput {
    /// The origin identity the TLS session was established with, if the
    /// engine could determine it.
    pub server_name: Option<String>,
    /// Revealed transcript bytes; present only when the prover chose full
    /// reveal instead of pure selective disclosure.
    pub transcript: Option<PartialTranscript>,
    /// The commitments the prover made, in the order the engine reported them.
    pub transcript_commitments: Vec<TranscriptCommitment>,
}

/// Whether a commitment can back an attestation: a plaintext hash under SHA-256.
pub open spec fn is_qualifying(c: TranscriptCommitment) -> bool {
    c matches TranscriptCommitment::Hash(h) && h.alg is Sha256
}

/// Whether at least one commitment in the sequence can back an attestation.
pub open spec fn has_qualifying(cs: Seq<TranscriptCommitment>) -> bool {
    exists|i: int| 0 <= i < cs.len() && is_qualifying(cs[i])
}

/// The value of the first commitment that can back an attestation,
/// or `None` when no commitment qualifies.
pub open spec fn first_qualifying_value(cs: Seq<TranscriptCommitment>) -> Option<Seq<u8>>
    decreases cs.len(),
{
    if cs.len() == 0 {
        None
    } else if is_qualifying(cs.first()) {
        Some(cs.first()->Hash_0.value@)
    } else {
        first_qualifying_value(cs.drop_first())
    }
}

/// A qualifying commitment exists exactly when `first_qualifying_value` finds one.
pub proof fn lemma_first_qualifying_value_some(cs: Seq<TranscriptCommitment>)
    ensures
        first_qualifying_value(cs) is Some <==> has_qualifying(cs),
    decreases cs.len(),
{
    if cs.len() > 0 {
        lemma_first_qualifying_value_some(cs.drop_first());
        if !is_qualifying(cs.first()) {
            assert(has_qualifying(cs.drop_first()) <==> has_qualifying(cs)) by {
                if has_qualifying(cs) {
                    let i = choose|i: int| 0 <= i < cs.len() && is_qualifying(cs[i]);
                    assert(i != 0);
                    assert(cs.drop_first()[i - 1] == cs[i]);
                }
                if has_qualifying(cs.drop_first()) {
                    let i = choose|i: int|
                        0 <= i < cs.drop_first().len() && is_qualifying(cs.drop_first()[i]);
                    assert(cs[i + 1] == cs.drop_first()[i]);
                }
            }
        }
    }
}

} // verus!
