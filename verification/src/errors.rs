use vstd::prelude::*;

verus! {

/// Reason a verification output was rejected by acceptance policy.
///
/// Once any of these fires, signing must never be attempted for the session.
#[derive(Clone, Copy, PartialEq, Eq, Structural, Debug)]
pub enum PolicyViolation {
    /// The origin identity was absent or not in the approved set.
    BadIdentity,
    /// The prover supplied no commitments at all.
    NoCommitments,
    /// No commitment was a SHA-256 plaintext hash.
    UnsupportedAlgorithm,
}

impl PolicyViolation {
    /// Stable reason code for audit logging.
    pub fn code(&self) -> (r: &'static str)
        ensures
            *self is BadIdentity ==> r@ == "bad-identity"@,
            *self is NoCommitments ==> r@ == "no-commitments"@,
            *self is UnsupportedAlgorithm ==> r@ == "unsupported-algorithm"@,
    {
        match self {
            PolicyViolation::BadIdentity => "bad-identity",
            PolicyViolation::NoCommitments => "no-commitments",
            PolicyViolation::UnsupportedAlgorithm => "unsupported-algorithm",
        }
    }
}

/// Reason attestation signing failed after policy had passed.
#[derive(Clone, Copy, PartialEq, Eq, Structural, Debug)]
pub enum SigningError {
    /// The identity's byte length exceeds the fixed field width of the
    /// canonical message.
    IdentityTooLong,
    /// The signing routine itself reported failure.
    SignatureFailed,
    /// The wall clock could not be read (raised by the caller that owns
    /// the clock).
    ClockFailed,
    /// The attestation record could not be encoded (raised by the caller
    /// that owns the encoding).
    SerializationFailed,
}

/// A terminal error of one verification session.
///
/// Every variant is fatal to its own session only; the service keeps
/// accepting new connections.
#[derive(Debug)]
pub enum SessionError {
    /// Frame read or write failure on the client transport.
    Transport(String),
    /// The verification engine failed its protocol run.
    Engine(String),
    /// The engine's output was rejected by acceptance policy.
    Policy(PolicyViolation),
    /// The attestation could not be produced.
    Signing(SigningError),
}

} // verus!
