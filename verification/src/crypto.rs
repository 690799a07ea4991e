use vstd::prelude::*;

use k256::schnorr::signature::{Signer, Verifier};

verus! {

/// The SHA-256 digest of a byte string. The digest is a function of the
/// input bytes alone; its value is not modelled here, only named.
pub uninterp spec fn sha256_of(data: Seq<u8>) -> Seq<u8>;

/// Relies on sha2::Sha256::digest: the 32-byte SHA-256 digest of the
/// input, a function of the input bytes alone.
#[verifier::external_body]
pub(crate) fn sha256(data: &Vec<u8>) -> (r: Vec<u8>)
    ensures
        r@ == sha256_of(data@),
        r@.len() == 32,
{
    let digest = <sha2::Sha256 as sha2::Digest>::digest(data.as_slice());
    digest.as_slice().to_vec()
}

/// The BIP-340 Schnorr signing key of the k256 crate, opaque here. A value
/// carries both the secret scalar and its x-only verifying key.
#[verifier::external_type_specification]
#[verifier::external_body]
pub struct ExSchnorrSigningKey(k256::schnorr::SigningKey);

/// Whether BIP-340 Schnorr verification accepts `sig` as a signature over
/// `msg` under the 32-byte x-only public key `pubkey`: the decision of
/// k256's verification routine, a deterministic function of the three byte
/// strings alone.
pub uninterp spec fn schnorr_verifies(pubkey: Seq<u8>, msg: Seq<u8>, sig: Seq<u8>) -> bool;

/// Whether k256's BIP-340 signing succeeds for this key and message. The
/// routine signs with zero auxiliary randomness, so success is a
/// deterministic function of the two; it fails only on a degenerate nonce.
pub uninterp spec fn schnorr_sign_succeeds(key: k256::schnorr::SigningKey, msg: Seq<u8>) -> bool;

/// The 64 signature bytes k256's BIP-340 signing returns for this key and
/// message when it succeeds. With zero auxiliary randomness the value is a
/// deterministic function of the two; it is not modelled here, only named.
pub uninterp spec fn schnorr_signature_of(key: k256::schnorr::SigningKey, msg: Seq<u8>) -> Seq<u8>;

/// The 32 x-only bytes of the verifying key that belongs to this signing
/// key, as VerifyingKey::to_bytes serializes them.
pub uninterp spec fn verifying_key_bytes_of(key: k256::schnorr::SigningKey) -> Seq<u8>;

/// Relies on k256::schnorr::SigningKey::try_sign and
/// VerifyingKey::to_bytes: signing is deterministic (zero auxiliary
/// randomness), so whether it succeeds and which 64 signature bytes come
/// back are functions of key and message, named above; the x-only
/// verifying key is 32 bytes and parses back to the same key; and a
/// produced signature is exactly one the verification equation accepts
/// for the same message and key (the routine checks this itself before
/// returning). Signing fails only in the negligible case of a degenerate
/// nonce; nothing more is promised then.
#[verifier::external_body]
pub(crate) fn schnorr_sign(key: &k256::schnorr::SigningKey, msg: &Vec<u8>) -> (r: Option<
    (Vec<u8>, Vec<u8>),
>)
    ensures
        (r is Some) == schnorr_sign_succeeds(*key, msg@),
        r matches Some(p) ==> {
            &&& p.0@ == schnorr_signature_of(*key, msg@)
            &&& p.0@.len() == 64
            &&& p.1@ == verifying_key_bytes_of(*key)
            &&& p.1@.len() == 32
            &&& schnorr_verifies(p.1@, msg@, p.0@)
        },
{
    match key.try_sign(msg.as_slice()) {
        Ok(sig) => Some((
            sig.to_bytes().to_vec(),
            key.verifying_key().to_bytes().to_vec(),
        )),
        Err(_) => None,
    }
}

/// Relies on k256::schnorr::VerifyingKey::from_bytes, Signature::try_from
/// and Verifier::verify: together they decide, deterministically from the
/// three byte strings alone, whether `sig` is a valid BIP-340 signature
/// over `msg` under `pubkey`; a key or signature encoding that does not
/// parse is rejected.
#[verifier::external_body]
pub(crate) fn schnorr_verify(pubkey: &Vec<u8>, msg: &Vec<u8>, sig: &Vec<u8>) -> (r: bool)
    requires
        pubkey@.len() == 32,
        sig@.len() == 64,
    ensures
        r == schnorr_verifies(pubkey@, msg@, sig@),
{
    let vk = match k256::schnorr::VerifyingKey::from_bytes(pubkey.as_slice()) {
        Ok(v) => v,
        Err(_) => return false,
    };
    let parsed = match k256::schnorr::Signature::try_from(sig.as_slice()) {
        Ok(v) => v,
        Err(_) => return false,
    };
    vk.verify(msg.as_slice(), &parsed).is_ok()
}

} // verus!
