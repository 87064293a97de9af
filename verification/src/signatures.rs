//! Signature checks: the classical scheme over 32-byte keys and 64-byte
//! signatures, and the post-quantum scheme over opaque keys.

use crate::bytes::copy_bytes;
use crate::crypto::{
    dilithium3_accepts, dilithium3_check, ed25519_accepts, ed25519_check, ed25519_derive_public,
    ed25519_public_key, ed25519_sign, ed25519_signature, random_secret_key,
};
use crate::rules::ExecError;
use vstd::prelude::*;

verus! {

/// What the classical check decides: the signature has 64 bytes and Ed25519
/// accepts it.
pub open spec fn signature_valid(pubkey: [u8; 32], message: Seq<u8>, signature: Seq<u8>) -> bool {
    signature.len() == 64 && ed25519_accepts(pubkey@, message, signature)
}

/// What the post-quantum check decides: key and signature are not empty and
/// Dilithium3 accepts the signature.
pub open spec fn pq_signature_valid(pq_pubkey: Seq<u8>, message: Seq<u8>, signature: Seq<u8>) -> bool {
    pq_pubkey.len() > 0 && signature.len() > 0 && dilithium3_accepts(pq_pubkey, message, signature)
}

/// Turns a verdict into the result that the pipeline hands on.
pub fn verdict_result(accepted: bool) -> (r: Result<(), ExecError>)
    ensures
        accepted ==> r is Ok,
        !accepted ==> r == Err::<(), ExecError>(ExecError::CryptoInvalid),
{
    if accepted {
        Ok(())
    } else {
        Err(ExecError::CryptoInvalid)
    }
}

/// Whether `signature_bytes` is a valid classical signature over `message`
/// under `pubkey_bytes`.
pub fn signature_accepted(pubkey_bytes: &[u8; 32], message: &[u8], signature_bytes: &[u8]) -> (ok:
    bool)
    ensures
        ok == signature_valid(*pubkey_bytes, message@, signature_bytes@),
{
    if signature_bytes.len() != 64 {
        return false;
    }
    let mut fixed: [u8; 64] = [0u8; 64];
    let mut i: usize = 0;
    while i < 64
        invariant
            i <= 64,
            signature_bytes@.len() == 64,
            forall|j: int| 0 <= j < i ==> fixed@[j] == signature_bytes@[j],
        decreases 64 - i,
    {
        fixed[i] = signature_bytes[i];
        i = i + 1;
    }
    assert(fixed@ =~= signature_bytes@);
    ed25519_check(pubkey_bytes, message, &fixed)
}

/// Verifies a classical signature against a 32-byte public key; any defect
/// is `CryptoInvalid`.
pub fn verify_signature(pubkey_bytes: &[u8; 32], message: &[u8], signature_bytes: &[u8]) -> (r:
    Result<(), ExecError>)
    ensures
        signature_valid(*pubkey_bytes, message@, signature_bytes@) ==> r is Ok,
        !signature_valid(*pubkey_bytes, message@, signature_bytes@) ==> r == Err::<(), ExecError>(
            ExecError::CryptoInvalid,
        ),
{
    verdict_result(signature_accepted(pubkey_bytes, message, signature_bytes))
}

/// Whether `signature` is a valid post-quantum signature over `message`
/// under `pq_pubkey`.
pub fn pq_signature_accepted(pq_pubkey: &[u8], message: &[u8], signature: &[u8]) -> (ok: bool)
    ensures
        ok == pq_signature_valid(pq_pubkey@, message@, signature@),
{
    if pq_pubkey.len() == 0 || signature.len() == 0 {
        return false;
    }
    dilithium3_check(pq_pubkey, message, signature)
}

/// Verifies a post-quantum signature; an empty key, an empty signature and
/// any other defect are `CryptoInvalid`.
pub fn verify_pq_signature(pq_pubkey: &[u8], message: &[u8], signature: &[u8]) -> (r: Result<
    (),
    ExecError,
>)
    ensures
        pq_signature_valid(pq_pubkey@, message@, signature@) ==> r is Ok,
        !pq_signature_valid(pq_pubkey@, message@, signature@) ==> r == Err::<(), ExecError>(
            ExecError::CryptoInvalid,
        ),
{
    verdict_result(pq_signature_accepted(pq_pubkey, message, signature))
}

/// A classical key pair as plain bytes.
#[derive(Debug, Clone, Copy)]
pub struct SigningKey {
    pub secret_key: [u8; 32],
    pub public_key: [u8; 32],
}

impl SigningKey {
    /// Whether the public key is the one that belongs to the secret key.
    pub open spec fn well_formed(&self) -> bool {
        self.public_key@ == ed25519_public_key(self.secret_key@)
    }

    /// The key pair of a secret key.
    pub fn from_bytes(secret_key: &[u8; 32]) -> (key: Self)
        ensures
            key.secret_key == *secret_key,
            key.well_formed(),
    {
        SigningKey { secret_key: *secret_key, public_key: ed25519_derive_public(secret_key) }
    }
}

/// Generates a key pair from the operating system's random source.
pub fn generate_keypair() -> (key: SigningKey)
    ensures
        key.well_formed(),
{
    let secret_key = random_secret_key();
    SigningKey::from_bytes(&secret_key)
}

/// Signs a message; the signature has 64 bytes.
pub fn sign(key: &SigningKey, message: &[u8]) -> (signature: Vec<u8>)
    ensures
        signature@ == ed25519_signature(key.secret_key@, message@),
        signature@.len() == 64,
{
    let fixed = ed25519_sign(&key.secret_key, message);
    copy_bytes(fixed.as_slice())
}

} // verus!
