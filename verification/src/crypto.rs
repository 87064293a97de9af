//! Adapters to the outside cryptography: the chain's hash function and the
//! two signature schemes. What they compute is named, not described.

use vstd::prelude::*;

verus! {

/// The 32-byte BLAKE3 digest of a byte string.
pub uninterp spec fn blake3_digest(data: Seq<u8>) -> Seq<u8>;

/// Whether Ed25519 verification accepts `signature` over `message` under the
/// 32-byte public key `pubkey`.
pub uninterp spec fn ed25519_accepts(pubkey: Seq<u8>, message: Seq<u8>, signature: Seq<u8>) -> bool;

/// Whether Dilithium3 detached-signature verification accepts `signature`
/// over `message` under `pubkey`.
pub uninterp spec fn dilithium3_accepts(pubkey: Seq<u8>, message: Seq<u8>, signature: Seq<u8>) -> bool;

/// The 64-byte Ed25519 signature that the 32-byte secret key gives over
/// `message`.
pub uninterp spec fn ed25519_signature(secret_key: Seq<u8>, message: Seq<u8>) -> Seq<u8>;

/// The 32-byte Ed25519 public key of a 32-byte secret key.
pub uninterp spec fn ed25519_public_key(secret_key: Seq<u8>) -> Seq<u8>;

/// Whether Groth16 verification over BLS12-381 accepts `proof` for the single
/// public input `total_reserve` under the compressed verifying key
/// `verifying_key`; false where key or proof do not decode.
pub uninterp spec fn groth16_accepts(verifying_key: Seq<u8>, proof: Seq<u8>, total_reserve: u64) -> bool;

/// Calls `blake3::hash` and returns the digest's 32 bytes. The digest is a
/// function of the input alone; nothing else is claimed of it.
#[verifier::external_body]
pub(crate) fn blake3_hash(data: &[u8]) -> (digest: [u8; 32])
    ensures
        digest@ == blake3_digest(data@),
{
    *blake3::hash(data).as_bytes()
}

/// Calls `ed25519_dalek::VerifyingKey::from_bytes` and `verify`: true when the
/// key decodes to a curve point and the signature verifies. The verdict is a
/// function of the three byte strings alone.
#[verifier::external_body]
pub(crate) fn ed25519_check(pubkey: &[u8; 32], message: &[u8], signature: &[u8; 64]) -> (ok: bool)
    ensures
        ok == ed25519_accepts(pubkey@, message@, signature@),
{
    match ed25519_dalek::VerifyingKey::from_bytes(pubkey) {
        Ok(key) => ed25519_dalek::Verifier::verify(
            &key,
            message,
            &ed25519_dalek::Signature::from_bytes(signature),
        ).is_ok(),
        Err(_) => false,
    }
}

/// Calls `ed25519_dalek::SigningKey::from_bytes` and `Signer::sign` and
/// returns the signature's 64 bytes. Signing is deterministic: the signature
/// is a function of key and message alone.
#[verifier::external_body]
pub(crate) fn ed25519_sign(secret_key: &[u8; 32], message: &[u8]) -> (signature: [u8; 64])
    ensures
        signature@ == ed25519_signature(secret_key@, message@),
{
    ed25519_dalek::Signer::sign(&ed25519_dalek::SigningKey::from_bytes(secret_key), message).to_bytes()
}

/// Calls `ed25519_dalek::SigningKey::from_bytes` and `verifying_key` and
/// returns the public key's 32 bytes, a function of the secret key alone.
#[verifier::external_body]
pub(crate) fn ed25519_derive_public(secret_key: &[u8; 32]) -> (public_key: [u8; 32])
    ensures
        public_key@ == ed25519_public_key(secret_key@),
{
    ed25519_dalek::SigningKey::from_bytes(secret_key).verifying_key().to_bytes()
}

/// Calls `ed25519_dalek::SigningKey::generate` on the operating system's
/// random source and returns the secret key's 32 bytes. Nothing is claimed
/// of them.
#[verifier::external_body]
pub(crate) fn random_secret_key() -> [u8; 32] {
    ed25519_dalek::SigningKey::generate(&mut rand::rngs::OsRng).to_bytes()
}

/// Calls `pqcrypto_dilithium::dilithium3::verify_detached_signature` after
/// decoding key and signature: true when both decode and the signature
/// verifies. The verdict is a function of the three byte strings alone.
#[verifier::external_body]
pub(crate) fn dilithium3_check(pubkey: &[u8], message: &[u8], signature: &[u8]) -> (ok: bool)
    ensures
        ok == dilithium3_accepts(pubkey@, message@, signature@),
{
    let key = pqcrypto_traits::sign::PublicKey::from_bytes(pubkey);
    let sig = pqcrypto_traits::sign::DetachedSignature::from_bytes(signature);
    match (key, sig) {
        (Ok(key), Ok(sig)) => pqcrypto_dilithium::dilithium3::verify_detached_signature(
            &sig,
            message,
            &key,
        ).is_ok(),
        _ => false,
    }
}

/// Decodes key and proof with `CanonicalDeserialize::deserialize_compressed`
/// and calls `ark_groth16::Groth16::<Bls12_381>::verify` with the reserve
/// total as the one public input: true when both decode and the proof
/// verifies. The verdict is a function of the arguments alone.
#[verifier::external_body]
pub(crate) fn groth16_check(verifying_key: &[u8], proof: &[u8], total_reserve: u64) -> (ok: bool)
    ensures
        ok == groth16_accepts(verifying_key@, proof@, total_reserve),
{
    let key: Result<ark_groth16::VerifyingKey<ark_bls12_381::Bls12_381>, _> =
        ark_serialize::CanonicalDeserialize::deserialize_compressed(verifying_key);
    let proof: Result<ark_groth16::Proof<ark_bls12_381::Bls12_381>, _> =
        ark_serialize::CanonicalDeserialize::deserialize_compressed(proof);
    match (key, proof) {
        (Ok(key), Ok(proof)) => <ark_groth16::Groth16<ark_bls12_381::Bls12_381> as ark_snark::SNARK<
            ark_bls12_381::Fr,
        >>::verify(&key, &[ark_bls12_381::Fr::from(total_reserve)], &proof).unwrap_or(false),
        _ => false,
    }
}

/// The digest of a byte string as a 32-byte array.
pub open spec fn hash32(data: Seq<u8>) -> [u8; 32] {
    choose|a: [u8; 32]| a@ == blake3_digest(data)
}

/// The chain's hash function: the 32-byte digest of `data`.
pub fn hash_bytes(data: &[u8]) -> (h: [u8; 32])
    ensures
        h == hash32(data@),
        h@ == blake3_digest(data@),
{
    let h = blake3_hash(data);
    assert(hash32(data@) =~= h);
    h
}

/// Whether all 32 bytes are zero.
pub open spec fn all_zero32(a: [u8; 32]) -> bool {
    forall|i: int| 0 <= i < 32 ==> a@[i] == 0u8
}

/// The all-zero hash, which stands for the root of nothing.
pub open spec fn zero_hash() -> [u8; 32] {
    choose|a: [u8; 32]| all_zero32(a)
}

/// The all-zero hash.
pub fn zero_hash_value() -> (h: [u8; 32])
    ensures
        h == zero_hash(),
        all_zero32(h),
{
    let h = [0u8; 32];
    assert(all_zero32(h));
    assert(h =~= zero_hash());
    h
}

} // verus!
