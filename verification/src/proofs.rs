//! The proof gates of the instruction set. Proofs are opaque bytes; each
//! kind of instruction has its verifier. The reserve proof is a Groth16
//! proof; the bound proofs carry a hash tag that ties their payload to a
//! context; the remaining gates accept every proof until their circuits are
//! fixed.

use crate::bytes::{append_bytes, bytes_eq, copy_bytes};
use crate::crypto::{blake3_digest, blake3_hash, groth16_accepts, groth16_check};
use vstd::bytes::{spec_u64_to_le_bytes, u64_to_le_bytes};
use vstd::prelude::*;
use vstd::slice::slice_subrange;
use vstd::utf8::encode_utf8;

verus! {

/// Holds the verifying key of the reserve circuit, in compressed form.
#[derive(Debug)]
pub struct ZkManager {
    pub verifying_key: Vec<u8>,
}

impl ZkManager {
    /// A manager for the given verifying key.
    pub fn new(verifying_key: Vec<u8>) -> (r: Self)
        ensures
            r.verifying_key == verifying_key,
    {
        ZkManager { verifying_key }
    }

    /// Whether `proof_bytes` proves reserves of `total_reserve` under the
    /// manager's verifying key.
    pub fn verify_zk_por(&self, proof_bytes: &[u8], total_reserve: u64) -> (ok: bool)
        ensures
            ok == groth16_accepts(self.verifying_key@, proof_bytes@, total_reserve),
    {
        groth16_check(self.verifying_key.as_slice(), proof_bytes, total_reserve)
    }
}

/// Gate of `ConfidentialTransfer`: accepts every proof.
pub fn verify_confidential_proof(_commitment: &[u8; 32], _proof: &[u8]) -> (ok: bool)
    ensures
        ok,
{
    true
}

/// Gate of `ProveCompliance`: accepts every proof.
pub fn verify_compliance_proof(_tx_hash: &[u8; 32], _proof: &[u8]) -> (ok: bool)
    ensures
        ok,
{
    true
}

/// Gate of `ZkTaxAttest`: accepts every proof.
pub fn verify_tax_attestation_proof(_period: u64, _proof: &[u8]) -> (ok: bool)
    ensures
        ok,
{
    true
}

/// Gate of `MultiJurisdictionalCheck`: accepts every proof.
pub fn verify_multi_jurisdictional_proof(_jurisdiction_id: u32, _proof: &[u8]) -> (ok: bool)
    ensures
        ok,
{
    true
}

/// A bound proof is a 32-byte tag followed by a payload; it is accepted when
/// the tag is the digest of the context followed by the payload.
pub open spec fn bound_proof_accepts(context: Seq<u8>, proof: Seq<u8>) -> bool {
    proof.len() >= 32 && proof.subrange(0, 32) == blake3_digest(
        context + proof.subrange(32, proof.len() as int),
    )
}

/// Whether a tag matches what the hash function gave for context and
/// payload. This is the whole decision on a bound proof once the digest is
/// known.
pub fn tag_matches(tag: &[u8], digest: &[u8; 32]) -> (ok: bool)
    ensures
        ok == (tag@ == digest@),
{
    bytes_eq(tag, digest.as_slice())
}

/// Checks a bound proof against its context.
pub fn verify_bound_proof(context: &[u8], proof: &[u8]) -> (ok: bool)
    ensures
        ok == bound_proof_accepts(context@, proof@),
{
    if proof.len() < 32 {
        return false;
    }
    let mut preimage = copy_bytes(context);
    append_bytes(&mut preimage, slice_subrange(proof, 32, proof.len()));
    let digest = blake3_hash(preimage.as_slice());
    tag_matches(slice_subrange(proof, 0, 32), &digest)
}

/// The context of green-energy proofs.
pub open spec fn green_energy_context() -> Seq<u8> {
    encode_utf8("green-energy"@)
}

/// Gate of `RegisterGreenValidator`: a bound proof under the green-energy
/// context.
pub fn verify_green_energy_proof(proof: &[u8]) -> (ok: bool)
    ensures
        ok == bound_proof_accepts(green_energy_context(), proof@),
{
    verify_bound_proof("green-energy".as_bytes(), proof)
}

/// The context of credit-score proofs: the digest of their domain name.
pub open spec fn credit_score_context() -> Seq<u8> {
    blake3_digest(encode_utf8("credit-score"@))
}

/// Gate of `MintWithCreditScore`: a bound proof under the credit-score
/// context.
pub fn verify_credit_score_proof(proof: &[u8]) -> (ok: bool)
    ensures
        ok == bound_proof_accepts(credit_score_context(), proof@),
{
    let context = blake3_hash("credit-score".as_bytes());
    verify_bound_proof(context.as_slice(), proof)
}

/// The context that binds a proof to an amount: the digest of the amount's
/// eight little-endian bytes.
pub open spec fn amount_context(amount: u64) -> Seq<u8> {
    blake3_digest(spec_u64_to_le_bytes(amount))
}

/// Gate of `ListRWA`: a bound proof under the context of the attested value.
pub fn verify_rwa_attestation(proof: &[u8], attested_value: u64) -> (ok: bool)
    ensures
        ok == bound_proof_accepts(amount_context(attested_value), proof@),
{
    let amount = u64_to_le_bytes(attested_value);
    let context = blake3_hash(amount.as_slice());
    verify_bound_proof(context.as_slice(), proof)
}

/// Gate of `ClaimInsurance`: a bound proof under the context of the claimed
/// amount.
pub fn verify_insurance_loss_proof(proof: &[u8], claimed_amount: u64) -> (ok: bool)
    ensures
        ok == bound_proof_accepts(amount_context(claimed_amount), proof@),
{
    let amount = u64_to_le_bytes(claimed_amount);
    let context = blake3_hash(amount.as_slice());
    verify_bound_proof(context.as_slice(), proof)
}

} // verus!
