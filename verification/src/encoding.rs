//! The canonical wire form: integers in fixed-width little-endian, byte
//! strings, texts and lists behind a 64-bit length, fixed arrays without a
//! length, options behind one byte, and enum variants behind a 32-bit tag.
//! Signing bytes, transaction ids and the state commitment are computed over
//! this form, so it is part of consensus.

use crate::account::{AccountModel, AccountState, StreamState, TickerTable, YieldPosition};
use crate::bytes::{append_bytes, Address};
use crate::instruction::{AssetType, StablecoinInstruction};
use vstd::bytes::{
    spec_u16_to_le_bytes, spec_u32_to_le_bytes, spec_u64_to_le_bytes, u16_to_le_bytes,
    u32_to_le_bytes, u64_to_le_bytes,
};
use vstd::prelude::*;
use vstd::utf8::encode_utf8;

verus! {

/// One byte: 1 for true, 0 for false.
pub open spec fn enc_bool(b: bool) -> Seq<u8> {
    if b {
        seq![1u8]
    } else {
        seq![0u8]
    }
}

/// A length as a 64-bit little-endian integer.
pub open spec fn enc_len(n: nat) -> Seq<u8> {
    spec_u64_to_le_bytes(n as u64)
}

/// A byte string: its length, then its bytes.
pub open spec fn enc_bytes(b: Seq<u8>) -> Seq<u8> {
    enc_len(b.len()) + b
}

/// A text: the length of its UTF-8 form, then that form.
pub open spec fn enc_text(t: Seq<char>) -> Seq<u8> {
    enc_bytes(encode_utf8(t))
}

/// An optional 64-bit integer.
pub open spec fn enc_opt_u64(v: Option<u64>) -> Seq<u8> {
    match v {
        Some(x) => seq![1u8] + spec_u64_to_le_bytes(x),
        None => seq![0u8],
    }
}

/// An optional byte string.
pub open spec fn enc_opt_bytes(v: Option<Seq<u8>>) -> Seq<u8> {
    match v {
        Some(b) => seq![1u8] + enc_bytes(b),
        None => seq![0u8],
    }
}

/// An optional 32-byte array.
pub open spec fn enc_opt_addr(v: Option<[u8; 32]>) -> Seq<u8> {
    match v {
        Some(a) => seq![1u8] + a@,
        None => seq![0u8],
    }
}

/// The first `n` arrays of a list, one after the other.
pub open spec fn enc_addrs_upto(list: Seq<[u8; 32]>, n: int) -> Seq<u8>
    decreases n,
{
    if n <= 0 {
        Seq::empty()
    } else {
        enc_addrs_upto(list, n - 1) + list[n - 1]@
    }
}

/// A list of 32-byte arrays: its length, then the arrays.
pub open spec fn enc_addr_list(list: Seq<[u8; 32]>) -> Seq<u8> {
    enc_len(list.len()) + enc_addrs_upto(list, list.len() as int)
}

/// The first `n` byte strings of a list, each behind its length.
pub open spec fn enc_blobs_upto(list: Seq<Vec<u8>>, n: int) -> Seq<u8>
    decreases n,
{
    if n <= 0 {
        Seq::empty()
    } else {
        enc_blobs_upto(list, n - 1) + enc_bytes(list[n - 1]@)
    }
}

/// A list of byte strings: its length, then the strings.
pub open spec fn enc_blob_list(list: Seq<Vec<u8>>) -> Seq<u8> {
    enc_len(list.len()) + enc_blobs_upto(list, list.len() as int)
}

/// An asset: its variant tag, and the ticker of a custom asset.
pub open spec fn enc_asset(asset: AssetType) -> Seq<u8> {
    match asset {
        AssetType::LUSD => spec_u32_to_le_bytes(0),
        AssetType::LJUN => spec_u32_to_le_bytes(1),
        AssetType::Lumina => spec_u32_to_le_bytes(2),
        AssetType::Custom(t) => spec_u32_to_le_bytes(3) + enc_text(t@),
    }
}

/// Appends one byte.
pub fn put_u8(out: &mut Vec<u8>, x: u8)
    ensures
        final(out)@ == old(out)@ + seq![x],
{
    out.push(x);
    assert(out@ =~= old(out)@ + seq![x]);
}

/// Appends a truth value.
pub fn put_bool(out: &mut Vec<u8>, b: bool)
    ensures
        final(out)@ == old(out)@ + enc_bool(b),
{
    if b {
        put_u8(out, 1);
    } else {
        put_u8(out, 0);
    }
}

/// Appends a 16-bit integer.
pub fn put_u16(out: &mut Vec<u8>, x: u16)
    ensures
        final(out)@ == old(out)@ + spec_u16_to_le_bytes(x),
{
    let b = u16_to_le_bytes(x);
    append_bytes(out, b.as_slice());
}

/// Appends a 32-bit integer.
pub fn put_u32(out: &mut Vec<u8>, x: u32)
    ensures
        final(out)@ == old(out)@ + spec_u32_to_le_bytes(x),
{
    let b = u32_to_le_bytes(x);
    append_bytes(out, b.as_slice());
}

/// Appends a 64-bit integer.
pub fn put_u64(out: &mut Vec<u8>, x: u64)
    ensures
        final(out)@ == old(out)@ + spec_u64_to_le_bytes(x),
{
    let b = u64_to_le_bytes(x);
    append_bytes(out, b.as_slice());
}

/// Appends a byte string behind its length.
pub fn put_bytes(out: &mut Vec<u8>, b: &[u8])
    ensures
        final(out)@ == old(out)@ + enc_bytes(b@),
{
    put_u64(out, b.len() as u64);
    append_bytes(out, b);
    assert(out@ =~= old(out)@ + enc_bytes(b@));
}

/// Appends a text.
pub fn put_text(out: &mut Vec<u8>, t: &String)
    ensures
        final(out)@ == old(out)@ + enc_text(t@),
{
    put_bytes(out, t.as_str().as_bytes());
}

/// Appends a 32-byte array.
pub fn put_addr(out: &mut Vec<u8>, a: &[u8; 32])
    ensures
        final(out)@ == old(out)@ + a@,
{
    append_bytes(out, a.as_slice());
}

/// Appends an optional 64-bit integer.
pub fn put_opt_u64(out: &mut Vec<u8>, v: &Option<u64>)
    ensures
        final(out)@ == old(out)@ + enc_opt_u64(*v),
{
    match v {
        Some(x) => {
            put_u8(out, 1);
            put_u64(out, *x);
            assert(out@ =~= old(out)@ + enc_opt_u64(*v));
        },
        None => {
            put_u8(out, 0);
        },
    }
}

/// Appends an optional byte string.
pub fn put_opt_bytes(out: &mut Vec<u8>, v: &Option<Vec<u8>>)
    ensures
        final(out)@ == old(out)@ + enc_opt_bytes(crate::account::opt_bytes_view(*v)),
{
    match v {
        Some(b) => {
            put_u8(out, 1);
            put_bytes(out, b.as_slice());
            assert(out@ =~= old(out)@ + enc_opt_bytes(Some(b@)));
        },
        None => {
            put_u8(out, 0);
        },
    }
}

/// Appends an optional 32-byte array.
pub fn put_opt_addr(out: &mut Vec<u8>, v: &Option<[u8; 32]>)
    ensures
        final(out)@ == old(out)@ + enc_opt_addr(*v),
{
    match v {
        Some(a) => {
            put_u8(out, 1);
            put_addr(out, a);
            assert(out@ =~= old(out)@ + enc_opt_addr(*v));
        },
        None => {
            put_u8(out, 0);
        },
    }
}

/// Appends a list of 32-byte arrays.
pub fn put_addr_list(out: &mut Vec<u8>, list: &Vec<[u8; 32]>)
    ensures
        final(out)@ == old(out)@ + enc_addr_list(list@),
{
    put_u64(out, list.len() as u64);
    let ghost base = out@;
    let mut i: usize = 0;
    while i < list.len()
        invariant
            i <= list@.len(),
            out@ == base + enc_addrs_upto(list@, i as int),
        decreases list@.len() - i,
    {
        put_addr(out, &list[i]);
        assert(out@ =~= base + enc_addrs_upto(list@, i + 1));
        i = i + 1;
    }
    assert(out@ =~= old(out)@ + enc_addr_list(list@));
}

/// Appends a list of byte strings.
pub fn put_blob_list(out: &mut Vec<u8>, list: &Vec<Vec<u8>>)
    ensures
        final(out)@ == old(out)@ + enc_blob_list(list@),
{
    put_u64(out, list.len() as u64);
    let ghost base = out@;
    let mut i: usize = 0;
    while i < list.len()
        invariant
            i <= list@.len(),
            out@ == base + enc_blobs_upto(list@, i as int),
        decreases list@.len() - i,
    {
        put_bytes(out, list[i].as_slice());
        assert(out@ =~= base + enc_blobs_upto(list@, i + 1));
        i = i + 1;
    }
    assert(out@ =~= old(out)@ + enc_blob_list(list@));
}

/// Appends an asset.
pub fn put_asset(out: &mut Vec<u8>, asset: &AssetType)
    ensures
        final(out)@ == old(out)@ + enc_asset(*asset),
{
    match asset {
        AssetType::LUSD => {
            put_u32(out, 0);
        },
        AssetType::LJUN => {
            put_u32(out, 1);
        },
        AssetType::Lumina => {
            put_u32(out, 2);
        },
        AssetType::Custom(t) => {
            put_u32(out, 3);
            put_text(out, t);
            assert(out@ =~= old(out)@ + enc_asset(*asset));
        },
    }
}

} // verus!

verus! {

/// An instruction: its variant tag, counted from zero in the order of
/// declaration, then its fields in the order of declaration.
pub open spec fn enc_instruction(si: StablecoinInstruction) -> Seq<u8> {
    match si {
        StablecoinInstruction::RegisterAsset { ticker, decimals } => Seq::<u8>::empty() + spec_u32_to_le_bytes(0) + enc_text(ticker@) + seq![decimals],
        StablecoinInstruction::MintSenior { amount, collateral_amount, proof } => Seq::<u8>::empty() + spec_u32_to_le_bytes(1) + spec_u64_to_le_bytes(amount) + spec_u64_to_le_bytes(collateral_amount) + enc_bytes(proof@),
        StablecoinInstruction::RedeemSenior { amount } => Seq::<u8>::empty() + spec_u32_to_le_bytes(2) + spec_u64_to_le_bytes(amount),
        StablecoinInstruction::MintJunior { amount, collateral_amount } => Seq::<u8>::empty() + spec_u32_to_le_bytes(3) + spec_u64_to_le_bytes(amount) + spec_u64_to_le_bytes(collateral_amount),
        StablecoinInstruction::RedeemJunior { amount } => Seq::<u8>::empty() + spec_u32_to_le_bytes(4) + spec_u64_to_le_bytes(amount),
        StablecoinInstruction::Burn { amount, asset } => Seq::<u8>::empty() + spec_u32_to_le_bytes(5) + spec_u64_to_le_bytes(amount) + enc_asset(asset),
        StablecoinInstruction::Transfer { to, amount, asset } => Seq::<u8>::empty() + spec_u32_to_le_bytes(6) + to@ + spec_u64_to_le_bytes(amount) + enc_asset(asset),
        StablecoinInstruction::RebalanceTranches => Seq::<u8>::empty() + spec_u32_to_le_bytes(7),
        StablecoinInstruction::DistributeYield { total_yield } => Seq::<u8>::empty() + spec_u32_to_le_bytes(8) + spec_u64_to_le_bytes(total_yield),
        StablecoinInstruction::TriggerStabilizer => Seq::<u8>::empty() + spec_u32_to_le_bytes(9),
        StablecoinInstruction::RunCircuitBreaker { active } => Seq::<u8>::empty() + spec_u32_to_le_bytes(10) + enc_bool(active),
        StablecoinInstruction::FairRedeemQueue { batch_size } => Seq::<u8>::empty() + spec_u32_to_le_bytes(11) + spec_u32_to_le_bytes(batch_size),
        StablecoinInstruction::ConfidentialTransfer { commitment, proof } => Seq::<u8>::empty() + spec_u32_to_le_bytes(12) + commitment@ + enc_bytes(proof@),
        StablecoinInstruction::ProveCompliance { tx_hash, proof } => Seq::<u8>::empty() + spec_u32_to_le_bytes(13) + tx_hash@ + enc_bytes(proof@),
        StablecoinInstruction::ZkTaxAttest { period, proof } => Seq::<u8>::empty() + spec_u32_to_le_bytes(14) + spec_u64_to_le_bytes(period) + enc_bytes(proof@),
        StablecoinInstruction::MultiJurisdictionalCheck { jurisdiction_id, proof } => Seq::<u8>::empty() + spec_u32_to_le_bytes(15) + spec_u32_to_le_bytes(jurisdiction_id) + enc_bytes(proof@),
        StablecoinInstruction::UpdateOracle { asset, price, timestamp, signature } => Seq::<u8>::empty() + spec_u32_to_le_bytes(16) + enc_text(asset@) + spec_u64_to_le_bytes(price) + spec_u64_to_le_bytes(timestamp) + enc_bytes(signature@),
        StablecoinInstruction::SubmitZkPoR { proof, total_reserves, timestamp } => Seq::<u8>::empty() + spec_u32_to_le_bytes(17) + enc_bytes(proof@) + spec_u64_to_le_bytes(total_reserves) + spec_u64_to_le_bytes(timestamp),
        StablecoinInstruction::InstantFiatBridge { amount, target_bank_id, mpc_sig } => Seq::<u8>::empty() + spec_u32_to_le_bytes(18) + spec_u64_to_le_bytes(amount) + target_bank_id@ + enc_bytes(mpc_sig@),
        StablecoinInstruction::ZeroSlipBatchMatch { orders } => Seq::<u8>::empty() + spec_u32_to_le_bytes(19) + enc_addr_list(orders@),
        StablecoinInstruction::DynamicHedge { ratio_bps } => Seq::<u8>::empty() + spec_u32_to_le_bytes(20) + spec_u64_to_le_bytes(ratio_bps),
        StablecoinInstruction::GeoRebalance { zone_id } => Seq::<u8>::empty() + spec_u32_to_le_bytes(21) + spec_u32_to_le_bytes(zone_id),
        StablecoinInstruction::VelocityIncentive { multiplier_bps } => Seq::<u8>::empty() + spec_u32_to_le_bytes(22) + spec_u64_to_le_bytes(multiplier_bps),
        StablecoinInstruction::StreamPayment { to, amount_per_sec, duration } => Seq::<u8>::empty() + spec_u32_to_le_bytes(23) + to@ + spec_u64_to_le_bytes(amount_per_sec) + spec_u64_to_le_bytes(duration),
        StablecoinInstruction::RegisterValidator { pubkey, stake } => Seq::<u8>::empty() + spec_u32_to_le_bytes(24) + pubkey@ + spec_u64_to_le_bytes(stake),
        StablecoinInstruction::Vote { proposal_id, approve } => Seq::<u8>::empty() + spec_u32_to_le_bytes(25) + spec_u64_to_le_bytes(proposal_id) + enc_bool(approve),
        StablecoinInstruction::CreatePasskeyAccount { device_key, guardians } => Seq::<u8>::empty() + spec_u32_to_le_bytes(26) + enc_bytes(device_key@) + enc_addr_list(guardians@),
        StablecoinInstruction::RecoverSocial { new_device_key, guardian_signatures } => Seq::<u8>::empty() + spec_u32_to_le_bytes(27) + enc_bytes(new_device_key@) + enc_blob_list(guardian_signatures@),
        StablecoinInstruction::ClaimVelocityReward { epoch, tx_volume } => Seq::<u8>::empty() + spec_u32_to_le_bytes(28) + spec_u64_to_le_bytes(epoch) + spec_u64_to_le_bytes(tx_volume),
        StablecoinInstruction::RegisterCustodian { stake, mpc_pubkeys } => Seq::<u8>::empty() + spec_u32_to_le_bytes(29) + spec_u64_to_le_bytes(stake) + enc_addr_list(mpc_pubkeys@),
        StablecoinInstruction::RotateReserves { new_custodian_set } => Seq::<u8>::empty() + spec_u32_to_le_bytes(30) + enc_addr_list(new_custodian_set@),
        StablecoinInstruction::ClaimInsurance { loss_proof, claimed_amount } => Seq::<u8>::empty() + spec_u32_to_le_bytes(31) + enc_bytes(loss_proof@) + spec_u64_to_le_bytes(claimed_amount),
        StablecoinInstruction::SwitchToPQSignature { new_pq_pubkey } => Seq::<u8>::empty() + spec_u32_to_le_bytes(32) + enc_bytes(new_pq_pubkey@),
        StablecoinInstruction::RegisterGreenValidator { energy_proof } => Seq::<u8>::empty() + spec_u32_to_le_bytes(33) + enc_bytes(energy_proof@),
        StablecoinInstruction::UploadComplianceCircuit { circuit_id, verifier_key } => Seq::<u8>::empty() + spec_u32_to_le_bytes(34) + spec_u64_to_le_bytes(circuit_id) + enc_bytes(verifier_key@),
        StablecoinInstruction::FlashMint { amount, collateral_asset, collateral_amount, commitment } => Seq::<u8>::empty() + spec_u32_to_le_bytes(35) + spec_u64_to_le_bytes(amount) + enc_asset(collateral_asset) + spec_u64_to_le_bytes(collateral_amount) + commitment@,
        StablecoinInstruction::FlashBurn { amount } => Seq::<u8>::empty() + spec_u32_to_le_bytes(36) + spec_u64_to_le_bytes(amount),
        StablecoinInstruction::InstantRedeem { amount, destination } => Seq::<u8>::empty() + spec_u32_to_le_bytes(37) + spec_u64_to_le_bytes(amount) + destination@,
        StablecoinInstruction::MintWithCreditScore { amount, collateral_amount, credit_score_proof, min_score_threshold, oracle } => Seq::<u8>::empty() + spec_u32_to_le_bytes(38) + spec_u64_to_le_bytes(amount) + spec_u64_to_le_bytes(collateral_amount) + enc_bytes(credit_score_proof@) + spec_u16_to_le_bytes(min_score_threshold) + oracle@,
        StablecoinInstruction::WrapToYieldToken { amount, maturity_blocks } => Seq::<u8>::empty() + spec_u32_to_le_bytes(39) + spec_u64_to_le_bytes(amount) + spec_u64_to_le_bytes(maturity_blocks),
        StablecoinInstruction::UnwrapYieldToken { token_id } => Seq::<u8>::empty() + spec_u32_to_le_bytes(40) + spec_u64_to_le_bytes(token_id),
        StablecoinInstruction::ListRWA { asset_description, attested_value, attestation_proof, maturity_date, collateral_eligibility } => Seq::<u8>::empty() + spec_u32_to_le_bytes(41) + enc_text(asset_description@) + spec_u64_to_le_bytes(attested_value) + enc_bytes(attestation_proof@) + enc_opt_u64(maturity_date) + enc_bool(collateral_eligibility),
        StablecoinInstruction::UseRWAAsCollateral { rwa_id, amount_to_pledge } => Seq::<u8>::empty() + spec_u32_to_le_bytes(42) + spec_u64_to_le_bytes(rwa_id) + spec_u64_to_le_bytes(amount_to_pledge),
        StablecoinInstruction::ComputeHealthIndex => Seq::<u8>::empty() + spec_u32_to_le_bytes(43),
    }
}

/// The wire form of an instruction.
pub fn encode_instruction(si: &StablecoinInstruction) -> (b: Vec<u8>)
    ensures
        b@ == enc_instruction(*si),
{
    let mut b: Vec<u8> = Vec::new();
    match si {
        StablecoinInstruction::RegisterAsset { ticker, decimals } => {
            put_u32(&mut b, 0);
            put_text(&mut b, ticker);
            put_u8(&mut b, *decimals);
        },
        StablecoinInstruction::MintSenior { amount, collateral_amount, proof } => {
            put_u32(&mut b, 1);
            put_u64(&mut b, *amount);
            put_u64(&mut b, *collateral_amount);
            put_bytes(&mut b, proof.as_slice());
        },
        StablecoinInstruction::RedeemSenior { amount } => {
            put_u32(&mut b, 2);
            put_u64(&mut b, *amount);
        },
        StablecoinInstruction::MintJunior { amount, collateral_amount } => {
            put_u32(&mut b, 3);
            put_u64(&mut b, *amount);
            put_u64(&mut b, *collateral_amount);
        },
        StablecoinInstruction::RedeemJunior { amount } => {
            put_u32(&mut b, 4);
            put_u64(&mut b, *amount);
        },
        StablecoinInstruction::Burn { amount, asset } => {
            put_u32(&mut b, 5);
            put_u64(&mut b, *amount);
            put_asset(&mut b, asset);
        },
        StablecoinInstruction::Transfer { to, amount, asset } => {
            put_u32(&mut b, 6);
            put_addr(&mut b, to);
            put_u64(&mut b, *amount);
            put_asset(&mut b, asset);
        },
        StablecoinInstruction::RebalanceTranches => {
            put_u32(&mut b, 7);
        },
        StablecoinInstruction::DistributeYield { total_yield } => {
            put_u32(&mut b, 8);
            put_u64(&mut b, *total_yield);
        },
        StablecoinInstruction::TriggerStabilizer => {
            put_u32(&mut b, 9);
        },
        StablecoinInstruction::RunCircuitBreaker { active } => {
            put_u32(&mut b, 10);
            put_bool(&mut b, *active);
        },
        StablecoinInstruction::FairRedeemQueue { batch_size } => {
            put_u32(&mut b, 11);
            put_u32(&mut b, *batch_size);
        },
        StablecoinInstruction::ConfidentialTransfer { commitment, proof } => {
            put_u32(&mut b, 12);
            put_addr(&mut b, commitment);
            put_bytes(&mut b, proof.as_slice());
        },
        StablecoinInstruction::ProveCompliance { tx_hash, proof } => {
            put_u32(&mut b, 13);
            put_addr(&mut b, tx_hash);
            put_bytes(&mut b, proof.as_slice());
        },
        StablecoinInstruction::ZkTaxAttest { period, proof } => {
            put_u32(&mut b, 14);
            put_u64(&mut b, *period);
            put_bytes(&mut b, proof.as_slice());
        },
        StablecoinInstruction::MultiJurisdictionalCheck { jurisdiction_id, proof } => {
            put_u32(&mut b, 15);
            put_u32(&mut b, *jurisdiction_id);
            put_bytes(&mut b, proof.as_slice());
        },
        StablecoinInstruction::UpdateOracle { asset, price, timestamp, signature } => {
            put_u32(&mut b, 16);
            put_text(&mut b, asset);
            put_u64(&mut b, *price);
            put_u64(&mut b, *timestamp);
            put_bytes(&mut b, signature.as_slice());
        },
        StablecoinInstruction::SubmitZkPoR { proof, total_reserves, timestamp } => {
            put_u32(&mut b, 17);
            put_bytes(&mut b, proof.as_slice());
            put_u64(&mut b, *total_reserves);
            put_u64(&mut b, *timestamp);
        },
        StablecoinInstruction::InstantFiatBridge { amount, target_bank_id, mpc_sig } => {
            put_u32(&mut b, 18);
            put_u64(&mut b, *amount);
            append_bytes(&mut b, target_bank_id.as_slice());
            put_bytes(&mut b, mpc_sig.as_slice());
        },
        StablecoinInstruction::ZeroSlipBatchMatch { orders } => {
            put_u32(&mut b, 19);
            put_addr_list(&mut b, orders);
        },
        StablecoinInstruction::DynamicHedge { ratio_bps } => {
            put_u32(&mut b, 20);
            put_u64(&mut b, *ratio_bps);
        },
        StablecoinInstruction::GeoRebalance { zone_id } => {
            put_u32(&mut b, 21);
            put_u32(&mut b, *zone_id);
        },
        StablecoinInstruction::VelocityIncentive { multiplier_bps } => {
            put_u32(&mut b, 22);
            put_u64(&mut b, *multiplier_bps);
        },
        StablecoinInstruction::StreamPayment { to, amount_per_sec, duration } => {
            put_u32(&mut b, 23);
            put_addr(&mut b, to);
            put_u64(&mut b, *amount_per_sec);
            put_u64(&mut b, *duration);
        },
        StablecoinInstruction::RegisterValidator { pubkey, stake } => {
            put_u32(&mut b, 24);
            put_addr(&mut b, pubkey);
            put_u64(&mut b, *stake);
        },
        StablecoinInstruction::Vote { proposal_id, approve } => {
            put_u32(&mut b, 25);
            put_u64(&mut b, *proposal_id);
            put_bool(&mut b, *approve);
        },
        StablecoinInstruction::CreatePasskeyAccount { device_key, guardians } => {
            put_u32(&mut b, 26);
            put_bytes(&mut b, device_key.as_slice());
            put_addr_list(&mut b, guardians);
        },
        StablecoinInstruction::RecoverSocial { new_device_key, guardian_signatures } => {
            put_u32(&mut b, 27);
            put_bytes(&mut b, new_device_key.as_slice());
            put_blob_list(&mut b, guardian_signatures);
        },
        StablecoinInstruction::ClaimVelocityReward { epoch, tx_volume } => {
            put_u32(&mut b, 28);
            put_u64(&mut b, *epoch);
            put_u64(&mut b, *tx_volume);
        },
        StablecoinInstruction::RegisterCustodian { stake, mpc_pubkeys } => {
            put_u32(&mut b, 29);
            put_u64(&mut b, *stake);
            put_addr_list(&mut b, mpc_pubkeys);
        },
        StablecoinInstruction::RotateReserves { new_custodian_set } => {
            put_u32(&mut b, 30);
            put_addr_list(&mut b, new_custodian_set);
        },
        StablecoinInstruction::ClaimInsurance { loss_proof, claimed_amount } => {
            put_u32(&mut b, 31);
            put_bytes(&mut b, loss_proof.as_slice());
            put_u64(&mut b, *claimed_amount);
        },
        StablecoinInstruction::SwitchToPQSignature { new_pq_pubkey } => {
            put_u32(&mut b, 32);
            put_bytes(&mut b, new_pq_pubkey.as_slice());
        },
        StablecoinInstruction::RegisterGreenValidator { energy_proof } => {
            put_u32(&mut b, 33);
            put_bytes(&mut b, energy_proof.as_slice());
        },
        StablecoinInstruction::UploadComplianceCircuit { circuit_id, verifier_key } => {
            put_u32(&mut b, 34);
            put_u64(&mut b, *circuit_id);
            put_bytes(&mut b, verifier_key.as_slice());
        },
        StablecoinInstruction::FlashMint { amount, collateral_asset, collateral_amount, commitment } => {
            put_u32(&mut b, 35);
            put_u64(&mut b, *amount);
            put_asset(&mut b, collateral_asset);
            put_u64(&mut b, *collateral_amount);
            put_addr(&mut b, commitment);
        },
        StablecoinInstruction::FlashBurn { amount } => {
            put_u32(&mut b, 36);
            put_u64(&mut b, *amount);
        },
        StablecoinInstruction::InstantRedeem { amount, destination } => {
            put_u32(&mut b, 37);
            put_u64(&mut b, *amount);
            put_addr(&mut b, destination);
        },
        StablecoinInstruction::MintWithCreditScore { amount, collateral_amount, credit_score_proof, min_score_threshold, oracle } => {
            put_u32(&mut b, 38);
            put_u64(&mut b, *amount);
            put_u64(&mut b, *collateral_amount);
            put_bytes(&mut b, credit_score_proof.as_slice());
            put_u16(&mut b, *min_score_threshold);
            put_addr(&mut b, oracle);
        },
        StablecoinInstruction::WrapToYieldToken { amount, maturity_blocks } => {
            put_u32(&mut b, 39);
            put_u64(&mut b, *amount);
            put_u64(&mut b, *maturity_blocks);
        },
        StablecoinInstruction::UnwrapYieldToken { token_id } => {
            put_u32(&mut b, 40);
            put_u64(&mut b, *token_id);
        },
        StablecoinInstruction::ListRWA { asset_description, attested_value, attestation_proof, maturity_date, collateral_eligibility } => {
            put_u32(&mut b, 41);
            put_text(&mut b, asset_description);
            put_u64(&mut b, *attested_value);
            put_bytes(&mut b, attestation_proof.as_slice());
            put_opt_u64(&mut b, maturity_date);
            put_bool(&mut b, *collateral_eligibility);
        },
        StablecoinInstruction::UseRWAAsCollateral { rwa_id, amount_to_pledge } => {
            put_u32(&mut b, 42);
            put_u64(&mut b, *rwa_id);
            put_u64(&mut b, *amount_to_pledge);
        },
        StablecoinInstruction::ComputeHealthIndex => {
            put_u32(&mut b, 43);
        },
    }
    b
}

/// What a transaction's signature covers: sender, nonce, instruction, gas
/// limit and gas price. The signature itself is left out.
pub open spec fn enc_signing(
    sender: Address,
    nonce: u64,
    instruction: StablecoinInstruction,
    gas_limit: u64,
    gas_price: u64,
) -> Seq<u8> {
    Seq::<u8>::empty() + sender@ + spec_u64_to_le_bytes(nonce) + enc_instruction(instruction)
        + spec_u64_to_le_bytes(gas_limit) + spec_u64_to_le_bytes(gas_price)
}

/// The bytes that a transaction's signature covers.
pub fn encode_signing(
    sender: &Address,
    nonce: u64,
    instruction: &StablecoinInstruction,
    gas_limit: u64,
    gas_price: u64,
) -> (b: Vec<u8>)
    ensures
        b@ == enc_signing(*sender, nonce, *instruction, gas_limit, gas_price),
{
    let mut b: Vec<u8> = Vec::new();
    put_addr(&mut b, sender);
    put_u64(&mut b, nonce);
    let body = encode_instruction(instruction);
    append_bytes(&mut b, body.as_slice());
    put_u64(&mut b, gas_limit);
    put_u64(&mut b, gas_price);
    b
}

} // verus!

verus! {

/// A stream: recipient, rate, start, end and what was withdrawn.
pub open spec fn enc_stream(x: StreamState) -> Seq<u8> {
    Seq::<u8>::empty() + x.recipient@ + spec_u64_to_le_bytes(x.amount_per_sec)
        + spec_u64_to_le_bytes(x.start_timestamp) + spec_u64_to_le_bytes(x.end_timestamp)
        + spec_u64_to_le_bytes(x.withdrawn)
}

/// A yield position: id, principal, maturity and issue height.
pub open spec fn enc_position(x: YieldPosition) -> Seq<u8> {
    Seq::<u8>::empty() + spec_u64_to_le_bytes(x.token_id) + spec_u64_to_le_bytes(x.principal)
        + spec_u64_to_le_bytes(x.maturity_height) + spec_u64_to_le_bytes(x.issued_height)
}

/// The first `n` streams of a list, one after the other.
pub open spec fn enc_streams_upto(list: Seq<StreamState>, n: int) -> Seq<u8>
    decreases n,
{
    if n <= 0 {
        Seq::empty()
    } else {
        enc_streams_upto(list, n - 1) + enc_stream(list[n - 1])
    }
}

/// The first `n` positions of a list, one after the other.
pub open spec fn enc_positions_upto(list: Seq<YieldPosition>, n: int) -> Seq<u8>
    decreases n,
{
    if n <= 0 {
        Seq::empty()
    } else {
        enc_positions_upto(list, n - 1) + enc_position(list[n - 1])
    }
}

/// The first `n` entries of a ticker table: each ticker as a text, then its
/// amount.
pub open spec fn enc_tickers_upto(table: Seq<(Seq<char>, u64)>, n: int) -> Seq<u8>
    decreases n,
{
    if n <= 0 {
        Seq::empty()
    } else {
        enc_tickers_upto(table, n - 1) + enc_text(table[n - 1].0) + spec_u64_to_le_bytes(
            table[n - 1].1,
        )
    }
}

/// An account: its fields in the order of declaration; each list behind its
/// length.
pub open spec fn enc_account(a: AccountModel) -> Seq<u8> {
    Seq::<u8>::empty() + spec_u64_to_le_bytes(a.nonce) + spec_u64_to_le_bytes(a.lusd_balance)
        + spec_u64_to_le_bytes(a.ljun_balance) + spec_u64_to_le_bytes(a.lumina_balance) + enc_len(
        a.custom_balances.len(),
    ) + enc_tickers_upto(a.custom_balances, a.custom_balances.len() as int) + enc_opt_addr(
        a.commitment,
    ) + enc_opt_bytes(a.passkey_device_key) + enc_addr_list(a.guardians) + enc_opt_bytes(a.pq_pubkey)
        + spec_u64_to_le_bytes(a.epoch_tx_volume) + spec_u64_to_le_bytes(a.last_reward_epoch)
        + spec_u16_to_le_bytes(a.credit_score) + enc_len(a.active_streams.len())
        + enc_streams_upto(a.active_streams, a.active_streams.len() as int) + enc_len(
        a.yield_positions.len(),
    ) + enc_positions_upto(a.yield_positions, a.yield_positions.len() as int)
        + spec_u64_to_le_bytes(a.pending_flash_mint) + spec_u64_to_le_bytes(
        a.pending_flash_collateral,
    )
}

/// Appends the entries of a ticker table.
pub fn put_tickers(out: &mut Vec<u8>, table: &TickerTable)
    ensures
        final(out)@ == old(out)@ + enc_tickers_upto(table@, table@.len() as int),
{
    let ghost base = out@;
    let mut i: usize = 0;
    assert(out@ =~= base + enc_tickers_upto(table@, 0));
    while i < table.entries.len()
        invariant
            i <= table.entries@.len(),
            table@.len() == table.entries@.len(),
            out@ == base + enc_tickers_upto(table@, i as int),
        decreases table.entries@.len() - i,
    {
        put_text(out, &table.entries[i].ticker);
        put_u64(out, table.entries[i].amount);
        assert(out@ =~= base + enc_tickers_upto(table@, i + 1));
        i = i + 1;
    }
}

/// Appends the streams of a list.
pub fn put_streams(out: &mut Vec<u8>, list: &Vec<StreamState>)
    ensures
        final(out)@ == old(out)@ + enc_streams_upto(list@, list@.len() as int),
{
    let ghost base = out@;
    let mut i: usize = 0;
    assert(out@ =~= base + enc_streams_upto(list@, 0));
    while i < list.len()
        invariant
            i <= list@.len(),
            out@ == base + enc_streams_upto(list@, i as int),
        decreases list@.len() - i,
    {
        let mut b: Vec<u8> = Vec::new();
        put_addr(&mut b, &list[i].recipient);
        put_u64(&mut b, list[i].amount_per_sec);
        put_u64(&mut b, list[i].start_timestamp);
        put_u64(&mut b, list[i].end_timestamp);
        put_u64(&mut b, list[i].withdrawn);
        append_bytes(out, b.as_slice());
        i = i + 1;
    }
}

/// Appends the positions of a list.
pub fn put_positions(out: &mut Vec<u8>, list: &Vec<YieldPosition>)
    ensures
        final(out)@ == old(out)@ + enc_positions_upto(list@, list@.len() as int),
{
    let ghost base = out@;
    let mut i: usize = 0;
    assert(out@ =~= base + enc_positions_upto(list@, 0));
    while i < list.len()
        invariant
            i <= list@.len(),
            out@ == base + enc_positions_upto(list@, i as int),
        decreases list@.len() - i,
    {
        let mut b: Vec<u8> = Vec::new();
        put_u64(&mut b, list[i].token_id);
        put_u64(&mut b, list[i].principal);
        put_u64(&mut b, list[i].maturity_height);
        put_u64(&mut b, list[i].issued_height);
        append_bytes(out, b.as_slice());
        i = i + 1;
    }
}

/// The wire form of an account.
pub fn encode_account(a: &AccountState) -> (b: Vec<u8>)
    ensures
        b@ == enc_account(a@),
{
    let mut b: Vec<u8> = Vec::new();
    put_u64(&mut b, a.nonce);
    put_u64(&mut b, a.lusd_balance);
    put_u64(&mut b, a.ljun_balance);
    put_u64(&mut b, a.lumina_balance);
    put_u64(&mut b, a.custom_balances.len() as u64);
    put_tickers(&mut b, &a.custom_balances);
    put_opt_addr(&mut b, &a.commitment);
    put_opt_bytes(&mut b, &a.passkey_device_key);
    put_addr_list(&mut b, &a.guardians);
    put_opt_bytes(&mut b, &a.pq_pubkey);
    put_u64(&mut b, a.epoch_tx_volume);
    put_u64(&mut b, a.last_reward_epoch);
    put_u16(&mut b, a.credit_score);
    put_u64(&mut b, a.active_streams.len() as u64);
    put_streams(&mut b, &a.active_streams);
    put_u64(&mut b, a.yield_positions.len() as u64);
    put_positions(&mut b, &a.yield_positions);
    put_u64(&mut b, a.pending_flash_mint);
    put_u64(&mut b, a.pending_flash_collateral);
    b
}

} // verus!
