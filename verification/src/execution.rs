//! The instruction executor and the transaction pipeline. An instruction is
//! executed in two steps: the outside verifiers and the hash function are
//! asked what they find on it, and the rules decide on the state and those
//! findings. A transaction is verified, its nonce is checked and counted, and
//! its instruction is executed; whatever fails leaves the state as it was.

use crate::account::AccountModel;
use crate::accounts::{accounts_get};
use crate::bytes::Address;
use crate::crypto::{groth16_accepts, hash32, hash_bytes, zero_hash, zero_hash_value};
use crate::encoding::{enc_addrs_upto, put_addr};
use crate::handlers::assets::{
    burn, burn_rule, mint_junior, mint_junior_rule, mint_senior, mint_senior_rule, redeem_junior,
    redeem_junior_rule, redeem_senior, redeem_senior_rule, register_asset, register_asset_rule,
    transfer, transfer_rule,
};
use crate::handlers::capital::{
    credit_mint_rule, flash_burn, flash_burn_rule, flash_mint, flash_mint_rule, list_rwa,
    list_rwa_rule, mint_with_credit_score, pledge_rwa_rule, unwrap_rule, unwrap_yield_token,
    use_rwa_as_collateral, wrap_rule, wrap_to_yield_token,
};
use crate::handlers::custody::{
    claim_insurance, claim_insurance_rule, register_custodian, register_custodian_rule,
    rotate_reserves, rotate_reserves_rule,
};
use crate::handlers::defi::{
    batch_match_rule, dynamic_hedge, dynamic_hedge_rule, fiat_bridge_rule, geo_rebalance,
    geo_rebalance_rule, instant_fiat_bridge, stream_payment, stream_payment_rule,
    velocity_incentive, velocity_incentive_rule, zero_slip_batch_match,
};
use crate::handlers::governance::{
    apply_recovery, claim_velocity_reward, claim_velocity_rule, create_passkey_account,
    create_passkey_rule, recover_social_rule, register_green_rule, register_green_validator,
    register_validator, register_validator_rule, switch_pq_rule, switch_to_pq_signature,
    upload_circuit_rule, upload_compliance_circuit, vote, vote_rule,
};
use crate::handlers::health::{compute_health_index, health_index_of, health_rule, run_health_index};
use crate::handlers::oracle::{
    attest, attestation_rule, confidential_transfer, confidential_transfer_rule, submit_por,
    submit_por_rule, update_oracle, update_oracle_rule,
};
use crate::handlers::stability::{
    circuit_breaker_rule, distribute_yield, distribute_yield_rule, fair_redeem_queue,
    fair_redeem_rule, rebalance_rule, rebalance_tranches, run_circuit_breaker, stabilizer_rule,
    trigger_stabilizer,
};
use crate::instruction::StablecoinInstruction;
use crate::proofs::{
    amount_context, bound_proof_accepts, credit_score_context, green_energy_context,
    verify_compliance_proof, verify_confidential_proof, verify_credit_score_proof,
    verify_green_energy_proof, verify_insurance_loss_proof, verify_multi_jurisdictional_proof,
    verify_rwa_attestation, verify_tax_attestation_proof, ZkManager,
};
use crate::recovery::{
    check_guardian_signatures, count_guardian_approvals, recovery_approvals, signatures_view,
};
use crate::rules::{step_matches, Evidence, ExecError};
use crate::state::{GlobalState, StateModel};
use vstd::prelude::*;

verus! {

/// The frame that instructions execute in: the state, and the height and
/// timestamp of the block, frozen for the whole block, with the verifier of
/// reserve proofs.
#[derive(Debug)]
pub struct ExecutionContext {
    pub state: GlobalState,
    pub height: u64,
    pub timestamp: u64,
    pub zk: ZkManager,
}

/// What the instruction's verifier finds on its proof; true for an
/// instruction that carries none, and for the gates that accept everything.
pub open spec fn proof_verdict(si: StablecoinInstruction, reserve_key: Seq<u8>) -> bool {
    match si {
        StablecoinInstruction::MintSenior { amount, collateral_amount, proof } => groth16_accepts(
            reserve_key,
            proof@,
            collateral_amount,
        ),
        StablecoinInstruction::SubmitZkPoR { proof, total_reserves, timestamp } => groth16_accepts(
            reserve_key,
            proof@,
            total_reserves,
        ),
        StablecoinInstruction::RegisterGreenValidator { energy_proof } => bound_proof_accepts(
            green_energy_context(),
            energy_proof@,
        ),
        StablecoinInstruction::MintWithCreditScore {
            amount,
            collateral_amount,
            credit_score_proof,
            min_score_threshold,
            oracle,
        } => bound_proof_accepts(credit_score_context(), credit_score_proof@),
        StablecoinInstruction::ListRWA {
            asset_description,
            attested_value,
            attestation_proof,
            maturity_date,
            collateral_eligibility,
        } => bound_proof_accepts(amount_context(attested_value), attestation_proof@),
        StablecoinInstruction::ClaimInsurance { loss_proof, claimed_amount } => bound_proof_accepts(
            amount_context(claimed_amount),
            loss_proof@,
        ),
        _ => true,
    }
}

/// The hash tag that replay protection keeps of an instruction: the digest
/// of a reserve or credit proof, or of a batch's orders one after the other;
/// the zero hash for every other instruction.
pub open spec fn instruction_digest(si: StablecoinInstruction) -> [u8; 32] {
    match si {
        StablecoinInstruction::SubmitZkPoR { proof, total_reserves, timestamp } => hash32(proof@),
        StablecoinInstruction::MintWithCreditScore {
            amount,
            collateral_amount,
            credit_score_proof,
            min_score_threshold,
            oracle,
        } => hash32(credit_score_proof@),
        StablecoinInstruction::ZeroSlipBatchMatch { orders } => hash32(
            enc_addrs_upto(orders@, orders@.len() as int),
        ),
        _ => zero_hash(),
    }
}

/// The number of distinct guardians that a recovery's signatures bind; zero
/// for every other instruction.
pub open spec fn instruction_approvals(si: StablecoinInstruction, guardians: Seq<Address>) -> u64 {
    match si {
        StablecoinInstruction::RecoverSocial {
            new_device_key,
            guardian_signatures,
        } => recovery_approvals(guardians, new_device_key@, signatures_view(guardian_signatures@)) as u64,
        _ => 0,
    }
}

/// What the verifiers and the hash function find on an instruction of a
/// sender with the given guardians.
pub open spec fn evidence_of(si: StablecoinInstruction, guardians: Seq<Address>, reserve_key: Seq<u8>) -> Evidence {
    Evidence {
        proof_ok: proof_verdict(si, reserve_key),
        digest: instruction_digest(si),
        approvals: instruction_approvals(si, guardians),
    }
}

/// The rule of the instruction set: what an instruction of `sender` does to
/// a state at a height and timestamp, given the evidence on it.
pub open spec fn instruction_rule(
    s: StateModel,
    si: StablecoinInstruction,
    sender: Address,
    height: u64,
    timestamp: u64,
    ev: Evidence,
) -> Result<StateModel, ExecError> {
    match si {
        StablecoinInstruction::RegisterAsset { ticker, decimals } => register_asset_rule(
            s,
            ticker@,
            decimals,
        ),
        StablecoinInstruction::MintSenior { amount, collateral_amount, proof } => mint_senior_rule(
            s,
            sender,
            amount,
            collateral_amount,
            proof@,
            ev.proof_ok,
        ),
        StablecoinInstruction::RedeemSenior { amount } => redeem_senior_rule(
            s,
            sender,
            amount,
            timestamp,
        ),
        StablecoinInstruction::MintJunior { amount, collateral_amount } => mint_junior_rule(
            s,
            sender,
            amount,
            collateral_amount,
        ),
        StablecoinInstruction::RedeemJunior { amount } => redeem_junior_rule(s, sender, amount),
        StablecoinInstruction::Burn { amount, asset } => burn_rule(s, sender, amount, asset),
        StablecoinInstruction::Transfer { to, amount, asset } => transfer_rule(
            s,
            sender,
            to,
            amount,
            asset,
        ),
        StablecoinInstruction::RebalanceTranches => rebalance_rule(s, height),
        StablecoinInstruction::DistributeYield { total_yield } => distribute_yield_rule(s, total_yield),
        StablecoinInstruction::TriggerStabilizer => stabilizer_rule(s),
        StablecoinInstruction::RunCircuitBreaker { active } => circuit_breaker_rule(s, active),
        StablecoinInstruction::FairRedeemQueue { batch_size } => fair_redeem_rule(s, batch_size),
        StablecoinInstruction::ConfidentialTransfer {
            commitment,
            proof,
        } => confidential_transfer_rule(s, sender, commitment, ev.proof_ok),
        StablecoinInstruction::ProveCompliance { tx_hash, proof } => attestation_rule(s, ev.proof_ok),
        StablecoinInstruction::ZkTaxAttest { period, proof } => attestation_rule(s, ev.proof_ok),
        StablecoinInstruction::MultiJurisdictionalCheck {
            jurisdiction_id,
            proof,
        } => attestation_rule(s, ev.proof_ok),
        StablecoinInstruction::UpdateOracle {
            asset,
            price,
            timestamp,
            signature,
        } => update_oracle_rule(s, asset@, price),
        StablecoinInstruction::SubmitZkPoR { proof, total_reserves, timestamp } => submit_por_rule(
            s,
            total_reserves,
            timestamp,
            ev.digest,
            ev.proof_ok,
        ),
        StablecoinInstruction::InstantFiatBridge {
            amount,
            target_bank_id,
            mpc_sig,
        } => fiat_bridge_rule(s, sender, amount),
        StablecoinInstruction::ZeroSlipBatchMatch { orders } => batch_match_rule(
            s,
            orders@,
            ev.digest,
        ),
        StablecoinInstruction::DynamicHedge { ratio_bps } => dynamic_hedge_rule(s, ratio_bps),
        StablecoinInstruction::GeoRebalance { zone_id } => geo_rebalance_rule(s, zone_id),
        StablecoinInstruction::VelocityIncentive { multiplier_bps } => velocity_incentive_rule(
            s,
            multiplier_bps,
        ),
        StablecoinInstruction::StreamPayment {
            to,
            amount_per_sec,
            duration,
        } => stream_payment_rule(s, sender, to, amount_per_sec, duration, timestamp),
        StablecoinInstruction::RegisterValidator { pubkey, stake } => register_validator_rule(
            s,
            sender,
            pubkey,
            stake,
        ),
        StablecoinInstruction::Vote { proposal_id, approve } => vote_rule(s, sender),
        StablecoinInstruction::CreatePasskeyAccount { device_key, guardians } => create_passkey_rule(
            s,
            sender,
            device_key@,
            guardians@,
        ),
        StablecoinInstruction::RecoverSocial {
            new_device_key,
            guardian_signatures,
        } => recover_social_rule(
            s,
            sender,
            new_device_key@,
            guardian_signatures@.len(),
            ev.approvals,
        ),
        StablecoinInstruction::ClaimVelocityReward { epoch, tx_volume } => claim_velocity_rule(
            s,
            sender,
            epoch,
            tx_volume,
        ),
        StablecoinInstruction::RegisterCustodian { stake, mpc_pubkeys } => register_custodian_rule(
            s,
            sender,
            stake,
            mpc_pubkeys@,
            height,
        ),
        StablecoinInstruction::RotateReserves { new_custodian_set } => rotate_reserves_rule(
            s,
            new_custodian_set@,
            height,
        ),
        StablecoinInstruction::ClaimInsurance { loss_proof, claimed_amount } => claim_insurance_rule(
            s,
            sender,
            claimed_amount,
            ev.proof_ok,
        ),
        StablecoinInstruction::SwitchToPQSignature { new_pq_pubkey } => switch_pq_rule(
            s,
            sender,
            new_pq_pubkey@,
        ),
        StablecoinInstruction::RegisterGreenValidator { energy_proof } => register_green_rule(
            s,
            sender,
            energy_proof@,
            ev.proof_ok,
        ),
        StablecoinInstruction::UploadComplianceCircuit {
            circuit_id,
            verifier_key,
        } => upload_circuit_rule(s, circuit_id, verifier_key@),
        StablecoinInstruction::FlashMint {
            amount,
            collateral_asset,
            collateral_amount,
            commitment,
        } => flash_mint_rule(s, sender, amount, collateral_amount),
        StablecoinInstruction::FlashBurn { amount } => flash_burn_rule(s, sender, amount),
        StablecoinInstruction::InstantRedeem { amount, destination } => redeem_senior_rule(
            s,
            sender,
            amount,
            timestamp,
        ),
        StablecoinInstruction::MintWithCreditScore {
            amount,
            collateral_amount,
            credit_score_proof,
            min_score_threshold,
            oracle,
        } => credit_mint_rule(
            s,
            sender,
            amount,
            collateral_amount,
            min_score_threshold,
            oracle,
            ev.digest,
            ev.proof_ok,
        ),
        StablecoinInstruction::WrapToYieldToken { amount, maturity_blocks } => wrap_rule(
            s,
            sender,
            amount,
            maturity_blocks,
            height,
        ),
        StablecoinInstruction::UnwrapYieldToken { token_id } => unwrap_rule(
            s,
            sender,
            token_id,
            height,
        ),
        StablecoinInstruction::ListRWA {
            asset_description,
            attested_value,
            attestation_proof,
            maturity_date,
            collateral_eligibility,
        } => list_rwa_rule(
            s,
            sender,
            asset_description@,
            attested_value,
            attestation_proof@,
            maturity_date,
            collateral_eligibility,
            ev.proof_ok,
        ),
        StablecoinInstruction::UseRWAAsCollateral { rwa_id, amount_to_pledge } => pledge_rwa_rule(
            s,
            sender,
            rwa_id,
            amount_to_pledge,
        ),
        StablecoinInstruction::ComputeHealthIndex => health_rule(s),
    }
}

/// Executes an instruction on the evidence given: the state changes as the
/// rule prescribes, or the rule's error is returned and nothing changes.
pub fn apply_instruction(
    si: &StablecoinInstruction,
    sender: &Address,
    ctx: &mut ExecutionContext,
    ev: &Evidence,
) -> (r: Result<(), ExecError>)
    ensures
        step_matches(
            old(ctx).state@,
            final(ctx).state@,
            r,
            instruction_rule(old(ctx).state@, *si, *sender, old(ctx).height, old(ctx).timestamp, *ev),
        ),
        final(ctx).height == old(ctx).height,
        final(ctx).timestamp == old(ctx).timestamp,
        final(ctx).zk == old(ctx).zk,
{
    let height = ctx.height;
    let timestamp = ctx.timestamp;
    let state = &mut ctx.state;
    match si {
        StablecoinInstruction::RegisterAsset { ticker, decimals } => register_asset(
            state,
            ticker,
            *decimals,
        ),
        StablecoinInstruction::MintSenior { amount, collateral_amount, proof } => mint_senior(
            state,
            sender,
            *amount,
            *collateral_amount,
            proof,
            ev.proof_ok,
        ),
        StablecoinInstruction::RedeemSenior { amount } => redeem_senior(
            state,
            sender,
            *amount,
            timestamp,
        ),
        StablecoinInstruction::MintJunior { amount, collateral_amount } => mint_junior(
            state,
            sender,
            *amount,
            *collateral_amount,
        ),
        StablecoinInstruction::RedeemJunior { amount } => redeem_junior(state, sender, *amount),
        StablecoinInstruction::Burn { amount, asset } => burn(state, sender, *amount, asset),
        StablecoinInstruction::Transfer { to, amount, asset } => transfer(
            state,
            sender,
            to,
            *amount,
            asset,
        ),
        StablecoinInstruction::RebalanceTranches => rebalance_tranches(state, height),
        StablecoinInstruction::DistributeYield { total_yield } => distribute_yield(state, *total_yield),
        StablecoinInstruction::TriggerStabilizer => trigger_stabilizer(state),
        StablecoinInstruction::RunCircuitBreaker { active } => run_circuit_breaker(state, *active),
        StablecoinInstruction::FairRedeemQueue { batch_size } => fair_redeem_queue(state, *batch_size),
        StablecoinInstruction::ConfidentialTransfer { commitment, proof } => confidential_transfer(
            state,
            sender,
            commitment,
            ev.proof_ok,
        ),
        StablecoinInstruction::ProveCompliance { tx_hash, proof } => attest(state, ev.proof_ok),
        StablecoinInstruction::ZkTaxAttest { period, proof } => attest(state, ev.proof_ok),
        StablecoinInstruction::MultiJurisdictionalCheck { jurisdiction_id, proof } => attest(
            state,
            ev.proof_ok,
        ),
        StablecoinInstruction::UpdateOracle { asset, price, timestamp, signature } => update_oracle(
            state,
            asset,
            *price,
        ),
        StablecoinInstruction::SubmitZkPoR { proof, total_reserves, timestamp } => submit_por(
            state,
            *total_reserves,
            *timestamp,
            &ev.digest,
            ev.proof_ok,
        ),
        StablecoinInstruction::InstantFiatBridge {
            amount,
            target_bank_id,
            mpc_sig,
        } => instant_fiat_bridge(state, sender, *amount),
        StablecoinInstruction::ZeroSlipBatchMatch { orders } => zero_slip_batch_match(
            state,
            orders,
            &ev.digest,
        ),
        StablecoinInstruction::DynamicHedge { ratio_bps } => dynamic_hedge(state, *ratio_bps),
        StablecoinInstruction::GeoRebalance { zone_id } => geo_rebalance(state, *zone_id),
        StablecoinInstruction::VelocityIncentive { multiplier_bps } => velocity_incentive(
            state,
            *multiplier_bps,
        ),
        StablecoinInstruction::StreamPayment { to, amount_per_sec, duration } => stream_payment(
            state,
            sender,
            to,
            *amount_per_sec,
            *duration,
            timestamp,
        ),
        StablecoinInstruction::RegisterValidator { pubkey, stake } => register_validator(
            state,
            sender,
            pubkey,
            *stake,
        ),
        StablecoinInstruction::Vote { proposal_id, approve } => vote(state, sender),
        StablecoinInstruction::CreatePasskeyAccount {
            device_key,
            guardians,
        } => create_passkey_account(state, sender, device_key, guardians),
        StablecoinInstruction::RecoverSocial { new_device_key, guardian_signatures } => apply_recovery(
            state,
            sender,
            new_device_key,
            guardian_signatures.len(),
            ev.approvals,
        ),
        StablecoinInstruction::ClaimVelocityReward { epoch, tx_volume } => claim_velocity_reward(
            state,
            sender,
            *epoch,
            *tx_volume,
        ),
        StablecoinInstruction::RegisterCustodian { stake, mpc_pubkeys } => register_custodian(
            state,
            sender,
            *stake,
            mpc_pubkeys,
            height,
        ),
        StablecoinInstruction::RotateReserves { new_custodian_set } => rotate_reserves(
            state,
            new_custodian_set,
            height,
        ),
        StablecoinInstruction::ClaimInsurance { loss_proof, claimed_amount } => claim_insurance(
            state,
            sender,
            *claimed_amount,
            ev.proof_ok,
        ),
        StablecoinInstruction::SwitchToPQSignature { new_pq_pubkey } => switch_to_pq_signature(
            state,
            sender,
            new_pq_pubkey,
        ),
        StablecoinInstruction::RegisterGreenValidator { energy_proof } => register_green_validator(
            state,
            sender,
            energy_proof,
            ev.proof_ok,
        ),
        StablecoinInstruction::UploadComplianceCircuit {
            circuit_id,
            verifier_key,
        } => upload_compliance_circuit(state, *circuit_id, verifier_key),
        StablecoinInstruction::FlashMint {
            amount,
            collateral_asset,
            collateral_amount,
            commitment,
        } => flash_mint(state, sender, *amount, *collateral_amount),
        StablecoinInstruction::FlashBurn { amount } => flash_burn(state, sender, *amount),
        StablecoinInstruction::InstantRedeem { amount, destination } => redeem_senior(
            state,
            sender,
            *amount,
            timestamp,
        ),
        StablecoinInstruction::MintWithCreditScore {
            amount,
            collateral_amount,
            credit_score_proof,
            min_score_threshold,
            oracle,
        } => mint_with_credit_score(
            state,
            sender,
            *amount,
            *collateral_amount,
            *min_score_threshold,
            oracle,
            &ev.digest,
            ev.proof_ok,
        ),
        StablecoinInstruction::WrapToYieldToken { amount, maturity_blocks } => wrap_to_yield_token(
            state,
            sender,
            *amount,
            *maturity_blocks,
            height,
        ),
        StablecoinInstruction::UnwrapYieldToken { token_id } => unwrap_yield_token(
            state,
            sender,
            *token_id,
            height,
        ),
        StablecoinInstruction::ListRWA {
            asset_description,
            attested_value,
            attestation_proof,
            maturity_date,
            collateral_eligibility,
        } => list_rwa(
            state,
            sender,
            asset_description,
            *attested_value,
            attestation_proof,
            *maturity_date,
            *collateral_eligibility,
            ev.proof_ok,
        ),
        StablecoinInstruction::UseRWAAsCollateral { rwa_id, amount_to_pledge } => use_rwa_as_collateral(
            state,
            sender,
            *rwa_id,
            *amount_to_pledge,
        ),
        StablecoinInstruction::ComputeHealthIndex => run_health_index(state),
    }
}

/// Asks the verifiers and the hash function what they find on an
/// instruction of a sender with the given guardians.
pub fn gather_evidence(si: &StablecoinInstruction, guardians: &Vec<Address>, zk: &ZkManager) -> (ev:
    Evidence)
    ensures
        ev == evidence_of(*si, guardians@, zk.verifying_key@),
{
    match si {
        StablecoinInstruction::MintSenior { amount, collateral_amount, proof } => Evidence {
            proof_ok: zk.verify_zk_por(proof.as_slice(), *collateral_amount),
            digest: zero_hash_value(),
            approvals: 0,
        },
        StablecoinInstruction::SubmitZkPoR { proof, total_reserves, timestamp } => Evidence {
            proof_ok: zk.verify_zk_por(proof.as_slice(), *total_reserves),
            digest: hash_bytes(proof.as_slice()),
            approvals: 0,
        },
        StablecoinInstruction::RegisterGreenValidator { energy_proof } => Evidence {
            proof_ok: verify_green_energy_proof(energy_proof.as_slice()),
            digest: zero_hash_value(),
            approvals: 0,
        },
        StablecoinInstruction::MintWithCreditScore {
            amount,
            collateral_amount,
            credit_score_proof,
            min_score_threshold,
            oracle,
        } => Evidence {
            proof_ok: verify_credit_score_proof(credit_score_proof.as_slice()),
            digest: hash_bytes(credit_score_proof.as_slice()),
            approvals: 0,
        },
        StablecoinInstruction::ListRWA {
            asset_description,
            attested_value,
            attestation_proof,
            maturity_date,
            collateral_eligibility,
        } => Evidence {
            proof_ok: verify_rwa_attestation(attestation_proof.as_slice(), *attested_value),
            digest: zero_hash_value(),
            approvals: 0,
        },
        StablecoinInstruction::ClaimInsurance { loss_proof, claimed_amount } => Evidence {
            proof_ok: verify_insurance_loss_proof(loss_proof.as_slice(), *claimed_amount),
            digest: zero_hash_value(),
            approvals: 0,
        },
        StablecoinInstruction::ConfidentialTransfer { commitment, proof } => Evidence {
            proof_ok: verify_confidential_proof(commitment, proof.as_slice()),
            digest: zero_hash_value(),
            approvals: 0,
        },
        StablecoinInstruction::ProveCompliance { tx_hash, proof } => Evidence {
            proof_ok: verify_compliance_proof(tx_hash, proof.as_slice()),
            digest: zero_hash_value(),
            approvals: 0,
        },
        StablecoinInstruction::ZkTaxAttest { period, proof } => Evidence {
            proof_ok: verify_tax_attestation_proof(*period, proof.as_slice()),
            digest: zero_hash_value(),
            approvals: 0,
        },
        StablecoinInstruction::MultiJurisdictionalCheck { jurisdiction_id, proof } => Evidence {
            proof_ok: verify_multi_jurisdictional_proof(*jurisdiction_id, proof.as_slice()),
            digest: zero_hash_value(),
            approvals: 0,
        },
        StablecoinInstruction::ZeroSlipBatchMatch { orders } => {
            let mut preimage: Vec<u8> = Vec::new();
            let mut i: usize = 0;
            while i < orders.len()
                invariant
                    i <= orders@.len(),
                    preimage@ == enc_addrs_upto(orders@, i as int),
                decreases orders@.len() - i,
            {
                put_addr(&mut preimage, &orders[i]);
                i = i + 1;
            }
            Evidence { proof_ok: true, digest: hash_bytes(preimage.as_slice()), approvals: 0 }
        },
        StablecoinInstruction::RecoverSocial { new_device_key, guardian_signatures } => {
            let table = check_guardian_signatures(
                guardians,
                new_device_key.as_slice(),
                guardian_signatures,
            );
            let bound = count_guardian_approvals(guardians, &table);
            Evidence { proof_ok: true, digest: zero_hash_value(), approvals: bound as u64 }
        },
        _ => Evidence { proof_ok: true, digest: zero_hash_value(), approvals: 0 },
    }
}

/// What an instruction of `sender` does to a state: the rule of the
/// instruction set on the evidence that the verifiers give.
pub open spec fn execute_rule(
    s: StateModel,
    si: StablecoinInstruction,
    sender: Address,
    height: u64,
    timestamp: u64,
    reserve_key: Seq<u8>,
) -> Result<StateModel, ExecError> {
    instruction_rule(
        s,
        si,
        sender,
        height,
        timestamp,
        evidence_of(si, accounts_get(s.accounts, sender).guardians, reserve_key),
    )
}

/// Executes one instruction of `sender`: the state changes as the rules
/// prescribe, or an error is returned and nothing changes.
pub fn execute_si(si: &StablecoinInstruction, sender: &Address, ctx: &mut ExecutionContext) -> (r:
    Result<(), ExecError>)
    ensures
        step_matches(
            old(ctx).state@,
            final(ctx).state@,
            r,
            execute_rule(
                old(ctx).state@,
                *si,
                *sender,
                old(ctx).height,
                old(ctx).timestamp,
                old(ctx).zk.verifying_key@,
            ),
        ),
        final(ctx).height == old(ctx).height,
        final(ctx).timestamp == old(ctx).timestamp,
        final(ctx).zk == old(ctx).zk,
{
    let ev = match si {
        StablecoinInstruction::RecoverSocial { new_device_key, guardian_signatures } => {
            let account = ctx.state.accounts.get_or_default(sender);
            gather_evidence(si, &account.guardians, &ctx.zk)
        },
        _ => {
            let none: Vec<Address> = Vec::new();
            let ev = gather_evidence(si, &none, &ctx.zk);
            assert(ev == evidence_of(
                *si,
                accounts_get(ctx.state@.accounts, *sender).guardians,
                ctx.zk.verifying_key@,
            ));
            ev
        },
    };
    apply_instruction(si, sender, ctx, &ev)
}

/// Closes a block: the health index is computed and the pending flash mints
/// of the state are set to zero.
pub fn end_block(ctx: &mut ExecutionContext)
    ensures
        final(ctx).state@ == (StateModel {
            health_index: health_index_of(old(ctx).state@),
            pending_flash_mints: 0,
            ..old(ctx).state@
        }),
        final(ctx).height == old(ctx).height,
        final(ctx).timestamp == old(ctx).timestamp,
        final(ctx).zk == old(ctx).zk,
{
    compute_health_index(&mut ctx.state);
    ctx.state.pending_flash_mints = 0;
}

} // verus!
