//! Privacy and compliance checks, oracle prices and proofs of reserves.

use crate::account::{ticker_put, AccountModel};
use crate::accounts::accounts_get;
use crate::bytes::{addr_eq, Address};
use crate::rules::{recalculate_ratios, recalculated, step_matches, with_account, ExecError};
use crate::state::{GlobalState, StateModel};
use vstd::prelude::*;

verus! {

/// `ConfidentialTransfer`: with a verified proof the commitment is written
/// to the sender's account; no balance moves.
pub open spec fn confidential_transfer_rule(
    s: StateModel,
    sender: Address,
    commitment: [u8; 32],
    proof_ok: bool,
) -> Result<StateModel, ExecError> {
    let a = accounts_get(s.accounts, sender);
    if !proof_ok {
        Err(ExecError::ProofInvalid)
    } else {
        Ok(with_account(s, sender, AccountModel { commitment: Some(commitment), ..a }))
    }
}

/// Executes `ConfidentialTransfer`.
pub fn confidential_transfer(
    state: &mut GlobalState,
    sender: &Address,
    commitment: &[u8; 32],
    proof_ok: bool,
) -> (r: Result<(), ExecError>)
    ensures
        step_matches(
            old(state)@,
            final(state)@,
            r,
            confidential_transfer_rule(old(state)@, *sender, *commitment, proof_ok),
        ),
{
    if !proof_ok {
        return Err(ExecError::ProofInvalid);
    }
    let mut account = state.accounts.get_or_default(sender);
    account.commitment = Some(*commitment);
    state.accounts.insert(*sender, account);
    Ok(())
}

/// `ProveCompliance`, `ZkTaxAttest` and `MultiJurisdictionalCheck`: the proof
/// is checked and nothing is written.
pub open spec fn attestation_rule(s: StateModel, proof_ok: bool) -> Result<StateModel, ExecError> {
    if !proof_ok {
        Err(ExecError::ProofInvalid)
    } else {
        Ok(s)
    }
}

/// Executes `ProveCompliance`, `ZkTaxAttest` and `MultiJurisdictionalCheck`.
pub fn attest(state: &mut GlobalState, proof_ok: bool) -> (r: Result<(), ExecError>)
    ensures
        step_matches(old(state)@, final(state)@, r, attestation_rule(old(state)@, proof_ok)),
{
    if !proof_ok {
        return Err(ExecError::ProofInvalid);
    }
    Ok(())
}

/// `UpdateOracle`: the price is written under the asset's ticker.
pub open spec fn update_oracle_rule(s: StateModel, asset: Seq<char>, price: u64) -> Result<
    StateModel,
    ExecError,
> {
    Ok(recalculated(StateModel { oracle_prices: ticker_put(s.oracle_prices, asset, price), ..s }))
}

/// Executes `UpdateOracle`.
pub fn update_oracle(state: &mut GlobalState, asset: &String, price: u64) -> (r: Result<
    (),
    ExecError,
>)
    ensures
        step_matches(old(state)@, final(state)@, r, update_oracle_rule(old(state)@, asset@, price)),
{
    state.oracle_prices.insert(asset.clone(), price);
    recalculate_ratios(state);
    Ok(())
}

/// `SubmitZkPoR`: a proof of reserves is taken when its timestamp is after
/// the last accepted one, its tag differs from the last accepted tag, and it
/// verifies. The pool is then set to the proven reserves.
pub open spec fn submit_por_rule(
    s: StateModel,
    total_reserves: u64,
    timestamp: u64,
    proof_id: [u8; 32],
    proof_ok: bool,
) -> Result<StateModel, ExecError> {
    if timestamp <= s.last_por_timestamp {
        Err(ExecError::InvalidArgument)
    } else if s.last_por_hash == Some(proof_id) {
        Err(ExecError::Replay)
    } else if !proof_ok {
        Err(ExecError::ProofInvalid)
    } else {
        Ok(
            recalculated(
                StateModel {
                    stabilization_pool_balance: total_reserves,
                    last_por_timestamp: timestamp,
                    last_por_hash: Some(proof_id),
                    ..s
                },
            ),
        )
    }
}

/// Executes `SubmitZkPoR`.
pub fn submit_por(
    state: &mut GlobalState,
    total_reserves: u64,
    timestamp: u64,
    proof_id: &[u8; 32],
    proof_ok: bool,
) -> (r: Result<(), ExecError>)
    ensures
        step_matches(
            old(state)@,
            final(state)@,
            r,
            submit_por_rule(old(state)@, total_reserves, timestamp, *proof_id, proof_ok),
        ),
{
    if timestamp <= state.last_por_timestamp {
        return Err(ExecError::InvalidArgument);
    }
    let replay = match &state.last_por_hash {
        Some(h) => addr_eq(h, proof_id),
        None => false,
    };
    if replay {
        return Err(ExecError::Replay);
    }
    if !proof_ok {
        return Err(ExecError::ProofInvalid);
    }
    state.stabilization_pool_balance = total_reserves;
    state.last_por_timestamp = timestamp;
    state.last_por_hash = Some(*proof_id);
    recalculate_ratios(state);
    Ok(())
}

} // verus!
