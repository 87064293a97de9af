//! Custodians, reserve rotation and insurance claims.

use crate::account::AccountModel;
use crate::accounts::accounts_get;
use crate::bytes::{addr_eq, copy_addrs, Address};
use crate::rules::{BalanceKind, 
    checked_add_u64, max64, recalculate_ratios, recalculated, sat_sub, saturating_sub_u64,
    step_matches, with_account, ExecError,
};
use crate::state::{custodians_view, CustodianModel, CustodianState, GlobalState, StateModel};
use vstd::prelude::*;

verus! {

/// `RegisterCustodian`: the stake leaves the sender's junior balance, and a
/// custodian under the sender's address with 1 to 7 MPC keys is appended. One
/// sender may register more than once.
pub open spec fn register_custodian_rule(
    s: StateModel,
    sender: Address,
    stake: u64,
    mpc_pubkeys: Seq<[u8; 32]>,
    height: u64,
) -> Result<StateModel, ExecError> {
    let a = accounts_get(s.accounts, sender);
    if stake == 0 {
        Err(ExecError::InvalidArgument)
    } else if mpc_pubkeys.len() == 0 || mpc_pubkeys.len() > 7 {
        Err(ExecError::InvalidArgument)
    } else if a.ljun_balance < stake {
        Err(ExecError::InsufficientBalance { asset: BalanceKind::Ljun })
    } else {
        Ok(
            StateModel {
                custodians: s.custodians.push(
                    CustodianModel { pubkey: sender, stake, mpc_pubkeys, registered_height: height },
                ),
                ..with_account(
                    s,
                    sender,
                    AccountModel { ljun_balance: (a.ljun_balance - stake) as u64, ..a },
                )
            },
        )
    }
}

/// Executes `RegisterCustodian`.
pub fn register_custodian(
    state: &mut GlobalState,
    sender: &Address,
    stake: u64,
    mpc_pubkeys: &Vec<[u8; 32]>,
    height: u64,
) -> (r: Result<(), ExecError>)
    ensures
        step_matches(
            old(state)@,
            final(state)@,
            r,
            register_custodian_rule(old(state)@, *sender, stake, mpc_pubkeys@, height),
        ),
{
    if stake == 0 {
        return Err(ExecError::InvalidArgument);
    }
    if mpc_pubkeys.len() == 0 || mpc_pubkeys.len() > 7 {
        return Err(ExecError::InvalidArgument);
    }
    let mut account = state.accounts.get_or_default(sender);
    if account.ljun_balance < stake {
        return Err(ExecError::InsufficientBalance { asset: BalanceKind::Ljun });
    }
    account.ljun_balance = account.ljun_balance - stake;
    state.accounts.insert(*sender, account);
    state.custodians.push(
        CustodianState {
            pubkey: *sender,
            stake,
            mpc_pubkeys: copy_addrs(mpc_pubkeys),
            registered_height: height,
        },
    );
    assert(custodians_view(state.custodians@) =~= custodians_view(old(state).custodians@).push(
        CustodianModel {
            pubkey: *sender,
            stake,
            mpc_pubkeys: mpc_pubkeys@,
            registered_height: height,
        },
    ));
    Ok(())
}

/// Whether a custodian is registered under the key.
pub open spec fn is_custodian(custodians: Seq<CustodianModel>, key: [u8; 32]) -> bool {
    exists|i: int| 0 <= i < custodians.len() && #[trigger] custodians[i].pubkey == key
}

/// Whether every key of the set is a registered custodian.
pub open spec fn all_custodians(custodians: Seq<CustodianModel>, set: Seq<[u8; 32]>) -> bool {
    forall|k: int| 0 <= k < set.len() ==> is_custodian(custodians, #[trigger] set[k])
}

/// The least number of blocks between two reserve rotations.
pub const ROTATION_INTERVAL: u64 = 259200;

/// `RotateReserves`: a set that is not empty, at least 259200 blocks after
/// the last rotation, all of whose keys are registered custodians; the
/// height is recorded.
pub open spec fn rotate_reserves_rule(s: StateModel, set: Seq<[u8; 32]>, height: u64) -> Result<
    StateModel,
    ExecError,
> {
    if set.len() == 0 {
        Err(ExecError::InvalidArgument)
    } else if sat_sub(height, s.last_reserve_rotation_height) < 259200 {
        Err(ExecError::RateLimited)
    } else if !all_custodians(s.custodians, set) {
        Err(ExecError::NotFound)
    } else {
        Ok(StateModel { last_reserve_rotation_height: height, ..s })
    }
}

/// Whether a custodian is registered under the key.
pub fn custodian_registered(custodians: &Vec<CustodianState>, key: &[u8; 32]) -> (r: bool)
    ensures
        r == is_custodian(custodians_view(custodians@), *key),
{
    let mut i: usize = 0;
    while i < custodians.len()
        invariant
            i <= custodians@.len(),
            forall|j: int| 0 <= j < i ==> custodians_view(custodians@)[j].pubkey != *key,
        decreases custodians@.len() - i,
    {
        if addr_eq(&custodians[i].pubkey, key) {
            assert(custodians_view(custodians@)[i as int].pubkey == *key);
            return true;
        }
        i = i + 1;
    }
    false
}

/// Executes `RotateReserves`.
pub fn rotate_reserves(state: &mut GlobalState, new_custodian_set: &Vec<[u8; 32]>, height: u64) -> (r:
    Result<(), ExecError>)
    ensures
        step_matches(
            old(state)@,
            final(state)@,
            r,
            rotate_reserves_rule(old(state)@, new_custodian_set@, height),
        ),
{
    if new_custodian_set.len() == 0 {
        return Err(ExecError::InvalidArgument);
    }
    if saturating_sub_u64(height, state.last_reserve_rotation_height) < ROTATION_INTERVAL {
        return Err(ExecError::RateLimited);
    }
    let mut k: usize = 0;
    while k < new_custodian_set.len()
        invariant
            k <= new_custodian_set@.len(),
            *state == *old(state),
            new_custodian_set@.len() > 0,
            sat_sub(height, state.last_reserve_rotation_height) >= 259200,
            forall|j: int|
                0 <= j < k ==> is_custodian(state@.custodians, #[trigger] new_custodian_set@[j]),
        decreases new_custodian_set@.len() - k,
    {
        if !custodian_registered(&state.custodians, &new_custodian_set[k]) {
            assert(!is_custodian(state@.custodians, new_custodian_set@[k as int]));
            return Err(ExecError::NotFound);
        }
        k = k + 1;
    }
    state.last_reserve_rotation_height = height;
    Ok(())
}

/// `ClaimInsurance`: with a verified loss proof, an amount that the fund
/// holds moves from the fund to the sender as newly issued senior tokens.
pub open spec fn claim_insurance_rule(s: StateModel, sender: Address, claimed_amount: u64, proof_ok: bool) -> Result<
    StateModel,
    ExecError,
> {
    let a = accounts_get(s.accounts, sender);
    if !proof_ok {
        Err(ExecError::ProofInvalid)
    } else if claimed_amount > s.insurance_fund_balance {
        Err(ExecError::InsufficientBalance { asset: BalanceKind::Insurance })
    } else if a.lusd_balance + claimed_amount > max64() || s.total_lusd_supply + claimed_amount
        > max64() {
        Err(ExecError::Overflow)
    } else {
        Ok(
            recalculated(
                StateModel {
                    insurance_fund_balance: (s.insurance_fund_balance - claimed_amount) as u64,
                    total_lusd_supply: (s.total_lusd_supply + claimed_amount) as u64,
                    ..with_account(
                        s,
                        sender,
                        AccountModel { lusd_balance: (a.lusd_balance + claimed_amount) as u64, ..a },
                    )
                },
            ),
        )
    }
}

/// Executes `ClaimInsurance`.
pub fn claim_insurance(state: &mut GlobalState, sender: &Address, claimed_amount: u64, proof_ok: bool) -> (r:
    Result<(), ExecError>)
    ensures
        step_matches(
            old(state)@,
            final(state)@,
            r,
            claim_insurance_rule(old(state)@, *sender, claimed_amount, proof_ok),
        ),
{
    if !proof_ok {
        return Err(ExecError::ProofInvalid);
    }
    if claimed_amount > state.insurance_fund_balance {
        return Err(ExecError::InsufficientBalance { asset: BalanceKind::Insurance });
    }
    let mut account = state.accounts.get_or_default(sender);
    let balance = checked_add_u64(account.lusd_balance, claimed_amount)?;
    let supply = checked_add_u64(state.total_lusd_supply, claimed_amount)?;
    account.lusd_balance = balance;
    state.accounts.insert(*sender, account);
    state.insurance_fund_balance = state.insurance_fund_balance - claimed_amount;
    state.total_lusd_supply = supply;
    recalculate_ratios(state);
    Ok(())
}

} // verus!
