//! Validators, votes, passkey accounts and their recovery, velocity rewards,
//! post-quantum keys and compliance circuits.

use crate::account::AccountModel;
use crate::accounts::accounts_get;
use crate::bytes::{addr_eq, copy_addrs, copy_bytes, Address};
use crate::recovery::{decide_recovery, recovered};
use crate::rules::{BalanceKind, 
    min64, sat_add, sat_mul, saturating_add_u64, saturating_mul_u64, step_matches, with_account,
    ExecError,
};
use crate::state::{
    circuits_view, validators_view, GlobalState, StateModel, ValidatorModel, ValidatorState,
};
use vstd::prelude::*;

verus! {

/// `RegisterValidator`: the stake leaves the sender's native balance, and a
/// validator with that stake as its power, not green, is appended.
pub open spec fn register_validator_rule(s: StateModel, sender: Address, pubkey: [u8; 32], stake: u64) -> Result<
    StateModel,
    ExecError,
> {
    let a = accounts_get(s.accounts, sender);
    if stake == 0 {
        Err(ExecError::InvalidArgument)
    } else if a.lumina_balance < stake {
        Err(ExecError::InsufficientBalance { asset: BalanceKind::Lumina })
    } else {
        Ok(
            StateModel {
                validators: s.validators.push(
                    ValidatorModel { pubkey, stake, power: stake, is_green: false, energy_proof: None },
                ),
                ..with_account(
                    s,
                    sender,
                    AccountModel { lumina_balance: (a.lumina_balance - stake) as u64, ..a },
                )
            },
        )
    }
}

/// Executes `RegisterValidator`.
pub fn register_validator(state: &mut GlobalState, sender: &Address, pubkey: &[u8; 32], stake: u64) -> (r:
    Result<(), ExecError>)
    ensures
        step_matches(
            old(state)@,
            final(state)@,
            r,
            register_validator_rule(old(state)@, *sender, *pubkey, stake),
        ),
{
    if stake == 0 {
        return Err(ExecError::InvalidArgument);
    }
    let mut account = state.accounts.get_or_default(sender);
    if account.lumina_balance < stake {
        return Err(ExecError::InsufficientBalance { asset: BalanceKind::Lumina });
    }
    account.lumina_balance = account.lumina_balance - stake;
    state.accounts.insert(*sender, account);
    state.validators.push(
        ValidatorState { pubkey: *pubkey, stake, power: stake, is_green: false, energy_proof: None },
    );
    assert(validators_view(state.validators@) =~= validators_view(old(state).validators@).push(
        ValidatorModel { pubkey: *pubkey, stake, power: stake, is_green: false, energy_proof: None },
    ));
    Ok(())
}

/// The index of the first validator at or after `start` with the key, or the
/// length where there is none.
pub open spec fn validator_find(validators: Seq<ValidatorModel>, key: [u8; 32], start: int) -> int
    decreases validators.len() - start,
{
    if start < 0 || start >= validators.len() {
        validators.len() as int
    } else if validators[start].pubkey == key {
        start
    } else {
        validator_find(validators, key, start + 1)
    }
}

/// An index with no validator of the key before it, and one at it or the
/// length, is what `validator_find` returns.
pub proof fn lemma_validator_find_is(validators: Seq<ValidatorModel>, key: [u8; 32], start: int, i: int)
    requires
        0 <= start <= i <= validators.len(),
        forall|j: int| start <= j < i ==> validators[j].pubkey != key,
        i < validators.len() ==> validators[i].pubkey == key,
    ensures
        validator_find(validators, key, start) == i,
    decreases i - start,
{
    if start < i {
        lemma_validator_find_is(validators, key, start + 1, i);
    }
}

/// The index of the first validator with the key, or the length.
pub fn find_validator(validators: &Vec<ValidatorState>, key: &[u8; 32]) -> (i: usize)
    ensures
        i == validator_find(validators_view(validators@), *key, 0),
        i <= validators@.len(),
{
    let mut i: usize = 0;
    while i < validators.len()
        invariant
            i <= validators@.len(),
            forall|j: int| 0 <= j < i ==> validators_view(validators@)[j].pubkey != *key,
        decreases validators@.len() - i,
    {
        if addr_eq(&validators[i].pubkey, key) {
            proof {
                lemma_validator_find_is(validators_view(validators@), *key, 0, i as int);
            }
            return i;
        }
        i = i + 1;
    }
    proof {
        lemma_validator_find_is(validators_view(validators@), *key, 0, i as int);
    }
    i
}

/// `Vote`: only a registered validator may vote; nothing is recorded.
pub open spec fn vote_rule(s: StateModel, sender: Address) -> Result<StateModel, ExecError> {
    if validator_find(s.validators, sender, 0) >= s.validators.len() {
        Err(ExecError::NotFound)
    } else {
        Ok(s)
    }
}

/// Executes `Vote`.
pub fn vote(state: &mut GlobalState, sender: &Address) -> (r: Result<(), ExecError>)
    ensures
        step_matches(old(state)@, final(state)@, r, vote_rule(old(state)@, *sender)),
{
    let i = find_validator(&state.validators, sender);
    if i >= state.validators.len() {
        return Err(ExecError::NotFound);
    }
    Ok(())
}

/// Whether every byte is zero.
pub open spec fn all_zero(bytes: Seq<u8>) -> bool {
    forall|i: int| 0 <= i < bytes.len() ==> bytes[i] == 0
}

/// Whether every byte is zero.
pub fn is_all_zero(bytes: &Vec<u8>) -> (r: bool)
    ensures
        r == all_zero(bytes@),
{
    let mut i: usize = 0;
    while i < bytes.len()
        invariant
            i <= bytes.len(),
            forall|j: int| 0 <= j < i ==> bytes@[j] == 0,
        decreases bytes.len() - i,
    {
        if bytes[i] != 0 {
            return false;
        }
        i = i + 1;
    }
    true
}

/// `CreatePasskeyAccount`: a device key that is not empty and not all zero,
/// with 2 to 10 guardians, is written to the sender's account.
pub open spec fn create_passkey_rule(
    s: StateModel,
    sender: Address,
    device_key: Seq<u8>,
    guardians: Seq<[u8; 32]>,
) -> Result<StateModel, ExecError> {
    let a = accounts_get(s.accounts, sender);
    if device_key.len() == 0 || all_zero(device_key) {
        Err(ExecError::InvalidArgument)
    } else if guardians.len() < 2 || guardians.len() > 10 {
        Err(ExecError::InvalidArgument)
    } else {
        Ok(
            with_account(
                s,
                sender,
                AccountModel { passkey_device_key: Some(device_key), guardians, ..a },
            ),
        )
    }
}

/// Executes `CreatePasskeyAccount`.
pub fn create_passkey_account(
    state: &mut GlobalState,
    sender: &Address,
    device_key: &Vec<u8>,
    guardians: &Vec<[u8; 32]>,
) -> (r: Result<(), ExecError>)
    ensures
        step_matches(
            old(state)@,
            final(state)@,
            r,
            create_passkey_rule(old(state)@, *sender, device_key@, guardians@),
        ),
{
    if device_key.len() == 0 || is_all_zero(device_key) {
        return Err(ExecError::InvalidArgument);
    }
    if guardians.len() < 2 || guardians.len() > 10 {
        return Err(ExecError::InvalidArgument);
    }
    let mut account = state.accounts.get_or_default(sender);
    account.passkey_device_key = Some(copy_bytes(device_key.as_slice()));
    account.guardians = copy_addrs(guardians);
    state.accounts.insert(*sender, account);
    Ok(())
}

/// `RecoverSocial`: the sender's account is recovered where the signatures
/// handed in and the guardians that they bind reach a majority of the
/// account's guardians.
pub open spec fn recover_social_rule(
    s: StateModel,
    sender: Address,
    new_device_key: Seq<u8>,
    signatures: nat,
    approvals: u64,
) -> Result<StateModel, ExecError> {
    match recovered(accounts_get(s.accounts, sender), new_device_key, signatures, approvals as nat) {
        Ok(a) => Ok(with_account(s, sender, a)),
        Err(e) => Err(e),
    }
}

/// Executes `RecoverSocial` on the count of approving guardians.
pub fn apply_recovery(
    state: &mut GlobalState,
    sender: &Address,
    new_device_key: &Vec<u8>,
    signatures: usize,
    approvals: u64,
) -> (r: Result<(), ExecError>)
    ensures
        step_matches(
            old(state)@,
            final(state)@,
            r,
            recover_social_rule(old(state)@, *sender, new_device_key@, signatures as nat, approvals),
        ),
{
    let mut account = state.accounts.get_or_default(sender);
    decide_recovery(&mut account, new_device_key.as_slice(), signatures, approvals)?;
    state.accounts.insert(*sender, account);
    Ok(())
}

/// `ClaimVelocityReward`: for an epoch after the last rewarded one and a
/// volume that the account has on record, the sender receives a thousandth
/// of the volume from the reward pool, as far as the pool reaches, and the
/// recorded volume starts anew. A reward of zero changes nothing.
pub open spec fn claim_velocity_rule(s: StateModel, sender: Address, epoch: u64, tx_volume: u64) -> Result<
    StateModel,
    ExecError,
> {
    let a = accounts_get(s.accounts, sender);
    let reward = min64(s.velocity_reward_pool, tx_volume / 1000);
    if epoch <= a.last_reward_epoch {
        Err(ExecError::Replay)
    } else if tx_volume == 0 {
        Err(ExecError::InvalidArgument)
    } else if a.epoch_tx_volume < tx_volume {
        Err(ExecError::InvalidArgument)
    } else if reward == 0 {
        Ok(s)
    } else {
        Ok(
            StateModel {
                velocity_reward_pool: (s.velocity_reward_pool - reward) as u64,
                ..with_account(
                    s,
                    sender,
                    AccountModel {
                        lumina_balance: sat_add(a.lumina_balance, reward),
                        last_reward_epoch: epoch,
                        epoch_tx_volume: 0,
                        ..a
                    },
                )
            },
        )
    }
}

/// Executes `ClaimVelocityReward`.
pub fn claim_velocity_reward(state: &mut GlobalState, sender: &Address, epoch: u64, tx_volume: u64) -> (r:
    Result<(), ExecError>)
    ensures
        step_matches(
            old(state)@,
            final(state)@,
            r,
            claim_velocity_rule(old(state)@, *sender, epoch, tx_volume),
        ),
{
    let mut account = state.accounts.get_or_default(sender);
    if epoch <= account.last_reward_epoch {
        return Err(ExecError::Replay);
    }
    if tx_volume == 0 {
        return Err(ExecError::InvalidArgument);
    }
    if account.epoch_tx_volume < tx_volume {
        return Err(ExecError::InvalidArgument);
    }
    let share = tx_volume / 1000;
    let reward = if state.velocity_reward_pool <= share {
        state.velocity_reward_pool
    } else {
        share
    };
    if reward > 0 {
        state.velocity_reward_pool = state.velocity_reward_pool - reward;
        account.lumina_balance = saturating_add_u64(account.lumina_balance, reward);
        account.last_reward_epoch = epoch;
        account.epoch_tx_volume = 0;
        state.accounts.insert(*sender, account);
    }
    Ok(())
}

/// `SwitchToPQSignature`: a key that is not empty becomes the account's
/// post-quantum key; from then on its transactions are verified under it.
pub open spec fn switch_pq_rule(s: StateModel, sender: Address, new_pq_pubkey: Seq<u8>) -> Result<
    StateModel,
    ExecError,
> {
    let a = accounts_get(s.accounts, sender);
    if new_pq_pubkey.len() == 0 {
        Err(ExecError::InvalidArgument)
    } else {
        Ok(with_account(s, sender, AccountModel { pq_pubkey: Some(new_pq_pubkey), ..a }))
    }
}

/// Executes `SwitchToPQSignature`.
pub fn switch_to_pq_signature(state: &mut GlobalState, sender: &Address, new_pq_pubkey: &Vec<u8>) -> (r:
    Result<(), ExecError>)
    ensures
        step_matches(
            old(state)@,
            final(state)@,
            r,
            switch_pq_rule(old(state)@, *sender, new_pq_pubkey@),
        ),
{
    if new_pq_pubkey.len() == 0 {
        return Err(ExecError::InvalidArgument);
    }
    let mut account = state.accounts.get_or_default(sender);
    account.pq_pubkey = Some(copy_bytes(new_pq_pubkey.as_slice()));
    state.accounts.insert(*sender, account);
    Ok(())
}

/// `RegisterGreenValidator`: with a verified energy proof, the first
/// validator registered under the sender's key turns green, keeps the proof
/// and has twice its stake as power.
pub open spec fn register_green_rule(
    s: StateModel,
    sender: Address,
    energy_proof: Seq<u8>,
    proof_ok: bool,
) -> Result<StateModel, ExecError> {
    let i = validator_find(s.validators, sender, 0);
    if !proof_ok {
        Err(ExecError::ProofInvalid)
    } else if i >= s.validators.len() {
        Err(ExecError::NotFound)
    } else {
        Ok(
            StateModel {
                validators: s.validators.update(
                    i,
                    ValidatorModel {
                        is_green: true,
                        energy_proof: Some(energy_proof),
                        power: sat_mul(s.validators[i].stake, 2),
                        ..s.validators[i]
                    },
                ),
                ..s
            },
        )
    }
}

/// Executes `RegisterGreenValidator`.
pub fn register_green_validator(
    state: &mut GlobalState,
    sender: &Address,
    energy_proof: &Vec<u8>,
    proof_ok: bool,
) -> (r: Result<(), ExecError>)
    ensures
        step_matches(
            old(state)@,
            final(state)@,
            r,
            register_green_rule(old(state)@, *sender, energy_proof@, proof_ok),
        ),
{
    if !proof_ok {
        return Err(ExecError::ProofInvalid);
    }
    let i = find_validator(&state.validators, sender);
    if i >= state.validators.len() {
        return Err(ExecError::NotFound);
    }
    let stake = state.validators[i].stake;
    let pubkey = state.validators[i].pubkey;
    let green = ValidatorState {
        pubkey,
        stake,
        power: saturating_mul_u64(stake, 2),
        is_green: true,
        energy_proof: Some(copy_bytes(energy_proof.as_slice())),
    };
    let ghost model = green@;
    state.validators[i] = green;
    assert(validators_view(state.validators@) =~= validators_view(old(state).validators@).update(
        i as int,
        model,
    ));
    Ok(())
}

/// `UploadComplianceCircuit`: a verifier key that is not empty is stored
/// under the circuit id, over any earlier key.
pub open spec fn upload_circuit_rule(s: StateModel, circuit_id: u64, verifier_key: Seq<u8>) -> Result<
    StateModel,
    ExecError,
> {
    if verifier_key.len() == 0 {
        Err(ExecError::InvalidArgument)
    } else {
        Ok(StateModel { compliance_circuits: s.compliance_circuits.insert(circuit_id, verifier_key), ..s })
    }
}

/// Executes `UploadComplianceCircuit`.
pub fn upload_compliance_circuit(state: &mut GlobalState, circuit_id: u64, verifier_key: &Vec<u8>) -> (r:
    Result<(), ExecError>)
    ensures
        step_matches(
            old(state)@,
            final(state)@,
            r,
            upload_circuit_rule(old(state)@, circuit_id, verifier_key@),
        ),
{
    if verifier_key.len() == 0 {
        return Err(ExecError::InvalidArgument);
    }
    state.compliance_circuits.insert(circuit_id, copy_bytes(verifier_key.as_slice()));
    assert(circuits_view(state.compliance_circuits@) =~= circuits_view(
        old(state).compliance_circuits@,
    ).insert(circuit_id, verifier_key@));
    Ok(())
}

} // verus!
