//! The genesis state of the chain.

use crate::account::{empty_account, ticker_put, AccountModel, AccountState};
use crate::accounts::accounts_put;
use crate::crypto::{zero_hash, zero_hash_value};
use crate::state::{empty_state, validators_view, GlobalState, StateModel, ValidatorModel, ValidatorState};
use vstd::prelude::*;
use vstd::string::StringExecFns;

verus! {

/// The stake of the initial validator.
pub const GENESIS_VALIDATOR_STAKE: u64 = 1_000_000;

/// The native balance of the deployer account.
pub const GENESIS_DEPLOYER_BALANCE: u64 = 1_000_000_000;

/// The genesis state: one validator and one deployer account, both under
/// the zero address; bootstrap prices for ETH, BTC and the senior token; a
/// reserve ratio of one and full health.
pub open spec fn genesis_state() -> StateModel {
    StateModel {
        accounts: accounts_put(
            Seq::empty(),
            zero_hash(),
            AccountModel { lumina_balance: 1_000_000_000, ..empty_account() },
        ),
        validators: seq![
            ValidatorModel {
                pubkey: zero_hash(),
                stake: 1_000_000,
                power: 1_000_000,
                is_green: false,
                energy_proof: None,
            },
        ],
        oracle_prices: ticker_put(
            ticker_put(
                ticker_put(Seq::empty(), "ETH-USD"@, 3_000_000_000),
                "BTC-USD"@,
                90_000_000_000,
            ),
            "LUSD-USD"@,
            1_000_000,
        ),
        reserve_ratio_bps: 10000,
        health_index: 10000,
        ..empty_state()
    }
}

/// Creates the genesis state.
pub fn create_genesis_state() -> (state: GlobalState)
    ensures
        state@ == genesis_state(),
{
    let mut state = GlobalState::default();
    let mut deployer = AccountState::default();
    deployer.lumina_balance = GENESIS_DEPLOYER_BALANCE;
    state.accounts.insert(zero_hash_value(), deployer);
    state.validators.push(
        ValidatorState {
            pubkey: zero_hash_value(),
            stake: GENESIS_VALIDATOR_STAKE,
            power: GENESIS_VALIDATOR_STAKE,
            is_green: false,
            energy_proof: None,
        },
    );
    assert(validators_view(state.validators@) =~= seq![
        ValidatorModel {
            pubkey: zero_hash(),
            stake: 1_000_000,
            power: 1_000_000,
            is_green: false,
            energy_proof: None,
        },
    ]);
    state.oracle_prices.insert(String::from_str("ETH-USD"), 3_000_000_000);
    state.oracle_prices.insert(String::from_str("BTC-USD"), 90_000_000_000);
    state.oracle_prices.insert(String::from_str("LUSD-USD"), 1_000_000);
    state.reserve_ratio_bps = 10000;
    state.health_index = 10000;
    state
}

} // verus!
