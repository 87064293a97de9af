//! Seeding a state for simulation runs.

use crate::account::{empty_account, ticker_put, AccountModel, AccountState};
use crate::accounts::{accounts_get, accounts_put, AccountSeq};
use crate::bytes::Address;
use crate::rules::{sat_add, sat_mul, saturating_add_u64, saturating_mul_u64};
use crate::crypto::ed25519_signature;
use crate::instruction::{AssetType, StablecoinInstruction};
use crate::signatures::{generate_keypair, sign, SigningKey};
use crate::state::{GlobalState, StateModel};
use crate::transaction::{signing_bytes_of, Transaction};
use vstd::prelude::*;

verus! {

/// The accounts after each of the first `n` wallets was given a fresh
/// account holding `amount` senior tokens.
pub open spec fn funded_accounts(accounts: AccountSeq, wallets: Seq<Address>, amount: u64, n: int) -> AccountSeq
    decreases n,
{
    if n <= 0 {
        accounts
    } else {
        accounts_put(
            funded_accounts(accounts, wallets, amount, n - 1),
            wallets[n - 1],
            AccountModel { lusd_balance: amount, ..empty_account() },
        )
    }
}

/// A supply after `amount` was added to it `n` times, stopping at the
/// largest value.
pub open spec fn funded_supply(supply: u64, amount: u64, n: int) -> u64
    decreases n,
{
    if n <= 0 {
        supply
    } else {
        sat_add(funded_supply(supply, amount, n - 1), amount)
    }
}

/// Gives every wallet a fresh account with `amount` senior tokens, adds the
/// amounts to the supply, and sets the pool to 125% of the supply.
pub fn seed_simulation_money(state: &mut GlobalState, wallets: &Vec<Address>, amount: u64)
    ensures
        final(state)@ == (StateModel {
            accounts: funded_accounts(old(state)@.accounts, wallets@, amount, wallets@.len() as int),
            total_lusd_supply: funded_supply(
                old(state)@.total_lusd_supply,
                amount,
                wallets@.len() as int,
            ),
            stabilization_pool_balance: (sat_mul(
                funded_supply(old(state)@.total_lusd_supply, amount, wallets@.len() as int),
                125,
            ) / 100) as u64,
            reserve_ratio_bps: 12500,
            ..old(state)@
        }),
{
    let mut i: usize = 0;
    while i < wallets.len()
        invariant
            i <= wallets@.len(),
            state@ == (StateModel {
                accounts: funded_accounts(old(state)@.accounts, wallets@, amount, i as int),
                total_lusd_supply: funded_supply(old(state)@.total_lusd_supply, amount, i as int),
                ..old(state)@
            }),
        decreases wallets@.len() - i,
    {
        let mut account = AccountState::default();
        account.lusd_balance = amount;
        state.accounts.insert(wallets[i], account);
        state.total_lusd_supply = saturating_add_u64(state.total_lusd_supply, amount);
        i = i + 1;
    }
    state.stabilization_pool_balance = saturating_mul_u64(state.total_lusd_supply, 125) / 100;
    state.reserve_ratio_bps = 12500;
}

/// A ticker table after `amount` was written under each of the first `n`
/// tickers.
pub open spec fn seeded_tickers(table: Seq<(Seq<char>, u64)>, assets: Seq<String>, amount: u64, n: int) -> Seq<
    (Seq<char>, u64),
>
    decreases n,
{
    if n <= 0 {
        table
    } else {
        ticker_put(seeded_tickers(table, assets, amount, n - 1), assets[n - 1]@, amount)
    }
}

/// The accounts after each of the first `n` wallets holds `amount` of every
/// asset.
pub open spec fn seeded_accounts(
    accounts: AccountSeq,
    wallets: Seq<Address>,
    assets: Seq<String>,
    amount: u64,
    n: int,
) -> AccountSeq
    decreases n,
{
    if n <= 0 {
        accounts
    } else {
        let before = seeded_accounts(accounts, wallets, assets, amount, n - 1);
        let a = accounts_get(before, wallets[n - 1]);
        accounts_put(
            before,
            wallets[n - 1],
            AccountModel {
                custom_balances: seeded_tickers(a.custom_balances, assets, amount, assets.len() as int),
                ..a
            },
        )
    }
}

/// Gives every wallet `amount` of every custom asset.
pub fn seed_custom_assets(state: &mut GlobalState, wallets: &Vec<Address>, custom_assets: &Vec<String>, amount: u64)
    ensures
        final(state)@ == (StateModel {
            accounts: seeded_accounts(
                old(state)@.accounts,
                wallets@,
                custom_assets@,
                amount,
                wallets@.len() as int,
            ),
            ..old(state)@
        }),
{
    let mut i: usize = 0;
    while i < wallets.len()
        invariant
            i <= wallets@.len(),
            state@ == (StateModel {
                accounts: seeded_accounts(old(state)@.accounts, wallets@, custom_assets@, amount, i as int),
                ..old(state)@
            }),
        decreases wallets@.len() - i,
    {
        let mut account = state.accounts.get_or_default(&wallets[i]);
        let ghost start = account@.custom_balances;
        let mut k: usize = 0;
        while k < custom_assets.len()
            invariant
                k <= custom_assets@.len(),
                account@ == (AccountModel {
                    custom_balances: seeded_tickers(start, custom_assets@, amount, k as int),
                    ..accounts_get(state@.accounts, wallets@[i as int])
                }),
                start == accounts_get(state@.accounts, wallets@[i as int]).custom_balances,
            decreases custom_assets@.len() - k,
        {
            account.custom_balances.insert(custom_assets[k].clone(), amount);
            k = k + 1;
        }
        state.accounts.insert(wallets[i], account);
        i = i + 1;
    }
}

/// A wallet of a simulation run: a key pair and the address that it signs
/// for.
#[derive(Debug, Clone, Copy)]
pub struct SimWallet {
    pub keypair: SigningKey,
    pub address: [u8; 32],
}

/// Creates wallets with fresh keys; each wallet's address is its public key.
pub fn build_wallets(wallet_count: usize) -> (wallets: Vec<SimWallet>)
    ensures
        wallets@.len() == wallet_count,
        forall|i: int|
            0 <= i < wallets@.len() ==> (#[trigger] wallets@[i]).keypair.well_formed()
                && wallets@[i].address == wallets@[i].keypair.public_key,
{
    let mut wallets: Vec<SimWallet> = Vec::new();
    let mut i: usize = 0;
    while i < wallet_count
        invariant
            i <= wallet_count,
            wallets@.len() == i,
            forall|k: int|
                0 <= k < wallets@.len() ==> (#[trigger] wallets@[k]).keypair.well_formed()
                    && wallets@[k].address == wallets@[k].keypair.public_key,
        decreases wallet_count - i,
    {
        let keypair = generate_keypair();
        wallets.push(SimWallet { keypair, address: keypair.public_key });
        i = i + 1;
    }
    wallets
}

/// Whether a transaction is the wallet's, with the given nonce, instruction
/// and gas limit at gas price 1, signed by the wallet over its signing bytes.
pub open spec fn signed_by(
    tx: Transaction,
    sender: SimWallet,
    nonce: u64,
    instruction: StablecoinInstruction,
    gas_limit: u64,
) -> bool {
    &&& tx.sender == sender.address
    &&& tx.nonce == nonce
    &&& tx.instruction == instruction
    &&& tx.gas_limit == gas_limit
    &&& tx.gas_price == 1
    &&& tx.signature@ == ed25519_signature(sender.keypair.secret_key@, signing_bytes_of(tx))
}

/// Builds a wallet's transaction and signs it.
pub fn build_signed_tx(sender: &SimWallet, nonce: u64, instruction: StablecoinInstruction, gas_limit: u64) -> (tx:
    Transaction)
    ensures
        signed_by(tx, *sender, nonce, instruction, gas_limit),
{
    let mut tx = Transaction {
        sender: sender.address,
        nonce,
        instruction,
        signature: Vec::new(),
        gas_limit,
        gas_price: 1,
    };
    let message = tx.signing_bytes();
    tx.signature = sign(&sender.keypair, message.as_slice());
    tx
}

/// A signed transfer with a gas limit of 1000.
pub fn build_transfer_tx(sender: &SimWallet, receiver: [u8; 32], amount: u64, nonce: u64, asset: AssetType) -> (tx:
    Transaction)
    ensures
        signed_by(
            tx,
            *sender,
            nonce,
            StablecoinInstruction::Transfer { to: receiver, amount, asset },
            1000,
        ),
{
    build_signed_tx(sender, nonce, StablecoinInstruction::Transfer { to: receiver, amount, asset }, 1000)
}

/// The collateral that a simulated mint locks: 120% of the amount.
pub open spec fn mint_collateral(amount: u64) -> u64 {
    (sat_mul(amount, 120) / 100) as u64
}

/// A signed senior mint against 120% collateral, with a gas limit of
/// 100000. The proof is the prover's, over the collateral.
pub fn build_mint_tx(sender: &SimWallet, nonce: u64, amount: u64, proof: Vec<u8>) -> (tx: Transaction)
    ensures
        signed_by(
            tx,
            *sender,
            nonce,
            StablecoinInstruction::MintSenior {
                amount,
                collateral_amount: mint_collateral(amount),
                proof,
            },
            100_000,
        ),
{
    let collateral = saturating_mul_u64(amount, 120) / 100;
    build_signed_tx(
        sender,
        nonce,
        StablecoinInstruction::MintSenior { amount, collateral_amount: collateral, proof },
        100_000,
    )
}

/// A signed registration of an asset with eight decimals, with a gas limit
/// of 20000.
pub fn build_register_asset_tx(sender: &SimWallet, nonce: u64, ticker: String) -> (tx: Transaction)
    ensures
        signed_by(
            tx,
            *sender,
            nonce,
            StablecoinInstruction::RegisterAsset { ticker, decimals: 8 },
            20_000,
        ),
{
    build_signed_tx(sender, nonce, StablecoinInstruction::RegisterAsset { ticker, decimals: 8 }, 20_000)
}

} // verus!
