//! Core asset operations: registering, minting, redeeming, burning and
//! transferring.

use crate::account::{ticker_get, ticker_put, AccountModel};
use crate::accounts::{accounts_get, accounts_put};
use crate::bytes::Address;
use crate::instruction::AssetType;
use crate::rules::{BalanceKind, 
    checked_add_u64, max64, recalculate_ratios, recalculated, sat_sub, saturating_sub_u64,
    step_matches, with_account, ExecError,
};
use crate::state::{GlobalState, RedemptionRequest, StateModel};
use vstd::prelude::*;

verus! {

/// The length in bytes of a ticker's UTF-8 form.
pub open spec fn text_len(t: Seq<char>) -> nat {
    vstd::utf8::encode_utf8(t).len()
}

/// `RegisterAsset`: a ticker of 1 to 16 bytes with at most 18 decimals gets a
/// zero price, unless it has a price already.
pub open spec fn register_asset_rule(s: StateModel, ticker: Seq<char>, decimals: u8) -> Result<
    StateModel,
    ExecError,
> {
    if text_len(ticker) == 0 || text_len(ticker) > 16 {
        Err(ExecError::InvalidArgument)
    } else if decimals > 18 {
        Err(ExecError::InvalidArgument)
    } else if ticker_get(s.oracle_prices, ticker).is_some() {
        Ok(s)
    } else {
        Ok(StateModel { oracle_prices: ticker_put(s.oracle_prices, ticker, 0), ..s })
    }
}

/// Executes `RegisterAsset`.
pub fn register_asset(state: &mut GlobalState, ticker: &String, decimals: u8) -> (r: Result<
    (),
    ExecError,
>)
    ensures
        step_matches(
            old(state)@,
            final(state)@,
            r,
            register_asset_rule(old(state)@, ticker@, decimals),
        ),
{
    let n = ticker.as_str().as_bytes().len();
    if n == 0 || n > 16 {
        return Err(ExecError::InvalidArgument);
    }
    if decimals > 18 {
        return Err(ExecError::InvalidArgument);
    }
    if !state.oracle_prices.contains_key(ticker) {
        let t = ticker.clone();
        state.oracle_prices.insert(t, 0);
    }
    Ok(())
}

/// `MintSenior`: against a verified reserve proof, a twentieth of the amount
/// goes to the insurance fund, the rest to the sender and to the senior
/// supply, and the collateral to the pool.
pub open spec fn mint_senior_rule(
    s: StateModel,
    sender: Address,
    amount: u64,
    collateral_amount: u64,
    proof: Seq<u8>,
    proof_ok: bool,
) -> Result<StateModel, ExecError> {
    let a = accounts_get(s.accounts, sender);
    let fee = amount / 20;
    let net = (amount - fee) as u64;
    if amount == 0 || collateral_amount == 0 {
        Err(ExecError::InvalidArgument)
    } else if proof.len() == 0 {
        Err(ExecError::InvalidArgument)
    } else if s.circuit_breaker_active {
        Err(ExecError::CircuitBreakerTripped)
    } else if !proof_ok {
        Err(ExecError::ProofInvalid)
    } else if s.insurance_fund_balance + fee > max64() || s.stabilization_pool_balance
        + collateral_amount > max64() || a.lusd_balance + net > max64() || s.total_lusd_supply + net
        > max64() || a.epoch_tx_volume + amount > max64() {
        Err(ExecError::Overflow)
    } else {
        Ok(
            recalculated(
                StateModel {
                    insurance_fund_balance: (s.insurance_fund_balance + fee) as u64,
                    stabilization_pool_balance: (s.stabilization_pool_balance
                        + collateral_amount) as u64,
                    total_lusd_supply: (s.total_lusd_supply + net) as u64,
                    ..with_account(
                        s,
                        sender,
                        AccountModel {
                            lusd_balance: (a.lusd_balance + net) as u64,
                            epoch_tx_volume: (a.epoch_tx_volume + amount) as u64,
                            ..a
                        },
                    )
                },
            ),
        )
    }
}

/// Executes `MintSenior`.
pub fn mint_senior(
    state: &mut GlobalState,
    sender: &Address,
    amount: u64,
    collateral_amount: u64,
    proof: &Vec<u8>,
    proof_ok: bool,
) -> (r: Result<(), ExecError>)
    ensures
        step_matches(
            old(state)@,
            final(state)@,
            r,
            mint_senior_rule(old(state)@, *sender, amount, collateral_amount, proof@, proof_ok),
        ),
{
    if amount == 0 || collateral_amount == 0 {
        return Err(ExecError::InvalidArgument);
    }
    if proof.len() == 0 {
        return Err(ExecError::InvalidArgument);
    }
    if state.circuit_breaker_active {
        return Err(ExecError::CircuitBreakerTripped);
    }
    if !proof_ok {
        return Err(ExecError::ProofInvalid);
    }
    let fee = amount / 20;
    let net = amount - fee;
    let mut account = state.accounts.get_or_default(sender);
    let insurance = checked_add_u64(state.insurance_fund_balance, fee)?;
    let pool = checked_add_u64(state.stabilization_pool_balance, collateral_amount)?;
    let balance = checked_add_u64(account.lusd_balance, net)?;
    let supply = checked_add_u64(state.total_lusd_supply, net)?;
    let volume = checked_add_u64(account.epoch_tx_volume, amount)?;
    account.lusd_balance = balance;
    account.epoch_tx_volume = volume;
    state.accounts.insert(*sender, account);
    state.insurance_fund_balance = insurance;
    state.stabilization_pool_balance = pool;
    state.total_lusd_supply = supply;
    recalculate_ratios(state);
    Ok(())
}

/// `RedeemSenior` and `InstantRedeem`: the sender gives up senior tokens.
/// While the circuit breaker is on or the reserve ratio is under 95%, the
/// redemption is queued and the supply stays; otherwise supply and pool
/// shrink by the amount.
pub open spec fn redeem_senior_rule(s: StateModel, sender: Address, amount: u64, timestamp: u64) -> Result<
    StateModel,
    ExecError,
> {
    let a = accounts_get(s.accounts, sender);
    if amount == 0 {
        Err(ExecError::InvalidArgument)
    } else if a.lusd_balance < amount {
        Err(ExecError::InsufficientBalance { asset: BalanceKind::Lusd })
    } else if s.circuit_breaker_active || s.reserve_ratio_bps < 9500 {
        Ok(
            StateModel {
                fair_redeem_queue: s.fair_redeem_queue.push(
                    RedemptionRequest { address: sender, amount, timestamp },
                ),
                ..with_account(
                    s,
                    sender,
                    AccountModel { lusd_balance: (a.lusd_balance - amount) as u64, ..a },
                )
            },
        )
    } else if s.total_lusd_supply < amount {
        Err(ExecError::Underflow)
    } else {
        Ok(
            recalculated(
                StateModel {
                    total_lusd_supply: (s.total_lusd_supply - amount) as u64,
                    stabilization_pool_balance: sat_sub(s.stabilization_pool_balance, amount),
                    ..with_account(
                        s,
                        sender,
                        AccountModel { lusd_balance: (a.lusd_balance - amount) as u64, ..a },
                    )
                },
            ),
        )
    }
}

/// Executes `RedeemSenior` and `InstantRedeem`.
pub fn redeem_senior(state: &mut GlobalState, sender: &Address, amount: u64, timestamp: u64) -> (r:
    Result<(), ExecError>)
    ensures
        step_matches(
            old(state)@,
            final(state)@,
            r,
            redeem_senior_rule(old(state)@, *sender, amount, timestamp),
        ),
{
    if amount == 0 {
        return Err(ExecError::InvalidArgument);
    }
    let mut account = state.accounts.get_or_default(sender);
    if account.lusd_balance < amount {
        return Err(ExecError::InsufficientBalance { asset: BalanceKind::Lusd });
    }
    account.lusd_balance = account.lusd_balance - amount;
    if state.circuit_breaker_active || state.reserve_ratio_bps < 9500 {
        state.fair_redeem_queue.push(RedemptionRequest { address: *sender, amount, timestamp });
        state.accounts.insert(*sender, account);
        return Ok(());
    }
    if state.total_lusd_supply < amount {
        return Err(ExecError::Underflow);
    }
    state.accounts.insert(*sender, account);
    state.total_lusd_supply = state.total_lusd_supply - amount;
    state.stabilization_pool_balance = saturating_sub_u64(state.stabilization_pool_balance, amount);
    recalculate_ratios(state);
    Ok(())
}

/// `MintJunior`: collateral to the pool, junior tokens to the sender and to
/// the junior supply; no fee.
pub open spec fn mint_junior_rule(s: StateModel, sender: Address, amount: u64, collateral_amount: u64) -> Result<
    StateModel,
    ExecError,
> {
    let a = accounts_get(s.accounts, sender);
    if amount == 0 || collateral_amount == 0 {
        Err(ExecError::InvalidArgument)
    } else if s.stabilization_pool_balance + collateral_amount > max64() || a.ljun_balance + amount
        > max64() || s.total_ljun_supply + amount > max64() {
        Err(ExecError::Overflow)
    } else {
        Ok(
            recalculated(
                StateModel {
                    stabilization_pool_balance: (s.stabilization_pool_balance
                        + collateral_amount) as u64,
                    total_ljun_supply: (s.total_ljun_supply + amount) as u64,
                    ..with_account(
                        s,
                        sender,
                        AccountModel { ljun_balance: (a.ljun_balance + amount) as u64, ..a },
                    )
                },
            ),
        )
    }
}

/// Executes `MintJunior`.
pub fn mint_junior(state: &mut GlobalState, sender: &Address, amount: u64, collateral_amount: u64) -> (r:
    Result<(), ExecError>)
    ensures
        step_matches(
            old(state)@,
            final(state)@,
            r,
            mint_junior_rule(old(state)@, *sender, amount, collateral_amount),
        ),
{
    if amount == 0 || collateral_amount == 0 {
        return Err(ExecError::InvalidArgument);
    }
    let mut account = state.accounts.get_or_default(sender);
    let pool = checked_add_u64(state.stabilization_pool_balance, collateral_amount)?;
    let balance = checked_add_u64(account.ljun_balance, amount)?;
    let supply = checked_add_u64(state.total_ljun_supply, amount)?;
    account.ljun_balance = balance;
    state.accounts.insert(*sender, account);
    state.stabilization_pool_balance = pool;
    state.total_ljun_supply = supply;
    recalculate_ratios(state);
    Ok(())
}

/// `RedeemJunior`: junior tokens leave the sender and the junior supply.
pub open spec fn redeem_junior_rule(s: StateModel, sender: Address, amount: u64) -> Result<
    StateModel,
    ExecError,
> {
    let a = accounts_get(s.accounts, sender);
    if amount == 0 {
        Err(ExecError::InvalidArgument)
    } else if a.ljun_balance < amount {
        Err(ExecError::InsufficientBalance { asset: BalanceKind::Ljun })
    } else if s.total_ljun_supply < amount {
        Err(ExecError::Underflow)
    } else {
        Ok(
            recalculated(
                StateModel {
                    total_ljun_supply: (s.total_ljun_supply - amount) as u64,
                    ..with_account(
                        s,
                        sender,
                        AccountModel { ljun_balance: (a.ljun_balance - amount) as u64, ..a },
                    )
                },
            ),
        )
    }
}

/// Executes `RedeemJunior`.
pub fn redeem_junior(state: &mut GlobalState, sender: &Address, amount: u64) -> (r: Result<
    (),
    ExecError,
>)
    ensures
        step_matches(old(state)@, final(state)@, r, redeem_junior_rule(old(state)@, *sender, amount)),
{
    if amount == 0 {
        return Err(ExecError::InvalidArgument);
    }
    let mut account = state.accounts.get_or_default(sender);
    if account.ljun_balance < amount {
        return Err(ExecError::InsufficientBalance { asset: BalanceKind::Ljun });
    }
    if state.total_ljun_supply < amount {
        return Err(ExecError::Underflow);
    }
    account.ljun_balance = account.ljun_balance - amount;
    state.accounts.insert(*sender, account);
    state.total_ljun_supply = state.total_ljun_supply - amount;
    recalculate_ratios(state);
    Ok(())
}

/// What an account holds of an asset; zero of a custom asset that it never
/// held.
pub open spec fn balance_of(a: AccountModel, asset: AssetType) -> u64 {
    match asset {
        AssetType::LUSD => a.lusd_balance,
        AssetType::LJUN => a.ljun_balance,
        AssetType::Lumina => a.lumina_balance,
        AssetType::Custom(t) => match ticker_get(a.custom_balances, t@) {
            Some(v) => v,
            None => 0,
        },
    }
}

/// The account with `value` as its holding of an asset.
pub open spec fn with_balance(a: AccountModel, asset: AssetType, value: u64) -> AccountModel {
    match asset {
        AssetType::LUSD => AccountModel { lusd_balance: value, ..a },
        AssetType::LJUN => AccountModel { ljun_balance: value, ..a },
        AssetType::Lumina => AccountModel { lumina_balance: value, ..a },
        AssetType::Custom(t) => AccountModel {
            custom_balances: ticker_put(a.custom_balances, t@, value),
            ..a
        },
    }
}

/// The kind of balance that an asset is held in.
pub open spec fn kind_of(asset: AssetType) -> BalanceKind {
    match asset {
        AssetType::LUSD => BalanceKind::Lusd,
        AssetType::LJUN => BalanceKind::Ljun,
        AssetType::Lumina => BalanceKind::Lumina,
        AssetType::Custom(t) => BalanceKind::Custom,
    }
}

/// The kind of balance that an asset is held in.
pub fn asset_kind(asset: &AssetType) -> (k: BalanceKind)
    ensures
        k == kind_of(*asset),
{
    match asset {
        AssetType::LUSD => BalanceKind::Lusd,
        AssetType::LJUN => BalanceKind::Ljun,
        AssetType::Lumina => BalanceKind::Lumina,
        AssetType::Custom(t) => BalanceKind::Custom,
    }
}

/// Whether transfers of the asset count towards the sender's epoch volume.
pub open spec fn counts_as_volume(asset: AssetType) -> bool {
    asset is LUSD || asset is LJUN
}

/// `Burn`: the amount leaves the sender; senior and junior burns also shrink
/// their supply, stopping at zero.
pub open spec fn burn_rule(s: StateModel, sender: Address, amount: u64, asset: AssetType) -> Result<
    StateModel,
    ExecError,
> {
    let a = accounts_get(s.accounts, sender);
    if amount == 0 {
        Err(ExecError::InvalidArgument)
    } else if balance_of(a, asset) < amount {
        Err(ExecError::InsufficientBalance { asset: kind_of(asset) })
    } else {
        let s1 = with_account(s, sender, with_balance(a, asset, (balance_of(a, asset) - amount) as u64));
        Ok(
            recalculated(
                match asset {
                    AssetType::LUSD => StateModel {
                        total_lusd_supply: sat_sub(s.total_lusd_supply, amount),
                        ..s1
                    },
                    AssetType::LJUN => StateModel {
                        total_ljun_supply: sat_sub(s.total_ljun_supply, amount),
                        ..s1
                    },
                    _ => s1,
                },
            ),
        )
    }
}

/// Reads an account's holding of an asset.
pub fn read_balance(account: &crate::account::AccountState, asset: &AssetType) -> (r: u64)
    ensures
        r == balance_of(account@, *asset),
{
    match asset {
        AssetType::LUSD => account.lusd_balance,
        AssetType::LJUN => account.ljun_balance,
        AssetType::Lumina => account.lumina_balance,
        AssetType::Custom(t) => match account.custom_balances.get(t) {
            Some(v) => v,
            None => 0,
        },
    }
}

/// Writes an account's holding of an asset.
pub fn write_balance(account: &mut crate::account::AccountState, asset: &AssetType, value: u64)
    ensures
        final(account)@ == with_balance(old(account)@, *asset, value),
{
    match asset {
        AssetType::LUSD => {
            account.lusd_balance = value;
        },
        AssetType::LJUN => {
            account.ljun_balance = value;
        },
        AssetType::Lumina => {
            account.lumina_balance = value;
        },
        AssetType::Custom(t) => {
            account.custom_balances.insert(t.clone(), value);
        },
    }
}

/// Executes `Burn`.
pub fn burn(state: &mut GlobalState, sender: &Address, amount: u64, asset: &AssetType) -> (r: Result<
    (),
    ExecError,
>)
    ensures
        step_matches(old(state)@, final(state)@, r, burn_rule(old(state)@, *sender, amount, *asset)),
{
    if amount == 0 {
        return Err(ExecError::InvalidArgument);
    }
    let mut account = state.accounts.get_or_default(sender);
    let held = read_balance(&account, asset);
    if held < amount {
        return Err(ExecError::InsufficientBalance { asset: asset_kind(asset) });
    }
    write_balance(&mut account, asset, held - amount);
    state.accounts.insert(*sender, account);
    match asset {
        AssetType::LUSD => {
            state.total_lusd_supply = saturating_sub_u64(state.total_lusd_supply, amount);
        },
        AssetType::LJUN => {
            state.total_ljun_supply = saturating_sub_u64(state.total_ljun_supply, amount);
        },
        _ => {},
    }
    recalculate_ratios(state);
    Ok(())
}

/// The sender's account after a transfer has left it: the amount is gone and,
/// for senior and junior tokens, counted into the epoch volume.
pub open spec fn debited(a: AccountModel, asset: AssetType, amount: u64) -> AccountModel {
    let b = with_balance(a, asset, (balance_of(a, asset) - amount) as u64);
    if counts_as_volume(asset) {
        AccountModel { epoch_tx_volume: (a.epoch_tx_volume + amount) as u64, ..b }
    } else {
        b
    }
}

/// `Transfer`: the amount moves from the sender to the receiver; no supply
/// changes. The receiver is read after the sender was debited, so a transfer
/// to oneself leaves the balance as it was.
pub open spec fn transfer_rule(
    s: StateModel,
    sender: Address,
    to: Address,
    amount: u64,
    asset: AssetType,
) -> Result<StateModel, ExecError> {
    let a = accounts_get(s.accounts, sender);
    if amount == 0 {
        Err(ExecError::InvalidArgument)
    } else if balance_of(a, asset) < amount {
        Err(ExecError::InsufficientBalance { asset: kind_of(asset) })
    } else if counts_as_volume(asset) && a.epoch_tx_volume + amount > max64() {
        Err(ExecError::Overflow)
    } else {
        let after_debit = accounts_put(s.accounts, sender, debited(a, asset, amount));
        let b = accounts_get(after_debit, to);
        if balance_of(b, asset) + amount > max64() {
            Err(ExecError::Overflow)
        } else {
            Ok(
                StateModel {
                    accounts: accounts_put(
                        after_debit,
                        to,
                        with_balance(b, asset, (balance_of(b, asset) + amount) as u64),
                    ),
                    ..s
                },
            )
        }
    }
}

/// Executes `Transfer`.
pub fn transfer(state: &mut GlobalState, sender: &Address, to: &Address, amount: u64, asset: &AssetType) -> (r:
    Result<(), ExecError>)
    ensures
        step_matches(
            old(state)@,
            final(state)@,
            r,
            transfer_rule(old(state)@, *sender, *to, amount, *asset),
        ),
{
    if amount == 0 {
        return Err(ExecError::InvalidArgument);
    }
    let mut account = state.accounts.get_or_default(sender);
    let held = read_balance(&account, asset);
    if held < amount {
        return Err(ExecError::InsufficientBalance { asset: asset_kind(asset) });
    }
    let counted = match asset {
        AssetType::LUSD => true,
        AssetType::LJUN => true,
        _ => false,
    };
    let ghost before = account@;
    write_balance(&mut account, asset, held - amount);
    if counted {
        let volume = checked_add_u64(account.epoch_tx_volume, amount)?;
        account.epoch_tx_volume = volume;
    }
    assert(account@ == debited(before, *asset, amount));
    proof {
        crate::accounts::lemma_accounts_put_get(state.accounts@, *sender, account@, *to);
    }
    let mut receiver = if crate::bytes::addr_eq(sender, to) {
        account.clone()
    } else {
        state.accounts.get_or_default(to)
    };
    let received = checked_add_u64(read_balance(&receiver, asset), amount)?;
    write_balance(&mut receiver, asset, received);
    state.accounts.insert(*sender, account);
    state.accounts.insert(*to, receiver);
    Ok(())
}

} // verus!
