//! Capital efficiency: flash mints, credit-scored mints, yield tokens and
//! real-world assets as collateral.

use crate::account::{AccountModel, YieldPosition};
use crate::accounts::accounts_get;
use crate::bytes::{addr_list_contains, copy_bytes, Address};
use crate::handlers::assets::{mint_senior, mint_senior_rule};
use crate::rules::{BalanceKind, 
    checked_add_u64, max64, recalculate_ratios, recalculated, sat_add, sat_mul, sat_sub,
    saturating_add_u64, saturating_mul_u64, saturating_sub_u64, step_matches, with_account,
    ExecError,
};
use crate::state::{listings_view, GlobalState, RWAListing, RwaModel, StateModel};
use vstd::prelude::*;

verus! {

/// `FlashMint`: against collateral of at least 110% of the amount, the
/// amount is minted to the sender and recorded as pending, on the account and
/// in the state, to be burned in the same block.
pub open spec fn flash_mint_rule(s: StateModel, sender: Address, amount: u64, collateral_amount: u64) -> Result<
    StateModel,
    ExecError,
> {
    let a = accounts_get(s.accounts, sender);
    if amount == 0 || collateral_amount == 0 {
        Err(ExecError::InvalidArgument)
    } else if collateral_amount < sat_mul(amount, 110) / 100 {
        Err(ExecError::InvalidArgument)
    } else if s.stabilization_pool_balance + collateral_amount > max64() || a.pending_flash_mint
        + amount > max64() || a.pending_flash_collateral + collateral_amount > max64()
        || a.lusd_balance + amount > max64() || s.total_lusd_supply + amount > max64()
        || s.pending_flash_mints + amount > max64() {
        Err(ExecError::Overflow)
    } else {
        Ok(
            StateModel {
                stabilization_pool_balance: (s.stabilization_pool_balance
                    + collateral_amount) as u64,
                total_lusd_supply: (s.total_lusd_supply + amount) as u64,
                pending_flash_mints: (s.pending_flash_mints + amount) as u64,
                ..with_account(
                    s,
                    sender,
                    AccountModel {
                        pending_flash_mint: (a.pending_flash_mint + amount) as u64,
                        pending_flash_collateral: (a.pending_flash_collateral
                            + collateral_amount) as u64,
                        lusd_balance: (a.lusd_balance + amount) as u64,
                        ..a
                    },
                )
            },
        )
    }
}

/// Executes `FlashMint`.
pub fn flash_mint(state: &mut GlobalState, sender: &Address, amount: u64, collateral_amount: u64) -> (r:
    Result<(), ExecError>)
    ensures
        step_matches(
            old(state)@,
            final(state)@,
            r,
            flash_mint_rule(old(state)@, *sender, amount, collateral_amount),
        ),
{
    if amount == 0 || collateral_amount == 0 {
        return Err(ExecError::InvalidArgument);
    }
    if collateral_amount < saturating_mul_u64(amount, 110) / 100 {
        return Err(ExecError::InvalidArgument);
    }
    let mut account = state.accounts.get_or_default(sender);
    let pool = checked_add_u64(state.stabilization_pool_balance, collateral_amount)?;
    let pending = checked_add_u64(account.pending_flash_mint, amount)?;
    let locked = checked_add_u64(account.pending_flash_collateral, collateral_amount)?;
    let balance = checked_add_u64(account.lusd_balance, amount)?;
    let supply = checked_add_u64(state.total_lusd_supply, amount)?;
    let pending_total = checked_add_u64(state.pending_flash_mints, amount)?;
    account.pending_flash_mint = pending;
    account.pending_flash_collateral = locked;
    account.lusd_balance = balance;
    state.accounts.insert(*sender, account);
    state.stabilization_pool_balance = pool;
    state.total_lusd_supply = supply;
    state.pending_flash_mints = pending_total;
    Ok(())
}

/// `FlashBurn`: the sender burns exactly what it has pending; the locked
/// collateral leaves the pool, and the pending amounts return to zero.
pub open spec fn flash_burn_rule(s: StateModel, sender: Address, amount: u64) -> Result<
    StateModel,
    ExecError,
> {
    let a = accounts_get(s.accounts, sender);
    if amount == 0 {
        Err(ExecError::InvalidArgument)
    } else if a.pending_flash_mint == 0 || amount != a.pending_flash_mint {
        Err(ExecError::InvalidArgument)
    } else if a.lusd_balance < amount {
        Err(ExecError::InsufficientBalance { asset: BalanceKind::Lusd })
    } else if s.total_lusd_supply < amount {
        Err(ExecError::Underflow)
    } else {
        Ok(
            StateModel {
                total_lusd_supply: (s.total_lusd_supply - amount) as u64,
                pending_flash_mints: sat_sub(s.pending_flash_mints, amount),
                stabilization_pool_balance: sat_sub(
                    s.stabilization_pool_balance,
                    a.pending_flash_collateral,
                ),
                ..with_account(
                    s,
                    sender,
                    AccountModel {
                        lusd_balance: (a.lusd_balance - amount) as u64,
                        pending_flash_mint: 0,
                        pending_flash_collateral: 0,
                        ..a
                    },
                )
            },
        )
    }
}

/// Executes `FlashBurn`.
pub fn flash_burn(state: &mut GlobalState, sender: &Address, amount: u64) -> (r: Result<
    (),
    ExecError,
>)
    ensures
        step_matches(old(state)@, final(state)@, r, flash_burn_rule(old(state)@, *sender, amount)),
{
    if amount == 0 {
        return Err(ExecError::InvalidArgument);
    }
    let mut account = state.accounts.get_or_default(sender);
    if account.pending_flash_mint == 0 || amount != account.pending_flash_mint {
        return Err(ExecError::InvalidArgument);
    }
    if account.lusd_balance < amount {
        return Err(ExecError::InsufficientBalance { asset: BalanceKind::Lusd });
    }
    if state.total_lusd_supply < amount {
        return Err(ExecError::Underflow);
    }
    let released = account.pending_flash_collateral;
    account.lusd_balance = account.lusd_balance - amount;
    account.pending_flash_mint = 0;
    account.pending_flash_collateral = 0;
    state.accounts.insert(*sender, account);
    state.total_lusd_supply = state.total_lusd_supply - amount;
    state.pending_flash_mints = saturating_sub_u64(state.pending_flash_mints, amount);
    state.stabilization_pool_balance = saturating_sub_u64(state.stabilization_pool_balance, released);
    Ok(())
}

/// The score that a credit proof discloses: 300 plus, modulo 551, the number
/// that the first two bytes of the proof's tag spell in little-endian order.
pub open spec fn credit_score_of(proof_id: [u8; 32]) -> u16 {
    (300 + (proof_id@[0] + 256 * proof_id@[1]) % 551) as u16
}

/// The collateral that a score asks for, in basis points of the amount.
pub open spec fn required_collateral_bps(score: u16) -> u64 {
    if score >= 800 {
        10200
    } else if score >= 750 {
        10500
    } else {
        11000
    }
}

/// Whether a credit-scored mint goes the scored way: the oracle is trusted,
/// the proof verifies, its tag was not used, and the score reaches the
/// threshold.
pub open spec fn scored_mint_applies(
    s: StateModel,
    min_score_threshold: u16,
    oracle: [u8; 32],
    proof_id: [u8; 32],
    proof_ok: bool,
) -> bool {
    &&& s.trusted_credit_oracles.contains(oracle)
    &&& proof_ok
    &&& !s.used_credit_proofs.contains(proof_id)
    &&& credit_score_of(proof_id) >= min_score_threshold
}

/// `MintWithCreditScore`: where the scored way applies, the collateral must
/// reach what the score asks for; the proof's tag is recorded, the amount is
/// minted without fee and the score is written to the account. Where it does
/// not apply, the mint is taken as a `MintSenior` without a proof.
pub open spec fn credit_mint_rule(
    s: StateModel,
    sender: Address,
    amount: u64,
    collateral_amount: u64,
    min_score_threshold: u16,
    oracle: [u8; 32],
    proof_id: [u8; 32],
    proof_ok: bool,
) -> Result<StateModel, ExecError> {
    let a = accounts_get(s.accounts, sender);
    let score = credit_score_of(proof_id);
    if amount == 0 {
        Err(ExecError::InvalidArgument)
    } else if !scored_mint_applies(s, min_score_threshold, oracle, proof_id, proof_ok) {
        mint_senior_rule(s, sender, amount, collateral_amount, Seq::empty(), false)
    } else if collateral_amount < sat_mul(amount, required_collateral_bps(score)) / 10000 {
        Err(ExecError::InvalidArgument)
    } else if s.stabilization_pool_balance + collateral_amount > max64() || a.lusd_balance + amount
        > max64() || s.total_lusd_supply + amount > max64() {
        Err(ExecError::Overflow)
    } else {
        Ok(
            recalculated(
                StateModel {
                    used_credit_proofs: s.used_credit_proofs.push(proof_id),
                    stabilization_pool_balance: (s.stabilization_pool_balance
                        + collateral_amount) as u64,
                    total_lusd_supply: (s.total_lusd_supply + amount) as u64,
                    ..with_account(
                        s,
                        sender,
                        AccountModel {
                            lusd_balance: (a.lusd_balance + amount) as u64,
                            credit_score: score,
                            ..a
                        },
                    )
                },
            ),
        )
    }
}

/// The score that a credit proof's tag discloses.
pub fn derive_credit_score(proof_id: &[u8; 32]) -> (score: u16)
    ensures
        score == credit_score_of(*proof_id),
        300 <= score <= 850,
{
    let low: u32 = proof_id[0] as u32;
    let high: u32 = proof_id[1] as u32;
    let raw: u32 = low + 256 * high;
    (300 + raw % 551) as u16
}

/// Executes `MintWithCreditScore`.
pub fn mint_with_credit_score(
    state: &mut GlobalState,
    sender: &Address,
    amount: u64,
    collateral_amount: u64,
    min_score_threshold: u16,
    oracle: &[u8; 32],
    proof_id: &[u8; 32],
    proof_ok: bool,
) -> (r: Result<(), ExecError>)
    ensures
        step_matches(
            old(state)@,
            final(state)@,
            r,
            credit_mint_rule(
                old(state)@,
                *sender,
                amount,
                collateral_amount,
                min_score_threshold,
                *oracle,
                *proof_id,
                proof_ok,
            ),
        ),
{
    if amount == 0 {
        return Err(ExecError::InvalidArgument);
    }
    let allowed = addr_list_contains(&state.trusted_credit_oracles, oracle);
    let replay = addr_list_contains(&state.used_credit_proofs, proof_id);
    let score = derive_credit_score(proof_id);
    if !allowed || !proof_ok || replay || score < min_score_threshold {
        let none: Vec<u8> = Vec::new();
        return mint_senior(state, sender, amount, collateral_amount, &none, false);
    }
    let required_bps: u64 = if score >= 800 {
        10200
    } else if score >= 750 {
        10500
    } else {
        11000
    };
    if collateral_amount < saturating_mul_u64(amount, required_bps) / 10000 {
        return Err(ExecError::InvalidArgument);
    }
    let mut account = state.accounts.get_or_default(sender);
    let pool = checked_add_u64(state.stabilization_pool_balance, collateral_amount)?;
    let balance = checked_add_u64(account.lusd_balance, amount)?;
    let supply = checked_add_u64(state.total_lusd_supply, amount)?;
    account.lusd_balance = balance;
    account.credit_score = score;
    state.accounts.insert(*sender, account);
    state.used_credit_proofs.push(*proof_id);
    state.stabilization_pool_balance = pool;
    state.total_lusd_supply = supply;
    recalculate_ratios(state);
    Ok(())
}

/// `WrapToYieldToken`: the amount leaves the sender's senior balance into a
/// position with the next token id, maturing `maturity_blocks` after the
/// current height.
pub open spec fn wrap_rule(s: StateModel, sender: Address, amount: u64, maturity_blocks: u64, height: u64) -> Result<
    StateModel,
    ExecError,
> {
    let a = accounts_get(s.accounts, sender);
    if amount == 0 || maturity_blocks == 0 {
        Err(ExecError::InvalidArgument)
    } else if a.lusd_balance < amount {
        Err(ExecError::InsufficientBalance { asset: BalanceKind::Lusd })
    } else if s.next_yield_token_id + 1 > max64() {
        Err(ExecError::Overflow)
    } else {
        Ok(
            StateModel {
                next_yield_token_id: (s.next_yield_token_id + 1) as u64,
                ..with_account(
                    s,
                    sender,
                    AccountModel {
                        lusd_balance: (a.lusd_balance - amount) as u64,
                        yield_positions: a.yield_positions.push(
                            YieldPosition {
                                token_id: s.next_yield_token_id,
                                principal: amount,
                                maturity_height: sat_add(height, maturity_blocks),
                                issued_height: height,
                            },
                        ),
                        ..a
                    },
                )
            },
        )
    }
}

/// Executes `WrapToYieldToken`.
pub fn wrap_to_yield_token(
    state: &mut GlobalState,
    sender: &Address,
    amount: u64,
    maturity_blocks: u64,
    height: u64,
) -> (r: Result<(), ExecError>)
    ensures
        step_matches(
            old(state)@,
            final(state)@,
            r,
            wrap_rule(old(state)@, *sender, amount, maturity_blocks, height),
        ),
{
    if amount == 0 || maturity_blocks == 0 {
        return Err(ExecError::InvalidArgument);
    }
    let mut account = state.accounts.get_or_default(sender);
    if account.lusd_balance < amount {
        return Err(ExecError::InsufficientBalance { asset: BalanceKind::Lusd });
    }
    let token_id = state.next_yield_token_id;
    let next_id = checked_add_u64(token_id, 1)?;
    account.lusd_balance = account.lusd_balance - amount;
    account.yield_positions.push(
        YieldPosition {
            token_id,
            principal: amount,
            maturity_height: saturating_add_u64(height, maturity_blocks),
            issued_height: height,
        },
    );
    state.accounts.insert(*sender, account);
    state.next_yield_token_id = next_id;
    Ok(())
}

/// The index of the first position at or after `start` with the token id, or
/// the length where there is none.
pub open spec fn position_find(positions: Seq<YieldPosition>, token_id: u64, start: int) -> int
    decreases positions.len() - start,
{
    if start < 0 || start >= positions.len() {
        positions.len() as int
    } else if positions[start].token_id == token_id {
        start
    } else {
        position_find(positions, token_id, start + 1)
    }
}

/// An index with no position of the id before it, and one at it or the
/// length, is what `position_find` returns.
pub proof fn lemma_position_find_is(positions: Seq<YieldPosition>, token_id: u64, start: int, i: int)
    requires
        0 <= start <= i <= positions.len(),
        forall|j: int| start <= j < i ==> positions[j].token_id != token_id,
        i < positions.len() ==> positions[i].token_id == token_id,
    ensures
        position_find(positions, token_id, start) == i,
    decreases i - start,
{
    if start < i {
        lemma_position_find_is(positions, token_id, start + 1, i);
    }
}

/// The number of blocks in a year of ten-second blocks, times one hundred.
pub const YIELD_DIVISOR: u64 = 315_360_000;

/// The yield that a position has earned: 5% of the principal a year, by the
/// blocks held, each product stopping at the largest value.
pub open spec fn yield_earned(principal: u64, blocks_held: u64) -> u64 {
    (sat_mul(sat_mul(principal, 5), blocks_held) / 315_360_000) as u64
}

/// `UnwrapYieldToken`: a matured position of the sender is removed. The
/// yield is newly issued: a tenth of it to the insurance fund, the rest with
/// the principal to the sender.
pub open spec fn unwrap_rule(s: StateModel, sender: Address, token_id: u64, height: u64) -> Result<
    StateModel,
    ExecError,
> {
    let a = accounts_get(s.accounts, sender);
    let i = position_find(a.yield_positions, token_id, 0);
    if i >= a.yield_positions.len() {
        Err(ExecError::NotFound)
    } else {
        let p = a.yield_positions[i];
        let earned = yield_earned(p.principal, sat_sub(height, p.issued_height));
        let cut = (sat_mul(earned, 10) / 100) as u64;
        let paid = sat_add(p.principal, sat_sub(earned, cut));
        if height < p.maturity_height {
            Err(ExecError::InvalidArgument)
        } else if a.lusd_balance + paid > max64() || s.insurance_fund_balance + cut > max64()
            || s.total_lusd_supply + earned > max64() {
            Err(ExecError::Overflow)
        } else {
            Ok(
                recalculated(
                    StateModel {
                        insurance_fund_balance: (s.insurance_fund_balance + cut) as u64,
                        total_lusd_supply: (s.total_lusd_supply + earned) as u64,
                        ..with_account(
                            s,
                            sender,
                            AccountModel {
                                lusd_balance: (a.lusd_balance + paid) as u64,
                                yield_positions: a.yield_positions.remove(i),
                                ..a
                            },
                        )
                    },
                ),
            )
        }
    }
}

/// The index of the first position with the token id, or the length.
pub fn find_position(positions: &Vec<YieldPosition>, token_id: u64) -> (i: usize)
    ensures
        i == position_find(positions@, token_id, 0),
        i <= positions@.len(),
{
    let mut i: usize = 0;
    while i < positions.len()
        invariant
            i <= positions@.len(),
            forall|j: int| 0 <= j < i ==> positions@[j].token_id != token_id,
        decreases positions@.len() - i,
    {
        if positions[i].token_id == token_id {
            proof {
                lemma_position_find_is(positions@, token_id, 0, i as int);
            }
            return i;
        }
        i = i + 1;
    }
    proof {
        lemma_position_find_is(positions@, token_id, 0, i as int);
    }
    i
}

/// Executes `UnwrapYieldToken`.
pub fn unwrap_yield_token(state: &mut GlobalState, sender: &Address, token_id: u64, height: u64) -> (r:
    Result<(), ExecError>)
    ensures
        step_matches(
            old(state)@,
            final(state)@,
            r,
            unwrap_rule(old(state)@, *sender, token_id, height),
        ),
{
    let mut account = state.accounts.get_or_default(sender);
    let i = find_position(&account.yield_positions, token_id);
    if i >= account.yield_positions.len() {
        return Err(ExecError::NotFound);
    }
    let position = account.yield_positions[i];
    if height < position.maturity_height {
        return Err(ExecError::InvalidArgument);
    }
    let blocks_held = saturating_sub_u64(height, position.issued_height);
    let earned = saturating_mul_u64(saturating_mul_u64(position.principal, 5), blocks_held)
        / YIELD_DIVISOR;
    let cut = saturating_mul_u64(earned, 10) / 100;
    let paid = saturating_add_u64(position.principal, saturating_sub_u64(earned, cut));
    let balance = checked_add_u64(account.lusd_balance, paid)?;
    let insurance = checked_add_u64(state.insurance_fund_balance, cut)?;
    let supply = checked_add_u64(state.total_lusd_supply, earned)?;
    account.lusd_balance = balance;
    account.yield_positions.remove(i);
    state.accounts.insert(*sender, account);
    state.insurance_fund_balance = insurance;
    state.total_lusd_supply = supply;
    recalculate_ratios(state);
    Ok(())
}

/// `ListRWA`: an asset with a description, a value above zero and a verified
/// attestation is listed under the next id, active and with nothing pledged.
pub open spec fn list_rwa_rule(
    s: StateModel,
    sender: Address,
    asset_description: Seq<char>,
    attested_value: u64,
    attestation_proof: Seq<u8>,
    maturity_date: Option<u64>,
    collateral_eligibility: bool,
    proof_ok: bool,
) -> Result<StateModel, ExecError> {
    if asset_description.len() == 0 {
        Err(ExecError::InvalidArgument)
    } else if attested_value == 0 {
        Err(ExecError::InvalidArgument)
    } else if !proof_ok {
        Err(ExecError::ProofInvalid)
    } else if s.next_rwa_id + 1 > max64() {
        Err(ExecError::Overflow)
    } else {
        Ok(
            StateModel {
                next_rwa_id: (s.next_rwa_id + 1) as u64,
                rwa_listings: s.rwa_listings.insert(
                    s.next_rwa_id,
                    RwaModel {
                        owner: sender,
                        asset_description,
                        attestation_proof,
                        attested_value,
                        maturity_date,
                        collateral_eligibility,
                        is_active: true,
                        pledged_amount: 0,
                    },
                ),
                ..s
            },
        )
    }
}

/// Executes `ListRWA`.
pub fn list_rwa(
    state: &mut GlobalState,
    sender: &Address,
    asset_description: &String,
    attested_value: u64,
    attestation_proof: &Vec<u8>,
    maturity_date: Option<u64>,
    collateral_eligibility: bool,
    proof_ok: bool,
) -> (r: Result<(), ExecError>)
    ensures
        step_matches(
            old(state)@,
            final(state)@,
            r,
            list_rwa_rule(
                old(state)@,
                *sender,
                asset_description@,
                attested_value,
                attestation_proof@,
                maturity_date,
                collateral_eligibility,
                proof_ok,
            ),
        ),
{
    if asset_description.as_str().is_empty() {
        return Err(ExecError::InvalidArgument);
    }
    if attested_value == 0 {
        return Err(ExecError::InvalidArgument);
    }
    if !proof_ok {
        return Err(ExecError::ProofInvalid);
    }
    let id = state.next_rwa_id;
    let next_id = checked_add_u64(id, 1)?;
    let listing = RWAListing {
        owner: *sender,
        asset_description: asset_description.clone(),
        attestation_proof: copy_bytes(attestation_proof.as_slice()),
        attested_value,
        maturity_date,
        collateral_eligibility,
        is_active: true,
        pledged_amount: 0,
    };
    let ghost model = listing@;
    state.rwa_listings.insert(id, listing);
    assert(listings_view(state.rwa_listings@) =~= listings_view(old(state).rwa_listings@).insert(
        id,
        model,
    ));
    state.next_rwa_id = next_id;
    Ok(())
}

/// `UseRWAAsCollateral`: against an active, eligible listing with room under
/// its attested value, the pledge is minted to the sender and added to the
/// listing's pledged amount, the senior supply and the pool.
pub open spec fn pledge_rwa_rule(s: StateModel, sender: Address, rwa_id: u64, amount_to_pledge: u64) -> Result<
    StateModel,
    ExecError,
> {
    let a = accounts_get(s.accounts, sender);
    if amount_to_pledge == 0 {
        Err(ExecError::InvalidArgument)
    } else if !s.rwa_listings.contains_key(rwa_id) {
        Err(ExecError::NotFound)
    } else {
        let l = s.rwa_listings[rwa_id];
        if !l.is_active || !l.collateral_eligibility {
            Err(ExecError::InvalidArgument)
        } else if amount_to_pledge > sat_sub(l.attested_value, l.pledged_amount) {
            Err(ExecError::InvalidArgument)
        } else if a.lusd_balance + amount_to_pledge > max64() || s.total_lusd_supply
            + amount_to_pledge > max64() || s.stabilization_pool_balance + amount_to_pledge
            > max64() {
            Err(ExecError::Overflow)
        } else {
            Ok(
                recalculated(
                    StateModel {
                        rwa_listings: s.rwa_listings.insert(
                            rwa_id,
                            RwaModel {
                                pledged_amount: (l.pledged_amount + amount_to_pledge) as u64,
                                ..l
                            },
                        ),
                        total_lusd_supply: (s.total_lusd_supply + amount_to_pledge) as u64,
                        stabilization_pool_balance: (s.stabilization_pool_balance
                            + amount_to_pledge) as u64,
                        ..with_account(
                            s,
                            sender,
                            AccountModel {
                                lusd_balance: (a.lusd_balance + amount_to_pledge) as u64,
                                ..a
                            },
                        )
                    },
                ),
            )
        }
    }
}

/// Executes `UseRWAAsCollateral`.
pub fn use_rwa_as_collateral(state: &mut GlobalState, sender: &Address, rwa_id: u64, amount_to_pledge: u64) -> (r:
    Result<(), ExecError>)
    ensures
        step_matches(
            old(state)@,
            final(state)@,
            r,
            pledge_rwa_rule(old(state)@, *sender, rwa_id, amount_to_pledge),
        ),
{
    if amount_to_pledge == 0 {
        return Err(ExecError::InvalidArgument);
    }
    let mut listing = match state.rwa_listings.get(&rwa_id) {
        Some(l) => l.clone(),
        None => {
            return Err(ExecError::NotFound);
        },
    };
    if !listing.is_active || !listing.collateral_eligibility {
        return Err(ExecError::InvalidArgument);
    }
    if amount_to_pledge > saturating_sub_u64(listing.attested_value, listing.pledged_amount) {
        return Err(ExecError::InvalidArgument);
    }
    let mut account = state.accounts.get_or_default(sender);
    let balance = checked_add_u64(account.lusd_balance, amount_to_pledge)?;
    let supply = checked_add_u64(state.total_lusd_supply, amount_to_pledge)?;
    let pool = checked_add_u64(state.stabilization_pool_balance, amount_to_pledge)?;
    listing.pledged_amount = listing.pledged_amount + amount_to_pledge;
    let ghost model = listing@;
    state.rwa_listings.insert(rwa_id, listing);
    assert(listings_view(state.rwa_listings@) =~= listings_view(old(state).rwa_listings@).insert(
        rwa_id,
        model,
    ));
    account.lusd_balance = balance;
    state.accounts.insert(*sender, account);
    state.total_lusd_supply = supply;
    state.stabilization_pool_balance = pool;
    recalculate_ratios(state);
    Ok(())
}

} // verus!
