//! Fiat and market hooks: the fiat bridge, batch matching, hedging, custodian
//! rotation by zone, velocity incentives and payment streams.

use crate::account::{AccountModel, StreamState};
use crate::accounts::accounts_get;
use crate::bytes::{addr_eq, addr_list_contains, Address};
use crate::rules::{BalanceKind, 
    max64, min64, mul_div, mul_div_u64, recalculate_ratios, recalculated, sat_add, sat_mul,
    sat_sub, saturating_add_u64, saturating_mul_u64, saturating_sub_u64, step_matches,
    with_account, ExecError,
};
use crate::state::{custodians_view, CustodianState, GlobalState, StateModel};
use vstd::prelude::*;

verus! {

/// `InstantFiatBridge`: the amount leaves the sender and the senior supply;
/// the pool shrinks by it, stopping at zero.
pub open spec fn fiat_bridge_rule(s: StateModel, sender: Address, amount: u64) -> Result<
    StateModel,
    ExecError,
> {
    let a = accounts_get(s.accounts, sender);
    if a.lusd_balance < amount {
        Err(ExecError::InsufficientBalance { asset: BalanceKind::Lusd })
    } else if s.total_lusd_supply < amount {
        Err(ExecError::Underflow)
    } else {
        Ok(
            recalculated(
                StateModel {
                    total_lusd_supply: (s.total_lusd_supply - amount) as u64,
                    stabilization_pool_balance: sat_sub(s.stabilization_pool_balance, amount),
                    ..with_account(
                        s,
                        sender,
                        AccountModel { lusd_balance: (a.lusd_balance - amount) as u64, ..a },
                    )
                },
            ),
        )
    }
}

/// Executes `InstantFiatBridge`.
pub fn instant_fiat_bridge(state: &mut GlobalState, sender: &Address, amount: u64) -> (r: Result<
    (),
    ExecError,
>)
    ensures
        step_matches(old(state)@, final(state)@, r, fiat_bridge_rule(old(state)@, *sender, amount)),
{
    let mut account = state.accounts.get_or_default(sender);
    if account.lusd_balance < amount {
        return Err(ExecError::InsufficientBalance { asset: BalanceKind::Lusd });
    }
    if state.total_lusd_supply < amount {
        return Err(ExecError::Underflow);
    }
    account.lusd_balance = account.lusd_balance - amount;
    state.accounts.insert(*sender, account);
    state.total_lusd_supply = state.total_lusd_supply - amount;
    state.stabilization_pool_balance = saturating_sub_u64(state.stabilization_pool_balance, amount);
    recalculate_ratios(state);
    Ok(())
}

/// `ZeroSlipBatchMatch`: a batch of 1 to 1000 orders, none of them twice,
/// whose tag was not matched before; the tag is recorded.
pub open spec fn batch_match_rule(s: StateModel, orders: Seq<[u8; 32]>, batch_id: [u8; 32]) -> Result<
    StateModel,
    ExecError,
> {
    if orders.len() == 0 || orders.len() > 1000 {
        Err(ExecError::InvalidArgument)
    } else if !orders.no_duplicates() {
        Err(ExecError::InvalidArgument)
    } else if s.executed_batch_matches.contains(batch_id) {
        Err(ExecError::Replay)
    } else {
        Ok(StateModel { executed_batch_matches: s.executed_batch_matches.push(batch_id), ..s })
    }
}

/// Whether no entry of the list occurs twice.
pub fn all_distinct(list: &Vec<[u8; 32]>) -> (r: bool)
    ensures
        r == list@.no_duplicates(),
{
    let mut i: usize = 0;
    while i < list.len()
        invariant
            i <= list.len(),
            forall|a: int, b: int| 0 <= a < b < i ==> list@[a] != list@[b],
        decreases list.len() - i,
    {
        let mut j: usize = 0;
        while j < i
            invariant
                j <= i < list.len(),
                forall|a: int| 0 <= a < j ==> list@[a] != list@[i as int],
            decreases i - j,
        {
            if addr_eq(&list[j], &list[i]) {
                return false;
            }
            j = j + 1;
        }
        i = i + 1;
    }
    assert forall|a: int, b: int| 0 <= a < list@.len() && 0 <= b < list@.len() && a != b implies list@[a]
        != list@[b] by {
        if a < b {
        } else {
            assert(list@[b] != list@[a]);
        }
    }
    true
}

/// Executes `ZeroSlipBatchMatch`.
pub fn zero_slip_batch_match(state: &mut GlobalState, orders: &Vec<[u8; 32]>, batch_id: &[u8; 32]) -> (r:
    Result<(), ExecError>)
    ensures
        step_matches(
            old(state)@,
            final(state)@,
            r,
            batch_match_rule(old(state)@, orders@, *batch_id),
        ),
{
    if orders.len() == 0 || orders.len() > 1000 {
        return Err(ExecError::InvalidArgument);
    }
    if !all_distinct(orders) {
        return Err(ExecError::InvalidArgument);
    }
    if addr_list_contains(&state.executed_batch_matches, batch_id) {
        return Err(ExecError::Replay);
    }
    state.executed_batch_matches.push(*batch_id);
    Ok(())
}

/// `DynamicHedge`: with a ratio of at most 10000 basis points, the insurance
/// fund moves into the pool what the pool lacks of
/// `floor(supply * ratio / 10000)`, as far as the fund reaches.
pub open spec fn dynamic_hedge_rule(s: StateModel, ratio_bps: u64) -> Result<StateModel, ExecError> {
    let target = mul_div(s.total_lusd_supply, ratio_bps, 10000);
    if ratio_bps > 10000 {
        Err(ExecError::InvalidArgument)
    } else if ratio_bps > 0 && target > s.stabilization_pool_balance {
        let moved = min64(
            s.insurance_fund_balance,
            (target - s.stabilization_pool_balance) as u64,
        );
        Ok(
            recalculated(
                StateModel {
                    stabilization_pool_balance: sat_add(s.stabilization_pool_balance, moved),
                    insurance_fund_balance: sat_sub(s.insurance_fund_balance, moved),
                    ..s
                },
            ),
        )
    } else {
        Ok(recalculated(s))
    }
}

/// Executes `DynamicHedge`.
pub fn dynamic_hedge(state: &mut GlobalState, ratio_bps: u64) -> (r: Result<(), ExecError>)
    ensures
        step_matches(old(state)@, final(state)@, r, dynamic_hedge_rule(old(state)@, ratio_bps)),
{
    if ratio_bps > 10000 {
        return Err(ExecError::InvalidArgument);
    }
    if ratio_bps > 0 {
        let target = mul_div_u64(state.total_lusd_supply, ratio_bps, 10000);
        if target > state.stabilization_pool_balance {
            let lacking = target - state.stabilization_pool_balance;
            let moved = if state.insurance_fund_balance <= lacking {
                state.insurance_fund_balance
            } else {
                lacking
            };
            state.stabilization_pool_balance = saturating_add_u64(
                state.stabilization_pool_balance,
                moved,
            );
            state.insurance_fund_balance = saturating_sub_u64(state.insurance_fund_balance, moved);
        }
    }
    recalculate_ratios(state);
    Ok(())
}

/// A list turned left by `k` places.
pub open spec fn rotated_left<T>(list: Seq<T>, k: int) -> Seq<T> {
    list.subrange(k, list.len() as int) + list.subrange(0, k)
}

/// `GeoRebalance`: for a zone other than zero, the custodian list is turned
/// left by the zone number modulo its length.
pub open spec fn geo_rebalance_rule(s: StateModel, zone_id: u32) -> Result<StateModel, ExecError> {
    if zone_id == 0 {
        Err(ExecError::InvalidArgument)
    } else if s.custodians.len() == 0 {
        Ok(s)
    } else {
        Ok(
            StateModel {
                custodians: rotated_left(s.custodians, (zone_id as int) % (s.custodians.len() as int)),
                ..s
            },
        )
    }
}

/// Executes `GeoRebalance`.
pub fn geo_rebalance(state: &mut GlobalState, zone_id: u32) -> (r: Result<(), ExecError>)
    ensures
        step_matches(old(state)@, final(state)@, r, geo_rebalance_rule(old(state)@, zone_id)),
{
    if zone_id == 0 {
        return Err(ExecError::InvalidArgument);
    }
    let len = state.custodians.len();
    if len == 0 {
        assert(state@.custodians.len() == 0);
        return Ok(());
    }
    let k: usize = (zone_id as usize) % len;
    let mut turned: Vec<CustodianState> = Vec::new();
    let mut i: usize = 0;
    while i < len
        invariant
            i <= len,
            k < len,
            len == state.custodians@.len(),
            turned@.len() == i,
            forall|j: int|
                0 <= j < i ==> turned@[j]@ == state.custodians@[if j + k < len {
                    j + k
                } else {
                    j + k - len
                }]@,
        decreases len - i,
    {
        let from: usize = if i < len - k {
            i + k
        } else {
            i - (len - k)
        };
        turned.push(state.custodians[from].clone());
        i = i + 1;
    }
    assert(custodians_view(turned@) =~= rotated_left(custodians_view(state.custodians@), k as int));
    state.custodians = turned;
    Ok(())
}

/// `VelocityIncentive`: for a multiplier of 1 to 5000 basis points, the
/// reward pool grows by `supply * multiplier / 1_000_000`.
pub open spec fn velocity_incentive_rule(s: StateModel, multiplier_bps: u64) -> Result<
    StateModel,
    ExecError,
> {
    if multiplier_bps == 0 || multiplier_bps > 5000 {
        Err(ExecError::InvalidArgument)
    } else {
        Ok(
            StateModel {
                velocity_reward_pool: sat_add(
                    s.velocity_reward_pool,
                    (sat_mul(s.total_lusd_supply, multiplier_bps) / 1_000_000) as u64,
                ),
                ..s
            },
        )
    }
}

/// Executes `VelocityIncentive`.
pub fn velocity_incentive(state: &mut GlobalState, multiplier_bps: u64) -> (r: Result<(), ExecError>)
    ensures
        step_matches(
            old(state)@,
            final(state)@,
            r,
            velocity_incentive_rule(old(state)@, multiplier_bps),
        ),
{
    if multiplier_bps == 0 || multiplier_bps > 5000 {
        return Err(ExecError::InvalidArgument);
    }
    let addition = saturating_mul_u64(state.total_lusd_supply, multiplier_bps) / 1_000_000;
    state.velocity_reward_pool = saturating_add_u64(state.velocity_reward_pool, addition);
    Ok(())
}

/// `StreamPayment`: rate times duration of the sender's senior tokens go
/// into escrow, and the stream is appended to the sender's streams.
pub open spec fn stream_payment_rule(
    s: StateModel,
    sender: Address,
    to: Address,
    amount_per_sec: u64,
    duration: u64,
    timestamp: u64,
) -> Result<StateModel, ExecError> {
    let a = accounts_get(s.accounts, sender);
    let total = amount_per_sec * duration;
    if amount_per_sec == 0 || duration == 0 {
        Err(ExecError::InvalidArgument)
    } else if total > max64() {
        Err(ExecError::Overflow)
    } else if a.lusd_balance < total {
        Err(ExecError::InsufficientBalance { asset: BalanceKind::Lusd })
    } else {
        Ok(
            with_account(
                s,
                sender,
                AccountModel {
                    lusd_balance: (a.lusd_balance - total) as u64,
                    active_streams: a.active_streams.push(
                        StreamState {
                            recipient: to,
                            amount_per_sec,
                            start_timestamp: timestamp,
                            end_timestamp: sat_add(timestamp, duration),
                            withdrawn: 0,
                        },
                    ),
                    ..a
                },
            ),
        )
    }
}

/// Executes `StreamPayment`.
pub fn stream_payment(
    state: &mut GlobalState,
    sender: &Address,
    to: &Address,
    amount_per_sec: u64,
    duration: u64,
    timestamp: u64,
) -> (r: Result<(), ExecError>)
    ensures
        step_matches(
            old(state)@,
            final(state)@,
            r,
            stream_payment_rule(old(state)@, *sender, *to, amount_per_sec, duration, timestamp),
        ),
{
    if amount_per_sec == 0 || duration == 0 {
        return Err(ExecError::InvalidArgument);
    }
    proof {
        crate::rules::lemma_product_bound(amount_per_sec, duration);
    }
    let wide: u128 = (amount_per_sec as u128) * (duration as u128);
    if wide > u64::MAX as u128 {
        return Err(ExecError::Overflow);
    }
    let total = wide as u64;
    let mut account = state.accounts.get_or_default(sender);
    if account.lusd_balance < total {
        return Err(ExecError::InsufficientBalance { asset: BalanceKind::Lusd });
    }
    account.lusd_balance = account.lusd_balance - total;
    account.active_streams.push(
        StreamState {
            recipient: *to,
            amount_per_sec,
            start_timestamp: timestamp,
            end_timestamp: saturating_add_u64(timestamp, duration),
            withdrawn: 0,
        },
    );
    state.accounts.insert(*sender, account);
    Ok(())
}

} // verus!
