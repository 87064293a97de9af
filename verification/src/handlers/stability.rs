//! Stability and tranche management: rebalancing, yield distribution, the
//! stabilizer, the circuit breaker and the redemption queue.

use crate::account::AccountModel;
use crate::accounts::AccountSeq;
use crate::rules::{
    checked_add_u64, max64, min64, mul_div, mul_div_u64, recalculate_ratios, recalculated,
    sat_add, sat_mul, sat_sub, saturating_add_u64, saturating_mul_u64, saturating_sub_u64,
    step_matches, ExecError,
};
use crate::state::{GlobalState, RedemptionRequest, StateModel};
use vstd::prelude::*;

verus! {

/// `RebalanceTranches`: with no senior supply nothing happens. Otherwise,
/// where the junior tranche is more than 40% of both supplies together, what
/// it holds beyond 40% is added to the pool; the height is recorded.
pub open spec fn rebalance_rule(s: StateModel, height: u64) -> Result<StateModel, ExecError> {
    if s.total_lusd_supply == 0 {
        Ok(s)
    } else {
        let total = sat_add(s.total_lusd_supply, s.total_ljun_supply);
        let excess = sat_sub(s.total_ljun_supply, (sat_mul(total, 40) / 100) as u64);
        let pool = if s.total_ljun_supply * 100 > 40 * total {
            sat_add(s.stabilization_pool_balance, excess)
        } else {
            s.stabilization_pool_balance
        };
        Ok(
            recalculated(
                StateModel { stabilization_pool_balance: pool, last_rebalance_height: height, ..s },
            ),
        )
    }
}

/// Executes `RebalanceTranches`.
pub fn rebalance_tranches(state: &mut GlobalState, height: u64) -> (r: Result<(), ExecError>)
    ensures
        step_matches(old(state)@, final(state)@, r, rebalance_rule(old(state)@, height)),
{
    if state.total_lusd_supply == 0 {
        return Ok(());
    }
    let total = saturating_add_u64(state.total_lusd_supply, state.total_ljun_supply);
    let junior_wide: u128 = (state.total_ljun_supply as u128) * 100;
    let total_wide: u128 = 40 * (total as u128);
    if junior_wide > total_wide {
        let excess = saturating_sub_u64(state.total_ljun_supply, saturating_mul_u64(total, 40) / 100);
        state.stabilization_pool_balance = saturating_add_u64(
            state.stabilization_pool_balance,
            excess,
        );
    }
    state.last_rebalance_height = height;
    recalculate_ratios(state);
    Ok(())
}

/// An account after its pro-rata part of a junior yield was credited:
/// `floor(junior_share * balance / supply)`, the balance stopping at the
/// largest value.
pub open spec fn credited(a: AccountModel, junior_share: u64, supply: u64) -> AccountModel {
    AccountModel {
        ljun_balance: sat_add(a.ljun_balance, mul_div(junior_share, a.ljun_balance, supply)),
        ..a
    }
}

/// Every account credited with its part of a junior yield.
pub open spec fn distributed(accounts: AccountSeq, junior_share: u64, supply: u64) -> AccountSeq {
    Seq::new(accounts.len(), |i: int| (accounts[i].0, credited(accounts[i].1, junior_share, supply)))
}

/// `DistributeYield`: 80% to the junior holders pro rata, 15% to the pool, the
/// rest to the insurance fund. With no junior supply the 80% go to the pool.
pub open spec fn distribute_yield_rule(s: StateModel, total_yield: u64) -> Result<
    StateModel,
    ExecError,
> {
    let junior_share = (sat_mul(total_yield, 80) / 100) as u64;
    let pool_share = (sat_mul(total_yield, 15) / 100) as u64;
    let insurance_share = sat_sub(sat_sub(total_yield, junior_share), pool_share);
    if total_yield == 0 {
        Ok(s)
    } else if s.stabilization_pool_balance + pool_share > max64() || s.insurance_fund_balance
        + insurance_share > max64() {
        Err(ExecError::Overflow)
    } else {
        let s1 = StateModel {
            stabilization_pool_balance: (s.stabilization_pool_balance + pool_share) as u64,
            insurance_fund_balance: (s.insurance_fund_balance + insurance_share) as u64,
            ..s
        };
        if s.total_ljun_supply > 0 {
            Ok(
                recalculated(
                    StateModel {
                        accounts: distributed(s.accounts, junior_share, s.total_ljun_supply),
                        total_ljun_supply: sat_add(s.total_ljun_supply, junior_share),
                        ..s1
                    },
                ),
            )
        } else {
            Ok(
                recalculated(
                    StateModel {
                        stabilization_pool_balance: sat_add(
                            s1.stabilization_pool_balance,
                            junior_share,
                        ),
                        ..s1
                    },
                ),
            )
        }
    }
}

/// Executes `DistributeYield`. The accounts are credited in ascending
/// address order.
pub fn distribute_yield(state: &mut GlobalState, total_yield: u64) -> (r: Result<(), ExecError>)
    ensures
        step_matches(old(state)@, final(state)@, r, distribute_yield_rule(old(state)@, total_yield)),
{
    if total_yield == 0 {
        return Ok(());
    }
    let junior_share = saturating_mul_u64(total_yield, 80) / 100;
    let pool_share = saturating_mul_u64(total_yield, 15) / 100;
    let insurance_share = saturating_sub_u64(
        saturating_sub_u64(total_yield, junior_share),
        pool_share,
    );
    let pool = checked_add_u64(state.stabilization_pool_balance, pool_share)?;
    let insurance = checked_add_u64(state.insurance_fund_balance, insurance_share)?;
    state.stabilization_pool_balance = pool;
    state.insurance_fund_balance = insurance;
    let supply = state.total_ljun_supply;
    if supply > 0 {
        let n = state.accounts.len();
        let mut i: usize = 0;
        while i < n
            invariant
                i <= n,
                n == old(state)@.accounts.len(),
                supply > 0,
                state@.accounts.len() == n,
                forall|k: int|
                    0 <= k < i ==> state@.accounts[k] == distributed(
                        old(state)@.accounts,
                        junior_share,
                        supply,
                    )[k],
                forall|k: int| i <= k < n ==> state@.accounts[k] == old(state)@.accounts[k],
                (StateModel { accounts: old(state)@.accounts, ..state@ }) == (StateModel {
                    stabilization_pool_balance: pool,
                    insurance_fund_balance: insurance,
                    ..old(state)@
                }),
            decreases n - i,
        {
            let balance = state.accounts.account_at(i).ljun_balance;
            let share = mul_div_u64(junior_share, balance, supply);
            if share > 0 {
                let mut account = state.accounts.account_at(i).clone();
                account.ljun_balance = saturating_add_u64(balance, share);
                state.accounts.replace_at(i, account);
            }
            i = i + 1;
        }
        assert(state@.accounts =~= distributed(old(state)@.accounts, junior_share, supply));
        state.total_ljun_supply = saturating_add_u64(supply, junior_share);
    } else {
        state.stabilization_pool_balance = saturating_add_u64(pool, junior_share);
    }
    recalculate_ratios(state);
    Ok(())
}

/// `TriggerStabilizer`: the ratio is brought up to date; while it is under
/// one and the insurance fund holds anything, the fund tops the pool up by
/// the smaller of the deficit and what the fund holds.
pub open spec fn stabilizer_rule(s: StateModel) -> Result<StateModel, ExecError> {
    let s1 = recalculated(s);
    if s1.reserve_ratio_bps < 10000 && s1.insurance_fund_balance > 0 {
        let deficit = sat_sub(s1.total_lusd_supply, s1.stabilization_pool_balance);
        let topup = min64(deficit, s1.insurance_fund_balance);
        Ok(
            recalculated(
                StateModel {
                    stabilization_pool_balance: sat_add(s1.stabilization_pool_balance, topup),
                    insurance_fund_balance: sat_sub(s1.insurance_fund_balance, topup),
                    ..s1
                },
            ),
        )
    } else {
        Ok(s1)
    }
}

/// Executes `TriggerStabilizer`.
pub fn trigger_stabilizer(state: &mut GlobalState) -> (r: Result<(), ExecError>)
    ensures
        step_matches(old(state)@, final(state)@, r, stabilizer_rule(old(state)@)),
{
    recalculate_ratios(state);
    if state.reserve_ratio_bps < 10000 && state.insurance_fund_balance > 0 {
        let deficit = saturating_sub_u64(state.total_lusd_supply, state.stabilization_pool_balance);
        let topup = if deficit <= state.insurance_fund_balance {
            deficit
        } else {
            state.insurance_fund_balance
        };
        state.stabilization_pool_balance = saturating_add_u64(
            state.stabilization_pool_balance,
            topup,
        );
        state.insurance_fund_balance = saturating_sub_u64(state.insurance_fund_balance, topup);
        recalculate_ratios(state);
    }
    Ok(())
}

/// `RunCircuitBreaker`: the flag is set as given. This is the only rule that
/// can switch the breaker off.
pub open spec fn circuit_breaker_rule(s: StateModel, active: bool) -> Result<StateModel, ExecError> {
    Ok(StateModel { circuit_breaker_active: active, ..s })
}

/// Executes `RunCircuitBreaker`.
pub fn run_circuit_breaker(state: &mut GlobalState, active: bool) -> (r: Result<(), ExecError>)
    ensures
        step_matches(old(state)@, final(state)@, r, circuit_breaker_rule(old(state)@, active)),
{
    state.circuit_breaker_active = active;
    Ok(())
}

/// `x` after the amounts of the first `n` requests were taken from it one by
/// one, each subtraction stopping at zero.
pub open spec fn drained(x: u64, queue: Seq<RedemptionRequest>, n: int) -> u64
    decreases n,
{
    if n <= 0 {
        x
    } else {
        sat_sub(drained(x, queue, n - 1), queue[n - 1].amount)
    }
}

/// How many requests a batch takes: the batch size, or all that are queued.
pub open spec fn batch_len(queue: Seq<RedemptionRequest>, batch_size: u32) -> int {
    if batch_size <= queue.len() {
        batch_size as int
    } else {
        queue.len() as int
    }
}

/// `FairRedeemQueue`: with the breaker off, the oldest requests up to the
/// batch size leave the queue in the order in which they came, and supply and
/// pool shrink by each amount.
pub open spec fn fair_redeem_rule(s: StateModel, batch_size: u32) -> Result<StateModel, ExecError> {
    let n = batch_len(s.fair_redeem_queue, batch_size);
    if s.circuit_breaker_active {
        Err(ExecError::CircuitBreakerTripped)
    } else {
        Ok(
            recalculated(
                StateModel {
                    total_lusd_supply: drained(s.total_lusd_supply, s.fair_redeem_queue, n),
                    stabilization_pool_balance: drained(
                        s.stabilization_pool_balance,
                        s.fair_redeem_queue,
                        n,
                    ),
                    fair_redeem_queue: s.fair_redeem_queue.skip(n),
                    ..s
                },
            ),
        )
    }
}

/// Executes `FairRedeemQueue`.
pub fn fair_redeem_queue(state: &mut GlobalState, batch_size: u32) -> (r: Result<(), ExecError>)
    ensures
        step_matches(old(state)@, final(state)@, r, fair_redeem_rule(old(state)@, batch_size)),
{
    if state.circuit_breaker_active {
        return Err(ExecError::CircuitBreakerTripped);
    }
    let len = state.fair_redeem_queue.len();
    let n: usize = if (batch_size as usize) <= len {
        batch_size as usize
    } else {
        len
    };
    let mut supply = state.total_lusd_supply;
    let mut pool = state.stabilization_pool_balance;
    let mut i: usize = 0;
    while i < n
        invariant
            i <= n <= len,
            len == state.fair_redeem_queue@.len(),
            supply == drained(state.total_lusd_supply, state.fair_redeem_queue@, i as int),
            pool == drained(state.stabilization_pool_balance, state.fair_redeem_queue@, i as int),
        decreases n - i,
    {
        supply = saturating_sub_u64(supply, state.fair_redeem_queue[i].amount);
        pool = saturating_sub_u64(pool, state.fair_redeem_queue[i].amount);
        i = i + 1;
    }
    let mut rest: Vec<RedemptionRequest> = Vec::new();
    let mut j: usize = n;
    while j < len
        invariant
            n <= j <= len,
            len == state.fair_redeem_queue@.len(),
            rest@ == state.fair_redeem_queue@.subrange(n as int, j as int),
        decreases len - j,
    {
        rest.push(state.fair_redeem_queue[j]);
        assert(state.fair_redeem_queue@.subrange(n as int, j as int).push(
            state.fair_redeem_queue@[j as int],
        ) =~= state.fair_redeem_queue@.subrange(n as int, j + 1));
        j = j + 1;
    }
    assert(rest@ =~= state.fair_redeem_queue@.skip(n as int));
    state.fair_redeem_queue = rest;
    state.total_lusd_supply = supply;
    state.stabilization_pool_balance = pool;
    recalculate_ratios(state);
    Ok(())
}

} // verus!
