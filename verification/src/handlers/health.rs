//! The health index: a score from 0 to 10000 assembled from six weighted
//! parts, all in integer arithmetic.

use crate::account::ticker_get;
use crate::rules::{min64, mul_div, mul_div_u64, step_matches, ExecError};
use crate::state::{validators_view, GlobalState, StateModel, ValidatorModel, ValidatorState};
use vstd::prelude::*;
use vstd::string::StringExecFns;

verus! {

/// The reserve part, up to 3000: the ratio, capped at two, times 1500.
pub open spec fn reserve_score(ratio_bps: u64) -> u64 {
    (min64(ratio_bps, 20000) * 1500 / 10000) as u64
}

/// The peg part: 2500 within 5% of one dollar, 1500 within 10%, else 500.
pub open spec fn peg_score(price: u64) -> u64 {
    let deviation = if price > 1_000_000 {
        price - 1_000_000
    } else {
        1_000_000 - price
    };
    if deviation < 50_000 {
        2500
    } else if deviation < 100_000 {
        1500
    } else {
        500
    }
}

/// The insurance part, up to 1500: the fund over the senior supply times
/// 30000; 1500 without supply.
pub open spec fn insurance_score(insurance: u64, supply: u64) -> u64 {
    if supply == 0 {
        1500
    } else {
        min64(mul_div(insurance, 30000, supply), 1500)
    }
}

/// The number of green validators among the first `n`.
pub open spec fn green_count(validators: Seq<ValidatorModel>, n: int) -> nat
    decreases n,
{
    if n <= 0 {
        0
    } else {
        green_count(validators, n - 1) + if validators[n - 1].is_green {
            1nat
        } else {
            0nat
        }
    }
}

/// The green part, up to 1000: the green validators per thousand; 500
/// without validators.
pub open spec fn green_score(validators: Seq<ValidatorModel>) -> u64 {
    if validators.len() == 0 {
        500
    } else {
        min64(
            (green_count(validators, validators.len() as int) * 1000 / validators.len()) as u64,
            1000,
        )
    }
}

/// The custodian part: 50 for each custodian up to ten.
pub open spec fn custodian_score(custodians: nat) -> u64 {
    if custodians >= 10 {
        500
    } else {
        (custodians * 50) as u64
    }
}

/// The price that the peg is judged by: the oracle's `LUSD-USD`, or one
/// dollar where the oracle has none.
pub open spec fn peg_price(s: StateModel) -> u64 {
    match ticker_get(s.oracle_prices, "LUSD-USD"@) {
        Some(p) => p,
        None => 1_000_000,
    }
}

/// The health index of a state: the six parts added up, at most 10000.
pub open spec fn health_index_of(s: StateModel) -> u64 {
    let sum = reserve_score(s.reserve_ratio_bps) + peg_score(peg_price(s)) + if s.circuit_breaker_active {
        0int
    } else {
        1500int
    } + insurance_score(s.insurance_fund_balance, s.total_lusd_supply) + green_score(s.validators)
        + custodian_score(s.custodians.len());
    if sum > 10000 {
        10000
    } else {
        sum as u64
    }
}

/// The number of green validators.
pub fn count_green(validators: &Vec<ValidatorState>) -> (count: usize)
    ensures
        count == green_count(validators_view(validators@), validators@.len() as int),
        count <= validators@.len(),
{
    let mut count: usize = 0;
    let mut i: usize = 0;
    while i < validators.len()
        invariant
            i <= validators@.len(),
            count <= i,
            count == green_count(validators_view(validators@), i as int),
        decreases validators@.len() - i,
    {
        if validators[i].is_green {
            count = count + 1;
        }
        i = i + 1;
    }
    count
}

/// `ComputeHealthIndex`: the index is computed and stored.
pub open spec fn health_rule(s: StateModel) -> Result<StateModel, ExecError> {
    Ok(StateModel { health_index: health_index_of(s), ..s })
}

/// Computes the health index of the state and stores it.
pub fn compute_health_index(state: &mut GlobalState)
    ensures
        final(state)@ == (StateModel { health_index: health_index_of(old(state)@), ..old(state)@ }),
        final(state).health_index <= 10000,
{
    let capped: u64 = if state.reserve_ratio_bps <= 20000 {
        state.reserve_ratio_bps
    } else {
        20000
    };
    let reserve: u64 = capped * 1500 / 10000;
    let key = String::from_str("LUSD-USD");
    let price: u64 = match state.oracle_prices.get(&key) {
        Some(p) => p,
        None => 1_000_000,
    };
    let deviation: u64 = if price > 1_000_000 {
        price - 1_000_000
    } else {
        1_000_000 - price
    };
    let peg: u64 = if deviation < 50_000 {
        2500
    } else if deviation < 100_000 {
        1500
    } else {
        500
    };
    let breaker: u64 = if state.circuit_breaker_active {
        0
    } else {
        1500
    };
    let insurance: u64 = if state.total_lusd_supply > 0 {
        let scaled = mul_div_u64(state.insurance_fund_balance, 30000, state.total_lusd_supply);
        if scaled <= 1500 {
            scaled
        } else {
            1500
        }
    } else {
        1500
    };
    let total = state.validators.len();
    let green: u64 = if total > 0 {
        let greens = count_green(&state.validators);
        assert(greens * 1000 / (total as int) <= 1000) by (nonlinear_arith)
            requires
                0 <= greens <= total,
                total > 0,
        ;
        let share = (greens as u128 * 1000 / (total as u128)) as u64;
        if share <= 1000 {
            share
        } else {
            1000
        }
    } else {
        500
    };
    let custodians: u64 = if state.custodians.len() >= 10 {
        500
    } else {
        (state.custodians.len() as u64) * 50
    };
    let sum: u64 = reserve + peg + breaker + insurance + green + custodians;
    state.health_index = if sum > 10000 {
        10000
    } else {
        sum
    };
}

/// Executes `ComputeHealthIndex`.
pub fn run_health_index(state: &mut GlobalState) -> (r: Result<(), ExecError>)
    ensures
        step_matches(old(state)@, final(state)@, r, health_rule(old(state)@)),
{
    compute_health_index(state);
    Ok(())
}

} // verus!
