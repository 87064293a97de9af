//! What every instruction shares: the error kinds, the outcome relation,
//! overflow-checked arithmetic and the reserve-ratio rule.

use crate::account::AccountModel;
use crate::accounts::accounts_put;
use crate::bytes::Address;
use crate::state::{GlobalState, StateModel};
use vstd::prelude::*;

verus! {

/// What a balance is a balance of.
#[derive(Debug, Clone, Copy, PartialEq, Eq, Structural)]
pub enum BalanceKind {
    /// Senior tokens of an account.
    Lusd,
    /// Junior tokens of an account.
    Ljun,
    /// Native tokens of an account.
    Lumina,
    /// A custom asset of an account.
    Custom,
    /// The insurance fund.
    Insurance,
}

/// Why a transaction was refused.
#[derive(Debug, Clone, Copy, PartialEq, Eq, Structural)]
pub enum ExecError {
    /// A signature did not verify.
    CryptoInvalid,
    /// The transaction's nonce is not the sender's next nonce.
    NonceMismatch { expected: u64, got: u64 },
    /// A monetary sum left the 64-bit range.
    Overflow,
    /// A monetary difference fell below zero.
    Underflow,
    /// Less is held than the operation takes.
    InsufficientBalance { asset: BalanceKind },
    /// Too few guardians approved a recovery.
    ThresholdNotMet,
    /// A proof was refused by its verifier.
    ProofInvalid,
    /// A proof or batch was seen before.
    Replay,
    /// An argument is empty, zero or out of range.
    InvalidArgument,
    /// The circuit breaker is on.
    CircuitBreakerTripped,
    /// The thing named does not exist.
    NotFound,
    /// The operation comes too soon after the last one.
    RateLimited,
}

/// What the outside verifiers and the hash function found on an instruction,
/// for the executor to decide on.
#[derive(Debug, Clone, Copy)]
pub struct Evidence {
    /// The instruction's proof passed its verifier.
    pub proof_ok: bool,
    /// The hash tag of the instruction's proof or order batch.
    pub digest: [u8; 32],
    /// The number of distinct guardians whose signature approved a recovery.
    pub approvals: u64,
}

/// The largest 64-bit value.
pub open spec fn max64() -> int {
    0xffff_ffff_ffff_ffff
}

/// `a - b`, or zero where `b` is greater.
pub open spec fn sat_sub(a: u64, b: u64) -> u64 {
    if a >= b {
        (a - b) as u64
    } else {
        0
    }
}

/// `a + b`, or the largest value where the sum leaves the range.
pub open spec fn sat_add(a: u64, b: u64) -> u64 {
    if a + b <= max64() {
        (a + b) as u64
    } else {
        0xffff_ffff_ffff_ffff
    }
}

/// `a * b`, or the largest value where the product leaves the range.
pub open spec fn sat_mul(a: u64, b: u64) -> u64 {
    if a * b <= max64() {
        (a * b) as u64
    } else {
        0xffff_ffff_ffff_ffff
    }
}

/// The smaller of two values.
pub open spec fn min64(a: u64, b: u64) -> u64 {
    if a <= b {
        a
    } else {
        b
    }
}

/// How a step's result relates to what the rules prescribe: on success the
/// state is the prescribed one; on failure the error is the prescribed one
/// and the state is as it was.
pub open spec fn step_matches(
    pre: StateModel,
    post: StateModel,
    result: Result<(), ExecError>,
    expected: Result<StateModel, ExecError>,
) -> bool {
    match expected {
        Ok(s) => result is Ok && post == s,
        Err(e) => result == Err::<(), ExecError>(e) && post == pre,
    }
}

/// The state with `account` written at `address`.
pub open spec fn with_account(s: StateModel, address: Address, account: AccountModel) -> StateModel {
    StateModel { accounts: accounts_put(s.accounts, address, account), ..s }
}

/// Pool over supply in basis points, rounded down and capped at the largest
/// 64-bit value; 10000 where there is no supply.
pub open spec fn ratio_bps(pool: u64, supply: u64) -> u64 {
    if supply == 0 {
        10000
    } else {
        let q = (pool * 10000) / (supply as int);
        if q > max64() {
            0xffff_ffff_ffff_ffff
        } else {
            q as u64
        }
    }
}

/// The state after the reserve ratio is brought up to date: with no senior
/// supply the ratio is one; otherwise it is pool over supply, and a ratio
/// under 85% switches the circuit breaker on. Nothing here switches it off.
pub open spec fn recalculated(s: StateModel) -> StateModel {
    if s.total_lusd_supply == 0 {
        StateModel { reserve_ratio_bps: 10000, ..s }
    } else {
        let bps = ratio_bps(s.stabilization_pool_balance, s.total_lusd_supply);
        StateModel {
            reserve_ratio_bps: bps,
            circuit_breaker_active: s.circuit_breaker_active || bps < 8500,
            ..s
        }
    }
}

/// The product of two 64-bit values fits in 128 bits.
pub proof fn lemma_product_bound(a: u64, b: u64)
    ensures
        0 <= a * b <= 0xffff_ffff_ffff_ffff * 0xffff_ffff_ffff_ffff,
        a * b <= 0xffff_ffff_ffff_ffff_ffff_ffff_ffff_ffff,
{
    assert(0 <= a * b <= 0xffff_ffff_ffff_ffff * 0xffff_ffff_ffff_ffff) by (nonlinear_arith)
        requires
            0 <= a <= 0xffff_ffff_ffff_ffff,
            0 <= b <= 0xffff_ffff_ffff_ffff,
    ;
}

/// `lhs + rhs`, refused where the sum leaves the 64-bit range.
pub fn checked_add_u64(lhs: u64, rhs: u64) -> (r: Result<u64, ExecError>)
    ensures
        lhs + rhs <= max64() ==> r == Ok::<u64, ExecError>((lhs + rhs) as u64),
        lhs + rhs > max64() ==> r == Err::<u64, ExecError>(ExecError::Overflow),
{
    if lhs <= u64::MAX - rhs {
        Ok(lhs + rhs)
    } else {
        Err(ExecError::Overflow)
    }
}

/// `lhs - rhs`, refused where `rhs` is greater.
pub fn checked_sub_u64(lhs: u64, rhs: u64) -> (r: Result<u64, ExecError>)
    ensures
        lhs >= rhs ==> r == Ok::<u64, ExecError>((lhs - rhs) as u64),
        lhs < rhs ==> r == Err::<u64, ExecError>(ExecError::Underflow),
{
    if lhs >= rhs {
        Ok(lhs - rhs)
    } else {
        Err(ExecError::Underflow)
    }
}

/// `a - b`, stopping at zero.
pub fn saturating_sub_u64(a: u64, b: u64) -> (r: u64)
    ensures
        r == sat_sub(a, b),
{
    if a >= b {
        a - b
    } else {
        0
    }
}

/// `a + b`, stopping at the largest value.
pub fn saturating_add_u64(a: u64, b: u64) -> (r: u64)
    ensures
        r == sat_add(a, b),
{
    if a <= u64::MAX - b {
        a + b
    } else {
        u64::MAX
    }
}

/// `a * b`, stopping at the largest value.
pub fn saturating_mul_u64(a: u64, b: u64) -> (r: u64)
    ensures
        r == sat_mul(a, b),
{
    proof {
        lemma_product_bound(a, b);
    }
    let wide: u128 = (a as u128) * (b as u128);
    if wide <= u64::MAX as u128 {
        wide as u64
    } else {
        u64::MAX
    }
}

/// `floor(a * b / d)` computed without overflow, stopping at the largest
/// 64-bit value.
pub fn mul_div_u64(a: u64, b: u64, d: u64) -> (r: u64)
    requires
        d > 0,
    ensures
        r == mul_div(a, b, d),
{
    proof {
        lemma_product_bound(a, b);
    }
    let wide: u128 = (a as u128) * (b as u128);
    let q: u128 = wide / (d as u128);
    if q <= u64::MAX as u128 {
        q as u64
    } else {
        u64::MAX
    }
}

/// `floor(a * b / d)`, capped at the largest 64-bit value.
pub open spec fn mul_div(a: u64, b: u64, d: u64) -> u64 {
    let q = (a * b) / (d as int);
    if q > max64() {
        0xffff_ffff_ffff_ffff
    } else {
        q as u64
    }
}

/// The reserve ratio of a pool and a supply, in basis points.
pub fn compute_ratio_bps(pool: u64, supply: u64) -> (r: u64)
    ensures
        r == ratio_bps(pool, supply),
{
    if supply == 0 {
        10000
    } else {
        mul_div_u64(pool, 10000, supply)
    }
}

/// Brings the reserve ratio up to date and trips the circuit breaker where
/// the ratio has fallen under 85%.
pub fn recalculate_ratios(state: &mut GlobalState)
    ensures
        final(state)@ == recalculated(old(state)@),
{
    if state.total_lusd_supply == 0 {
        state.reserve_ratio_bps = 10000;
    } else {
        let bps = compute_ratio_bps(state.stabilization_pool_balance, state.total_lusd_supply);
        state.reserve_ratio_bps = bps;
        if bps < 8500 {
            state.circuit_breaker_active = true;
        }
    }
}

} // verus!
