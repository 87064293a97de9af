//! The global chain state and its mathematical model.

use crate::account::{copy_opt_bytes, opt_bytes_view, TickerTable};
use crate::accounts::{AccountMap, AccountSeq};
use crate::bytes::{copy_addrs, copy_bytes, Address};
use std::collections::BTreeMap;
use vstd::prelude::*;

verus! {

/// A queued redemption, waiting for the reserve to recover.
#[derive(Debug, Clone, Copy)]
pub struct RedemptionRequest {
    pub address: Address,
    pub amount: u64,
    pub timestamp: u64,
}

/// A registered validator.
#[derive(Debug)]
pub struct ValidatorState {
    pub pubkey: [u8; 32],
    pub stake: u64,
    pub power: u64,
    pub is_green: bool,
    pub energy_proof: Option<Vec<u8>>,
}

/// The mathematical value of a validator.
pub struct ValidatorModel {
    pub pubkey: [u8; 32],
    pub stake: u64,
    pub power: u64,
    pub is_green: bool,
    pub energy_proof: Option<Seq<u8>>,
}

impl View for ValidatorState {
    type V = ValidatorModel;

    open spec fn view(&self) -> ValidatorModel {
        ValidatorModel {
            pubkey: self.pubkey,
            stake: self.stake,
            power: self.power,
            is_green: self.is_green,
            energy_proof: opt_bytes_view(self.energy_proof),
        }
    }
}

impl Clone for ValidatorState {
    fn clone(&self) -> (r: Self)
        ensures
            r@ == self@,
    {
        ValidatorState {
            pubkey: self.pubkey,
            stake: self.stake,
            power: self.power,
            is_green: self.is_green,
            energy_proof: copy_opt_bytes(&self.energy_proof),
        }
    }
}

/// A registered reserve custodian.
#[derive(Debug)]
pub struct CustodianState {
    pub pubkey: [u8; 32],
    pub stake: u64,
    pub mpc_pubkeys: Vec<[u8; 32]>,
    pub registered_height: u64,
}

/// The mathematical value of a custodian.
pub struct CustodianModel {
    pub pubkey: [u8; 32],
    pub stake: u64,
    pub mpc_pubkeys: Seq<[u8; 32]>,
    pub registered_height: u64,
}

impl View for CustodianState {
    type V = CustodianModel;

    open spec fn view(&self) -> CustodianModel {
        CustodianModel {
            pubkey: self.pubkey,
            stake: self.stake,
            mpc_pubkeys: self.mpc_pubkeys@,
            registered_height: self.registered_height,
        }
    }
}

impl Clone for CustodianState {
    fn clone(&self) -> (r: Self)
        ensures
            r@ == self@,
    {
        CustodianState {
            pubkey: self.pubkey,
            stake: self.stake,
            mpc_pubkeys: copy_addrs(&self.mpc_pubkeys),
            registered_height: self.registered_height,
        }
    }
}

/// A listed real-world asset.
#[derive(Debug)]
pub struct RWAListing {
    pub owner: Address,
    pub asset_description: String,
    pub attestation_proof: Vec<u8>,
    pub attested_value: u64,
    pub maturity_date: Option<u64>,
    pub collateral_eligibility: bool,
    pub is_active: bool,
    pub pledged_amount: u64,
}

/// The mathematical value of a listing.
pub struct RwaModel {
    pub owner: Address,
    pub asset_description: Seq<char>,
    pub attestation_proof: Seq<u8>,
    pub attested_value: u64,
    pub maturity_date: Option<u64>,
    pub collateral_eligibility: bool,
    pub is_active: bool,
    pub pledged_amount: u64,
}

impl View for RWAListing {
    type V = RwaModel;

    open spec fn view(&self) -> RwaModel {
        RwaModel {
            owner: self.owner,
            asset_description: self.asset_description@,
            attestation_proof: self.attestation_proof@,
            attested_value: self.attested_value,
            maturity_date: self.maturity_date,
            collateral_eligibility: self.collateral_eligibility,
            is_active: self.is_active,
            pledged_amount: self.pledged_amount,
        }
    }
}

impl Clone for RWAListing {
    fn clone(&self) -> (r: Self)
        ensures
            r@ == self@,
    {
        RWAListing {
            owner: self.owner,
            asset_description: self.asset_description.clone(),
            attestation_proof: copy_bytes(self.attestation_proof.as_slice()),
            attested_value: self.attested_value,
            maturity_date: self.maturity_date,
            collateral_eligibility: self.collateral_eligibility,
            is_active: self.is_active,
            pledged_amount: self.pledged_amount,
        }
    }
}

/// The views of a list of validators.
pub open spec fn validators_view(v: Seq<ValidatorState>) -> Seq<ValidatorModel> {
    Seq::new(v.len(), |i: int| v[i]@)
}

/// The views of a list of custodians.
pub open spec fn custodians_view(v: Seq<CustodianState>) -> Seq<CustodianModel> {
    Seq::new(v.len(), |i: int| v[i]@)
}

/// The views of the listings of a registry.
pub open spec fn listings_view(m: Map<u64, RWAListing>) -> Map<u64, RwaModel> {
    Map::new(|k: u64| m.contains_key(k), |k: u64| m[k]@)
}

/// The views of the verifier keys of a circuit registry.
pub open spec fn circuits_view(m: Map<u64, Vec<u8>>) -> Map<u64, Seq<u8>> {
    Map::new(|k: u64| m.contains_key(k), |k: u64| m[k]@)
}

/// The complete state of the chain at one height.
#[derive(Debug)]
pub struct GlobalState {
    pub accounts: AccountMap,
    pub total_lusd_supply: u64,
    pub total_ljun_supply: u64,
    pub stabilization_pool_balance: u64,
    /// Pool over senior supply in basis points, rounded down; 10000 stands
    /// for a ratio of one.
    pub reserve_ratio_bps: u64,
    /// Oracle prices by ticker, scaled by one million.
    pub oracle_prices: TickerTable,
    pub validators: Vec<ValidatorState>,
    pub circuit_breaker_active: bool,
    /// Redemptions queued under stress, oldest first.
    pub fair_redeem_queue: Vec<RedemptionRequest>,
    pub last_rebalance_height: u64,
    pub insurance_fund_balance: u64,
    pub custodians: Vec<CustodianState>,
    pub last_reserve_rotation_height: u64,
    /// Verifier keys of uploaded compliance circuits, by circuit id.
    pub compliance_circuits: BTreeMap<u64, Vec<u8>>,
    pub rwa_listings: BTreeMap<u64, RWAListing>,
    pub next_rwa_id: u64,
    pub trusted_credit_oracles: Vec<[u8; 32]>,
    /// Tags of the credit proofs that were accepted.
    pub used_credit_proofs: Vec<[u8; 32]>,
    pub next_yield_token_id: u64,
    /// 0..=10000.
    pub health_index: u64,
    /// Flash-minted senior supply not yet burned in this block.
    pub pending_flash_mints: u64,
    pub current_epoch: u64,
    pub velocity_reward_pool: u64,
    pub last_por_timestamp: u64,
    pub last_por_hash: Option<[u8; 32]>,
    /// Tags of the order batches that were matched.
    pub executed_batch_matches: Vec<[u8; 32]>,
}

/// The mathematical value of the chain state.
pub struct StateModel {
    pub accounts: AccountSeq,
    pub total_lusd_supply: u64,
    pub total_ljun_supply: u64,
    pub stabilization_pool_balance: u64,
    pub reserve_ratio_bps: u64,
    pub oracle_prices: Seq<(Seq<char>, u64)>,
    pub validators: Seq<ValidatorModel>,
    pub circuit_breaker_active: bool,
    pub fair_redeem_queue: Seq<RedemptionRequest>,
    pub last_rebalance_height: u64,
    pub insurance_fund_balance: u64,
    pub custodians: Seq<CustodianModel>,
    pub last_reserve_rotation_height: u64,
    pub compliance_circuits: Map<u64, Seq<u8>>,
    pub rwa_listings: Map<u64, RwaModel>,
    pub next_rwa_id: u64,
    pub trusted_credit_oracles: Seq<[u8; 32]>,
    pub used_credit_proofs: Seq<[u8; 32]>,
    pub next_yield_token_id: u64,
    pub health_index: u64,
    pub pending_flash_mints: u64,
    pub current_epoch: u64,
    pub velocity_reward_pool: u64,
    pub last_por_timestamp: u64,
    pub last_por_hash: Option<[u8; 32]>,
    pub executed_batch_matches: Seq<[u8; 32]>,
}

/// The state before genesis: no accounts and every counter at zero.
pub open spec fn empty_state() -> StateModel {
    StateModel {
        accounts: Seq::empty(),
        total_lusd_supply: 0,
        total_ljun_supply: 0,
        stabilization_pool_balance: 0,
        reserve_ratio_bps: 0,
        oracle_prices: Seq::empty(),
        validators: Seq::empty(),
        circuit_breaker_active: false,
        fair_redeem_queue: Seq::empty(),
        last_rebalance_height: 0,
        insurance_fund_balance: 0,
        custodians: Seq::empty(),
        last_reserve_rotation_height: 0,
        compliance_circuits: Map::empty(),
        rwa_listings: Map::empty(),
        next_rwa_id: 0,
        trusted_credit_oracles: Seq::empty(),
        used_credit_proofs: Seq::empty(),
        next_yield_token_id: 0,
        health_index: 0,
        pending_flash_mints: 0,
        current_epoch: 0,
        velocity_reward_pool: 0,
        last_por_timestamp: 0,
        last_por_hash: None,
        executed_batch_matches: Seq::empty(),
    }
}

impl View for GlobalState {
    type V = StateModel;

    open spec fn view(&self) -> StateModel {
        StateModel {
            accounts: self.accounts@,
            total_lusd_supply: self.total_lusd_supply,
            total_ljun_supply: self.total_ljun_supply,
            stabilization_pool_balance: self.stabilization_pool_balance,
            reserve_ratio_bps: self.reserve_ratio_bps,
            oracle_prices: self.oracle_prices@,
            validators: validators_view(self.validators@),
            circuit_breaker_active: self.circuit_breaker_active,
            fair_redeem_queue: self.fair_redeem_queue@,
            last_rebalance_height: self.last_rebalance_height,
            insurance_fund_balance: self.insurance_fund_balance,
            custodians: custodians_view(self.custodians@),
            last_reserve_rotation_height: self.last_reserve_rotation_height,
            compliance_circuits: circuits_view(self.compliance_circuits@),
            rwa_listings: listings_view(self.rwa_listings@),
            next_rwa_id: self.next_rwa_id,
            trusted_credit_oracles: self.trusted_credit_oracles@,
            used_credit_proofs: self.used_credit_proofs@,
            next_yield_token_id: self.next_yield_token_id,
            health_index: self.health_index,
            pending_flash_mints: self.pending_flash_mints,
            current_epoch: self.current_epoch,
            velocity_reward_pool: self.velocity_reward_pool,
            last_por_timestamp: self.last_por_timestamp,
            last_por_hash: self.last_por_hash,
            executed_batch_matches: self.executed_batch_matches@,
        }
    }
}

/// A copy of a list of validators.
pub fn copy_validators(src: &Vec<ValidatorState>) -> (out: Vec<ValidatorState>)
    ensures
        validators_view(out@) == validators_view(src@),
{
    let mut out: Vec<ValidatorState> = Vec::new();
    let mut i: usize = 0;
    while i < src.len()
        invariant
            i <= src.len(),
            out@.len() == i,
            forall|j: int| 0 <= j < i ==> out@[j]@ == src@[j]@,
        decreases src.len() - i,
    {
        out.push(src[i].clone());
        i = i + 1;
    }
    assert(validators_view(out@) =~= validators_view(src@));
    out
}

/// A copy of a list of custodians.
pub fn copy_custodians(src: &Vec<CustodianState>) -> (out: Vec<CustodianState>)
    ensures
        custodians_view(out@) == custodians_view(src@),
{
    let mut out: Vec<CustodianState> = Vec::new();
    let mut i: usize = 0;
    while i < src.len()
        invariant
            i <= src.len(),
            out@.len() == i,
            forall|j: int| 0 <= j < i ==> out@[j]@ == src@[j]@,
        decreases src.len() - i,
    {
        out.push(src[i].clone());
        i = i + 1;
    }
    assert(custodians_view(out@) =~= custodians_view(src@));
    out
}

/// A copy of a redemption queue.
pub fn copy_queue(src: &Vec<RedemptionRequest>) -> (out: Vec<RedemptionRequest>)
    ensures
        out@ == src@,
{
    let mut out: Vec<RedemptionRequest> = Vec::new();
    let mut i: usize = 0;
    while i < src.len()
        invariant
            i <= src.len(),
            out@ == src@.take(i as int),
        decreases src.len() - i,
    {
        out.push(src[i]);
        assert(src@.take(i as int).push(src@[i as int]) =~= src@.take(i + 1));
        i = i + 1;
    }
    assert(src@.take(src@.len() as int) =~= src@);
    out
}

impl Clone for GlobalState {
    fn clone(&self) -> (r: Self)
        ensures
            r@ == self@,
    {
        GlobalState {
            accounts: self.accounts.clone(),
            total_lusd_supply: self.total_lusd_supply,
            total_ljun_supply: self.total_ljun_supply,
            stabilization_pool_balance: self.stabilization_pool_balance,
            reserve_ratio_bps: self.reserve_ratio_bps,
            oracle_prices: self.oracle_prices.clone(),
            validators: copy_validators(&self.validators),
            circuit_breaker_active: self.circuit_breaker_active,
            fair_redeem_queue: copy_queue(&self.fair_redeem_queue),
            last_rebalance_height: self.last_rebalance_height,
            insurance_fund_balance: self.insurance_fund_balance,
            custodians: copy_custodians(&self.custodians),
            last_reserve_rotation_height: self.last_reserve_rotation_height,
            compliance_circuits: self.compliance_circuits.clone(),
            rwa_listings: self.rwa_listings.clone(),
            next_rwa_id: self.next_rwa_id,
            trusted_credit_oracles: copy_addrs(&self.trusted_credit_oracles),
            used_credit_proofs: copy_addrs(&self.used_credit_proofs),
            next_yield_token_id: self.next_yield_token_id,
            health_index: self.health_index,
            pending_flash_mints: self.pending_flash_mints,
            current_epoch: self.current_epoch,
            velocity_reward_pool: self.velocity_reward_pool,
            last_por_timestamp: self.last_por_timestamp,
            last_por_hash: self.last_por_hash,
            executed_batch_matches: copy_addrs(&self.executed_batch_matches),
        }
    }
}

impl Default for GlobalState {
    fn default() -> (r: Self)
        ensures
            r@ == empty_state(),
    {
        let r = GlobalState {
            accounts: AccountMap::new(),
            total_lusd_supply: 0,
            total_ljun_supply: 0,
            stabilization_pool_balance: 0,
            reserve_ratio_bps: 0,
            oracle_prices: TickerTable::new(),
            validators: Vec::new(),
            circuit_breaker_active: false,
            fair_redeem_queue: Vec::new(),
            last_rebalance_height: 0,
            insurance_fund_balance: 0,
            custodians: Vec::new(),
            last_reserve_rotation_height: 0,
            compliance_circuits: BTreeMap::new(),
            rwa_listings: BTreeMap::new(),
            next_rwa_id: 0,
            trusted_credit_oracles: Vec::new(),
            used_credit_proofs: Vec::new(),
            next_yield_token_id: 0,
            health_index: 0,
            pending_flash_mints: 0,
            current_epoch: 0,
            velocity_reward_pool: 0,
            last_por_timestamp: 0,
            last_por_hash: None,
            executed_batch_matches: Vec::new(),
        };
        assert(r@.validators =~= Seq::empty());
        assert(r@.custodians =~= Seq::empty());
        assert(r@.compliance_circuits =~= Map::empty());
        assert(r@.rwa_listings =~= Map::empty());
        r
    }
}

} // verus!
