//! Laws of the execution core, stated over the rules and proved from them.

use crate::account::{lemma_ticker_put_get, AccountModel};
use crate::accounts::{
    account_find, accounts_get, accounts_has, accounts_put, lemma_account_find,
    lemma_account_find_is, lemma_accounts_put_get, AccountSeq,
};
use crate::execution::{evidence_of, instruction_rule};
use crate::handlers::stability::{credited, distributed};
use crate::instruction::StablecoinInstruction;
use crate::pipeline::transaction_rule;
use crate::rules::{sat_mul, with_account, Evidence};
use crate::block::{block_hash_of, Block};
use crate::bytes::Address;
use crate::chain::{ancestry, import_rule, persisted, rebound, reorg_rule, validated_state, ChainLink, WALK_LIMIT};
use crate::handlers::assets::{balance_of, transfer_rule, with_balance};
use crate::handlers::capital::{credit_mint_rule, scored_mint_applies};
use crate::handlers::defi::batch_match_rule;
use crate::handlers::oracle::submit_por_rule;
use crate::instruction::AssetType;
use crate::pipeline::transactions_rule;
use crate::recovery::{bound_guardians, lemma_bound_guardians_distinct};
use crate::rules::ExecError;
use crate::state::StateModel;
use crate::store::{BlockMeta, StoreModel};
use crate::transaction::Transaction;
use crate::trie::state_root_of;
use vstd::prelude::*;

verus! {

/// Determinism: the same transactions applied in the same order to two
/// equal states give the same state, and so the same state root.
pub proof fn law_determinism(
    a: StateModel,
    b: StateModel,
    txs: Seq<Transaction>,
    height: u64,
    timestamp: u64,
    reserve_key: Seq<u8>,
)
    requires
        a == b,
    ensures
        transactions_rule(a, txs, txs.len() as int, height, timestamp, reserve_key)
            == transactions_rule(b, txs, txs.len() as int, height, timestamp, reserve_key),
        state_root_of(
            transactions_rule(a, txs, txs.len() as int, height, timestamp, reserve_key).0.accounts,
        ) == state_root_of(
            transactions_rule(b, txs, txs.len() as int, height, timestamp, reserve_key).0.accounts,
        ),
{
}

/// Supply conservation under transfer: a transfer of any asset leaves both
/// supplies as they were, and what the sender loses the receiver gains.
pub proof fn law_transfer_conserves(
    s: StateModel,
    sender: Address,
    to: Address,
    amount: u64,
    asset: AssetType,
)
    requires
        transfer_rule(s, sender, to, amount, asset) is Ok,
    ensures
        transfer_rule(s, sender, to, amount, asset)->Ok_0.total_lusd_supply == s.total_lusd_supply,
        transfer_rule(s, sender, to, amount, asset)->Ok_0.total_ljun_supply == s.total_ljun_supply,
        sender != to ==> balance_of(
            accounts_get(transfer_rule(s, sender, to, amount, asset)->Ok_0.accounts, sender),
            asset,
        ) == balance_of(accounts_get(s.accounts, sender), asset) - amount,
        sender != to ==> balance_of(
            accounts_get(transfer_rule(s, sender, to, amount, asset)->Ok_0.accounts, to),
            asset,
        ) == balance_of(accounts_get(s.accounts, to), asset) + amount,
        sender == to ==> balance_of(
            accounts_get(transfer_rule(s, sender, to, amount, asset)->Ok_0.accounts, sender),
            asset,
        ) == balance_of(accounts_get(s.accounts, sender), asset),
{
    let a = accounts_get(s.accounts, sender);
    let a1 = crate::handlers::assets::debited(a, asset, amount);
    let after_debit = accounts_put(s.accounts, sender, a1);
    let b = accounts_get(after_debit, to);
    let b1 = with_balance(b, asset, (balance_of(b, asset) + amount) as u64);
    lemma_accounts_put_get(s.accounts, sender, a1, to);
    lemma_accounts_put_get(after_debit, to, b1, sender);
    lemma_balance_written(a, asset, (balance_of(a, asset) - amount) as u64);
    lemma_balance_written(b, asset, (balance_of(b, asset) + amount) as u64);
}

/// A holding that was written reads back as written.
pub proof fn lemma_balance_written(a: AccountModel, asset: AssetType, value: u64)
    ensures
        balance_of(with_balance(a, asset, value), asset) == value,
{
    match asset {
        AssetType::Custom(t) => {
            lemma_ticker_put_get(a.custom_balances, t@, value, t@);
        },
        _ => {},
    }
}

/// Guardian uniqueness: in a recovery no guardian is bound to two
/// signatures, and every guardian bound is one of the account's.
pub proof fn law_guardian_uniqueness(guardians: Seq<Address>, matches: Seq<Seq<bool>>)
    ensures
        bound_guardians(guardians, matches, Seq::empty(), 0).no_duplicates(),
        forall|k: int|
            0 <= k < bound_guardians(guardians, matches, Seq::empty(), 0).len()
                ==> guardians.contains(
                #[trigger] bound_guardians(guardians, matches, Seq::empty(), 0)[k],
            ),
        bound_guardians(guardians, matches, Seq::empty(), 0).len() <= matches.len(),
{
    lemma_bound_guardians_distinct(guardians, matches, Seq::empty(), 0);
}

/// Monotonicity of proofs of reserves: an accepted proof carries a timestamp
/// after the last accepted one and becomes the last accepted one; so the
/// timestamps of accepted proofs ascend strictly.
pub proof fn law_por_monotonic(
    s: StateModel,
    total_reserves: u64,
    timestamp: u64,
    proof_id: [u8; 32],
    proof_ok: bool,
)
    requires
        submit_por_rule(s, total_reserves, timestamp, proof_id, proof_ok) is Ok,
    ensures
        timestamp > s.last_por_timestamp,
        submit_por_rule(s, total_reserves, timestamp, proof_id, proof_ok)->Ok_0.last_por_timestamp
            == timestamp,
{
}

/// Replay protection of proofs of reserves: right after a proof was
/// accepted, the same proof is refused whatever timestamp it carries.
pub proof fn law_por_no_replay(
    s: StateModel,
    total_reserves: u64,
    timestamp: u64,
    proof_id: [u8; 32],
    proof_ok: bool,
    again_reserves: u64,
    again_timestamp: u64,
    again_ok: bool,
)
    requires
        submit_por_rule(s, total_reserves, timestamp, proof_id, proof_ok) is Ok,
    ensures
        submit_por_rule(
            submit_por_rule(s, total_reserves, timestamp, proof_id, proof_ok)->Ok_0,
            again_reserves,
            again_timestamp,
            proof_id,
            again_ok,
        ) is Err,
{
}

/// Replay protection of order batches: a batch whose tag was matched is
/// refused from then on.
pub proof fn law_batch_no_replay(s: StateModel, orders: Seq<[u8; 32]>, batch_id: [u8; 32], again: Seq<[u8; 32]>)
    requires
        batch_match_rule(s, orders, batch_id) is Ok,
    ensures
        batch_match_rule(batch_match_rule(s, orders, batch_id)->Ok_0, again, batch_id) is Err,
{
    let after = batch_match_rule(s, orders, batch_id)->Ok_0;
    assert(after.executed_batch_matches.last() == batch_id);
}

/// Replay protection of credit proofs: once a proof took the scored way, its
/// tag is on record, and a mint that shows it again does not take the scored
/// way.
pub proof fn law_credit_no_replay(
    s: StateModel,
    sender: Address,
    amount: u64,
    collateral_amount: u64,
    min_score_threshold: u16,
    oracle: [u8; 32],
    proof_id: [u8; 32],
    proof_ok: bool,
)
    requires
        credit_mint_rule(
            s,
            sender,
            amount,
            collateral_amount,
            min_score_threshold,
            oracle,
            proof_id,
            proof_ok,
        ) is Ok,
    ensures
        scored_mint_applies(s, min_score_threshold, oracle, proof_id, proof_ok),
        forall|threshold: u16, other: [u8; 32], ok: bool|
            !scored_mint_applies(
                credit_mint_rule(
                    s,
                    sender,
                    amount,
                    collateral_amount,
                    min_score_threshold,
                    oracle,
                    proof_id,
                    proof_ok,
                )->Ok_0,
                threshold,
                other,
                proof_id,
                ok,
            ),
{
    let after = credit_mint_rule(
        s,
        sender,
        amount,
        collateral_amount,
        min_score_threshold,
        oracle,
        proof_id,
        proof_ok,
    )->Ok_0;
    assert(after.used_credit_proofs.last() == proof_id);
}

/// Reading after writing, for every table, address and account at once.
pub proof fn lemma_put_get_everywhere()
    ensures
        forall|t: AccountSeq, k: Address, v: AccountModel, who: Address|
            #[trigger] accounts_get(accounts_put(t, k, v), who) == (if who == k {
                v
            } else {
                accounts_get(t, who)
            }),
        forall|t: AccountSeq, k: Address, v: AccountModel, who: Address|
            #[trigger] accounts_has(accounts_put(t, k, v), who) == (who == k || accounts_has(
                t,
                who,
            )),
{
    assert forall|t: AccountSeq, k: Address, v: AccountModel, who: Address|
        #[trigger] accounts_get(accounts_put(t, k, v), who) == (if who == k {
            v
        } else {
            accounts_get(t, who)
        }) by {
        lemma_accounts_put_get(t, k, v, who);
    }
    assert forall|t: AccountSeq, k: Address, v: AccountModel, who: Address|
        #[trigger] accounts_has(accounts_put(t, k, v), who) == (who == k || accounts_has(
            t,
            who,
        )) by {
        lemma_accounts_put_get(t, k, v, who);
    }
}

/// A yield distribution changes no address and, of each account, only the
/// junior balance.
pub proof fn lemma_distributed_get(accounts: AccountSeq, junior_share: u64, supply: u64, who: Address)
    ensures
        accounts_get(distributed(accounts, junior_share, supply), who) == (if accounts_has(
            accounts,
            who,
        ) {
            credited(accounts_get(accounts, who), junior_share, supply)
        } else {
            accounts_get(accounts, who)
        }),
        accounts_has(distributed(accounts, junior_share, supply), who) == accounts_has(accounts, who),
{
    let after = distributed(accounts, junior_share, supply);
    let i = account_find(accounts, who, 0);
    lemma_account_find(accounts, who, 0);
    lemma_account_find_is(after, who, 0, i);
}

/// Whether the stored reserve ratio and the circuit breaker agree: a ratio
/// under 85% has the breaker on.
pub open spec fn latched(s: StateModel) -> bool {
    s.reserve_ratio_bps < 8500 ==> s.circuit_breaker_active
}

/// Whether every tag on record before is on record after.
pub open spec fn keeps_tags(before: Seq<[u8; 32]>, after: Seq<[u8; 32]>) -> bool {
    forall|x: [u8; 32]| before.contains(x) ==> after.contains(x)
}

/// Whether the instruction is the one that switches the breaker off.
pub open spec fn clears_breaker(si: StablecoinInstruction) -> bool {
    si matches StablecoinInstruction::RunCircuitBreaker { active } && !active
}

/// Whether an account's data is in range: a credit score of zero or of 300
/// to 850, and no guardians or two to ten.
pub open spec fn account_in_range(a: AccountModel) -> bool {
    &&& a.credit_score == 0 || 300 <= a.credit_score <= 850
    &&& a.guardians.len() == 0 || 2 <= a.guardians.len() <= 10
}

/// Whether no listing has more pledged than its attested value.
pub open spec fn pledges_bounded(s: StateModel) -> bool {
    forall|id: u64|
        s.rwa_listings.contains_key(id) ==> (#[trigger] s.rwa_listings[id]).pledged_amount
            <= s.rwa_listings[id].attested_value
}

/// What every instruction respects: the nonce of every account; that an
/// account, once there, stays, with its data in range; the bound of every
/// listing's pledges and of the health index; the tags of accepted credit
/// proofs and matched batches; the order of reserve-proof timestamps; and,
/// unless it switches the breaker off, the breaker once on and its agreement
/// with the stored ratio.
pub open spec fn step_respects(pre: StateModel, post: StateModel, who: Address, clears: bool) -> bool {
    &&& accounts_get(post.accounts, who).nonce == accounts_get(pre.accounts, who).nonce
    &&& accounts_has(pre.accounts, who) ==> accounts_has(post.accounts, who)
    &&& account_in_range(accounts_get(pre.accounts, who)) ==> account_in_range(
        accounts_get(post.accounts, who),
    )
    &&& pledges_bounded(pre) ==> pledges_bounded(post)
    &&& pre.health_index <= 10000 ==> post.health_index <= 10000
    &&& clears || (pre.circuit_breaker_active ==> post.circuit_breaker_active)
    &&& clears || (latched(pre) ==> latched(post))
    &&& keeps_tags(pre.used_credit_proofs, post.used_credit_proofs)
    &&& keeps_tags(pre.executed_batch_matches, post.executed_batch_matches)
    &&& post.last_por_timestamp >= pre.last_por_timestamp
}

proof fn lemma_respects_register_asset(
    s: StateModel,
    si: StablecoinInstruction,
    sender: Address,
    height: u64,
    timestamp: u64,
    ev: Evidence,
    who: Address,
)
    requires
        si is RegisterAsset,
        instruction_rule(s, si, sender, height, timestamp, ev) is Ok,
    ensures
        step_respects(s, instruction_rule(s, si, sender, height, timestamp, ev)->Ok_0, who, clears_breaker(si)),
{
    lemma_put_get_everywhere();
}

proof fn lemma_respects_mint_senior(
    s: StateModel,
    si: StablecoinInstruction,
    sender: Address,
    height: u64,
    timestamp: u64,
    ev: Evidence,
    who: Address,
)
    requires
        si is MintSenior,
        instruction_rule(s, si, sender, height, timestamp, ev) is Ok,
    ensures
        step_respects(s, instruction_rule(s, si, sender, height, timestamp, ev)->Ok_0, who, clears_breaker(si)),
{
    lemma_put_get_everywhere();
}

proof fn lemma_respects_redeem_senior(
    s: StateModel,
    si: StablecoinInstruction,
    sender: Address,
    height: u64,
    timestamp: u64,
    ev: Evidence,
    who: Address,
)
    requires
        si is RedeemSenior,
        instruction_rule(s, si, sender, height, timestamp, ev) is Ok,
    ensures
        step_respects(s, instruction_rule(s, si, sender, height, timestamp, ev)->Ok_0, who, clears_breaker(si)),
{
    lemma_put_get_everywhere();
}

proof fn lemma_respects_mint_junior(
    s: StateModel,
    si: StablecoinInstruction,
    sender: Address,
    height: u64,
    timestamp: u64,
    ev: Evidence,
    who: Address,
)
    requires
        si is MintJunior,
        instruction_rule(s, si, sender, height, timestamp, ev) is Ok,
    ensures
        step_respects(s, instruction_rule(s, si, sender, height, timestamp, ev)->Ok_0, who, clears_breaker(si)),
{
    lemma_put_get_everywhere();
}

proof fn lemma_respects_redeem_junior(
    s: StateModel,
    si: StablecoinInstruction,
    sender: Address,
    height: u64,
    timestamp: u64,
    ev: Evidence,
    who: Address,
)
    requires
        si is RedeemJunior,
        instruction_rule(s, si, sender, height, timestamp, ev) is Ok,
    ensures
        step_respects(s, instruction_rule(s, si, sender, height, timestamp, ev)->Ok_0, who, clears_breaker(si)),
{
    lemma_put_get_everywhere();
}

proof fn lemma_respects_burn(
    s: StateModel,
    si: StablecoinInstruction,
    sender: Address,
    height: u64,
    timestamp: u64,
    ev: Evidence,
    who: Address,
)
    requires
        si is Burn,
        instruction_rule(s, si, sender, height, timestamp, ev) is Ok,
    ensures
        step_respects(s, instruction_rule(s, si, sender, height, timestamp, ev)->Ok_0, who, clears_breaker(si)),
{
    lemma_put_get_everywhere();
}

proof fn lemma_respects_transfer(
    s: StateModel,
    si: StablecoinInstruction,
    sender: Address,
    height: u64,
    timestamp: u64,
    ev: Evidence,
    who: Address,
)
    requires
        si is Transfer,
        instruction_rule(s, si, sender, height, timestamp, ev) is Ok,
    ensures
        step_respects(s, instruction_rule(s, si, sender, height, timestamp, ev)->Ok_0, who, clears_breaker(si)),
{
    lemma_put_get_everywhere();
}

proof fn lemma_respects_rebalance_tranches(
    s: StateModel,
    si: StablecoinInstruction,
    sender: Address,
    height: u64,
    timestamp: u64,
    ev: Evidence,
    who: Address,
)
    requires
        si is RebalanceTranches,
        instruction_rule(s, si, sender, height, timestamp, ev) is Ok,
    ensures
        step_respects(s, instruction_rule(s, si, sender, height, timestamp, ev)->Ok_0, who, clears_breaker(si)),
{
    lemma_put_get_everywhere();
}

proof fn lemma_respects_distribute_yield(
    s: StateModel,
    si: StablecoinInstruction,
    sender: Address,
    height: u64,
    timestamp: u64,
    ev: Evidence,
    who: Address,
)
    requires
        si is DistributeYield,
        instruction_rule(s, si, sender, height, timestamp, ev) is Ok,
    ensures
        step_respects(s, instruction_rule(s, si, sender, height, timestamp, ev)->Ok_0, who, clears_breaker(si)),
{
    lemma_put_get_everywhere();
    match si {
        StablecoinInstruction::DistributeYield { total_yield } => {
            let junior_share = (sat_mul(total_yield, 80) / 100) as u64;
            lemma_distributed_get(s.accounts, junior_share, s.total_ljun_supply, who);
        },
        _ => {},
    }
}

proof fn lemma_respects_trigger_stabilizer(
    s: StateModel,
    si: StablecoinInstruction,
    sender: Address,
    height: u64,
    timestamp: u64,
    ev: Evidence,
    who: Address,
)
    requires
        si is TriggerStabilizer,
        instruction_rule(s, si, sender, height, timestamp, ev) is Ok,
    ensures
        step_respects(s, instruction_rule(s, si, sender, height, timestamp, ev)->Ok_0, who, clears_breaker(si)),
{
    lemma_put_get_everywhere();
}

proof fn lemma_respects_run_circuit_breaker(
    s: StateModel,
    si: StablecoinInstruction,
    sender: Address,
    height: u64,
    timestamp: u64,
    ev: Evidence,
    who: Address,
)
    requires
        si is RunCircuitBreaker,
        instruction_rule(s, si, sender, height, timestamp, ev) is Ok,
    ensures
        step_respects(s, instruction_rule(s, si, sender, height, timestamp, ev)->Ok_0, who, clears_breaker(si)),
{
    lemma_put_get_everywhere();
}

proof fn lemma_respects_fair_redeem_queue(
    s: StateModel,
    si: StablecoinInstruction,
    sender: Address,
    height: u64,
    timestamp: u64,
    ev: Evidence,
    who: Address,
)
    requires
        si is FairRedeemQueue,
        instruction_rule(s, si, sender, height, timestamp, ev) is Ok,
    ensures
        step_respects(s, instruction_rule(s, si, sender, height, timestamp, ev)->Ok_0, who, clears_breaker(si)),
{
    lemma_put_get_everywhere();
}

proof fn lemma_respects_confidential_transfer(
    s: StateModel,
    si: StablecoinInstruction,
    sender: Address,
    height: u64,
    timestamp: u64,
    ev: Evidence,
    who: Address,
)
    requires
        si is ConfidentialTransfer,
        instruction_rule(s, si, sender, height, timestamp, ev) is Ok,
    ensures
        step_respects(s, instruction_rule(s, si, sender, height, timestamp, ev)->Ok_0, who, clears_breaker(si)),
{
    lemma_put_get_everywhere();
}

proof fn lemma_respects_prove_compliance(
    s: StateModel,
    si: StablecoinInstruction,
    sender: Address,
    height: u64,
    timestamp: u64,
    ev: Evidence,
    who: Address,
)
    requires
        si is ProveCompliance,
        instruction_rule(s, si, sender, height, timestamp, ev) is Ok,
    ensures
        step_respects(s, instruction_rule(s, si, sender, height, timestamp, ev)->Ok_0, who, clears_breaker(si)),
{
    lemma_put_get_everywhere();
}

proof fn lemma_respects_zk_tax_attest(
    s: StateModel,
    si: StablecoinInstruction,
    sender: Address,
    height: u64,
    timestamp: u64,
    ev: Evidence,
    who: Address,
)
    requires
        si is ZkTaxAttest,
        instruction_rule(s, si, sender, height, timestamp, ev) is Ok,
    ensures
        step_respects(s, instruction_rule(s, si, sender, height, timestamp, ev)->Ok_0, who, clears_breaker(si)),
{
    lemma_put_get_everywhere();
}

proof fn lemma_respects_multi_jurisdictional_check(
    s: StateModel,
    si: StablecoinInstruction,
    sender: Address,
    height: u64,
    timestamp: u64,
    ev: Evidence,
    who: Address,
)
    requires
        si is MultiJurisdictionalCheck,
        instruction_rule(s, si, sender, height, timestamp, ev) is Ok,
    ensures
        step_respects(s, instruction_rule(s, si, sender, height, timestamp, ev)->Ok_0, who, clears_breaker(si)),
{
    lemma_put_get_everywhere();
}

proof fn lemma_respects_update_oracle(
    s: StateModel,
    si: StablecoinInstruction,
    sender: Address,
    height: u64,
    timestamp: u64,
    ev: Evidence,
    who: Address,
)
    requires
        si is UpdateOracle,
        instruction_rule(s, si, sender, height, timestamp, ev) is Ok,
    ensures
        step_respects(s, instruction_rule(s, si, sender, height, timestamp, ev)->Ok_0, who, clears_breaker(si)),
{
    lemma_put_get_everywhere();
}

proof fn lemma_respects_submit_zk_po_r(
    s: StateModel,
    si: StablecoinInstruction,
    sender: Address,
    height: u64,
    timestamp: u64,
    ev: Evidence,
    who: Address,
)
    requires
        si is SubmitZkPoR,
        instruction_rule(s, si, sender, height, timestamp, ev) is Ok,
    ensures
        step_respects(s, instruction_rule(s, si, sender, height, timestamp, ev)->Ok_0, who, clears_breaker(si)),
{
    lemma_put_get_everywhere();
}

proof fn lemma_respects_instant_fiat_bridge(
    s: StateModel,
    si: StablecoinInstruction,
    sender: Address,
    height: u64,
    timestamp: u64,
    ev: Evidence,
    who: Address,
)
    requires
        si is InstantFiatBridge,
        instruction_rule(s, si, sender, height, timestamp, ev) is Ok,
    ensures
        step_respects(s, instruction_rule(s, si, sender, height, timestamp, ev)->Ok_0, who, clears_breaker(si)),
{
    lemma_put_get_everywhere();
}

proof fn lemma_respects_zero_slip_batch_match(
    s: StateModel,
    si: StablecoinInstruction,
    sender: Address,
    height: u64,
    timestamp: u64,
    ev: Evidence,
    who: Address,
)
    requires
        si is ZeroSlipBatchMatch,
        instruction_rule(s, si, sender, height, timestamp, ev) is Ok,
    ensures
        step_respects(s, instruction_rule(s, si, sender, height, timestamp, ev)->Ok_0, who, clears_breaker(si)),
{
    lemma_put_get_everywhere();
    let post = instruction_rule(s, si, sender, height, timestamp, ev)->Ok_0;
    assert forall|x: [u8; 32]| s.used_credit_proofs.contains(x) implies post.used_credit_proofs.contains(
        x,
    ) by {
        let i = choose|i: int| 0 <= i < s.used_credit_proofs.len() && s.used_credit_proofs[i] == x;
        assert(post.used_credit_proofs[i] == x);
    }
    assert forall|x: [u8; 32]|
        s.executed_batch_matches.contains(x) implies post.executed_batch_matches.contains(x) by {
        let i = choose|i: int| 0 <= i < s.executed_batch_matches.len() && s.executed_batch_matches[i] == x;
        assert(post.executed_batch_matches[i] == x);
    }
}

proof fn lemma_respects_dynamic_hedge(
    s: StateModel,
    si: StablecoinInstruction,
    sender: Address,
    height: u64,
    timestamp: u64,
    ev: Evidence,
    who: Address,
)
    requires
        si is DynamicHedge,
        instruction_rule(s, si, sender, height, timestamp, ev) is Ok,
    ensures
        step_respects(s, instruction_rule(s, si, sender, height, timestamp, ev)->Ok_0, who, clears_breaker(si)),
{
    lemma_put_get_everywhere();
}

proof fn lemma_respects_geo_rebalance(
    s: StateModel,
    si: StablecoinInstruction,
    sender: Address,
    height: u64,
    timestamp: u64,
    ev: Evidence,
    who: Address,
)
    requires
        si is GeoRebalance,
        instruction_rule(s, si, sender, height, timestamp, ev) is Ok,
    ensures
        step_respects(s, instruction_rule(s, si, sender, height, timestamp, ev)->Ok_0, who, clears_breaker(si)),
{
    lemma_put_get_everywhere();
}

proof fn lemma_respects_velocity_incentive(
    s: StateModel,
    si: StablecoinInstruction,
    sender: Address,
    height: u64,
    timestamp: u64,
    ev: Evidence,
    who: Address,
)
    requires
        si is VelocityIncentive,
        instruction_rule(s, si, sender, height, timestamp, ev) is Ok,
    ensures
        step_respects(s, instruction_rule(s, si, sender, height, timestamp, ev)->Ok_0, who, clears_breaker(si)),
{
    lemma_put_get_everywhere();
}

proof fn lemma_respects_stream_payment(
    s: StateModel,
    si: StablecoinInstruction,
    sender: Address,
    height: u64,
    timestamp: u64,
    ev: Evidence,
    who: Address,
)
    requires
        si is StreamPayment,
        instruction_rule(s, si, sender, height, timestamp, ev) is Ok,
    ensures
        step_respects(s, instruction_rule(s, si, sender, height, timestamp, ev)->Ok_0, who, clears_breaker(si)),
{
    lemma_put_get_everywhere();
}

proof fn lemma_respects_register_validator(
    s: StateModel,
    si: StablecoinInstruction,
    sender: Address,
    height: u64,
    timestamp: u64,
    ev: Evidence,
    who: Address,
)
    requires
        si is RegisterValidator,
        instruction_rule(s, si, sender, height, timestamp, ev) is Ok,
    ensures
        step_respects(s, instruction_rule(s, si, sender, height, timestamp, ev)->Ok_0, who, clears_breaker(si)),
{
    lemma_put_get_everywhere();
}

proof fn lemma_respects_vote(
    s: StateModel,
    si: StablecoinInstruction,
    sender: Address,
    height: u64,
    timestamp: u64,
    ev: Evidence,
    who: Address,
)
    requires
        si is Vote,
        instruction_rule(s, si, sender, height, timestamp, ev) is Ok,
    ensures
        step_respects(s, instruction_rule(s, si, sender, height, timestamp, ev)->Ok_0, who, clears_breaker(si)),
{
    lemma_put_get_everywhere();
}

proof fn lemma_respects_create_passkey_account(
    s: StateModel,
    si: StablecoinInstruction,
    sender: Address,
    height: u64,
    timestamp: u64,
    ev: Evidence,
    who: Address,
)
    requires
        si is CreatePasskeyAccount,
        instruction_rule(s, si, sender, height, timestamp, ev) is Ok,
    ensures
        step_respects(s, instruction_rule(s, si, sender, height, timestamp, ev)->Ok_0, who, clears_breaker(si)),
{
    lemma_put_get_everywhere();
}

proof fn lemma_respects_recover_social(
    s: StateModel,
    si: StablecoinInstruction,
    sender: Address,
    height: u64,
    timestamp: u64,
    ev: Evidence,
    who: Address,
)
    requires
        si is RecoverSocial,
        instruction_rule(s, si, sender, height, timestamp, ev) is Ok,
    ensures
        step_respects(s, instruction_rule(s, si, sender, height, timestamp, ev)->Ok_0, who, clears_breaker(si)),
{
    lemma_put_get_everywhere();
}

proof fn lemma_respects_claim_velocity_reward(
    s: StateModel,
    si: StablecoinInstruction,
    sender: Address,
    height: u64,
    timestamp: u64,
    ev: Evidence,
    who: Address,
)
    requires
        si is ClaimVelocityReward,
        instruction_rule(s, si, sender, height, timestamp, ev) is Ok,
    ensures
        step_respects(s, instruction_rule(s, si, sender, height, timestamp, ev)->Ok_0, who, clears_breaker(si)),
{
    lemma_put_get_everywhere();
}

proof fn lemma_respects_register_custodian(
    s: StateModel,
    si: StablecoinInstruction,
    sender: Address,
    height: u64,
    timestamp: u64,
    ev: Evidence,
    who: Address,
)
    requires
        si is RegisterCustodian,
        instruction_rule(s, si, sender, height, timestamp, ev) is Ok,
    ensures
        step_respects(s, instruction_rule(s, si, sender, height, timestamp, ev)->Ok_0, who, clears_breaker(si)),
{
    lemma_put_get_everywhere();
}

proof fn lemma_respects_rotate_reserves(
    s: StateModel,
    si: StablecoinInstruction,
    sender: Address,
    height: u64,
    timestamp: u64,
    ev: Evidence,
    who: Address,
)
    requires
        si is RotateReserves,
        instruction_rule(s, si, sender, height, timestamp, ev) is Ok,
    ensures
        step_respects(s, instruction_rule(s, si, sender, height, timestamp, ev)->Ok_0, who, clears_breaker(si)),
{
    lemma_put_get_everywhere();
}

proof fn lemma_respects_claim_insurance(
    s: StateModel,
    si: StablecoinInstruction,
    sender: Address,
    height: u64,
    timestamp: u64,
    ev: Evidence,
    who: Address,
)
    requires
        si is ClaimInsurance,
        instruction_rule(s, si, sender, height, timestamp, ev) is Ok,
    ensures
        step_respects(s, instruction_rule(s, si, sender, height, timestamp, ev)->Ok_0, who, clears_breaker(si)),
{
    lemma_put_get_everywhere();
}

proof fn lemma_respects_switch_to_pq_signature(
    s: StateModel,
    si: StablecoinInstruction,
    sender: Address,
    height: u64,
    timestamp: u64,
    ev: Evidence,
    who: Address,
)
    requires
        si is SwitchToPQSignature,
        instruction_rule(s, si, sender, height, timestamp, ev) is Ok,
    ensures
        step_respects(s, instruction_rule(s, si, sender, height, timestamp, ev)->Ok_0, who, clears_breaker(si)),
{
    lemma_put_get_everywhere();
}

proof fn lemma_respects_register_green_validator(
    s: StateModel,
    si: StablecoinInstruction,
    sender: Address,
    height: u64,
    timestamp: u64,
    ev: Evidence,
    who: Address,
)
    requires
        si is RegisterGreenValidator,
        instruction_rule(s, si, sender, height, timestamp, ev) is Ok,
    ensures
        step_respects(s, instruction_rule(s, si, sender, height, timestamp, ev)->Ok_0, who, clears_breaker(si)),
{
    lemma_put_get_everywhere();
}

proof fn lemma_respects_upload_compliance_circuit(
    s: StateModel,
    si: StablecoinInstruction,
    sender: Address,
    height: u64,
    timestamp: u64,
    ev: Evidence,
    who: Address,
)
    requires
        si is UploadComplianceCircuit,
        instruction_rule(s, si, sender, height, timestamp, ev) is Ok,
    ensures
        step_respects(s, instruction_rule(s, si, sender, height, timestamp, ev)->Ok_0, who, clears_breaker(si)),
{
    lemma_put_get_everywhere();
}

proof fn lemma_respects_flash_mint(
    s: StateModel,
    si: StablecoinInstruction,
    sender: Address,
    height: u64,
    timestamp: u64,
    ev: Evidence,
    who: Address,
)
    requires
        si is FlashMint,
        instruction_rule(s, si, sender, height, timestamp, ev) is Ok,
    ensures
        step_respects(s, instruction_rule(s, si, sender, height, timestamp, ev)->Ok_0, who, clears_breaker(si)),
{
    lemma_put_get_everywhere();
}

proof fn lemma_respects_flash_burn(
    s: StateModel,
    si: StablecoinInstruction,
    sender: Address,
    height: u64,
    timestamp: u64,
    ev: Evidence,
    who: Address,
)
    requires
        si is FlashBurn,
        instruction_rule(s, si, sender, height, timestamp, ev) is Ok,
    ensures
        step_respects(s, instruction_rule(s, si, sender, height, timestamp, ev)->Ok_0, who, clears_breaker(si)),
{
    lemma_put_get_everywhere();
}

proof fn lemma_respects_instant_redeem(
    s: StateModel,
    si: StablecoinInstruction,
    sender: Address,
    height: u64,
    timestamp: u64,
    ev: Evidence,
    who: Address,
)
    requires
        si is InstantRedeem,
        instruction_rule(s, si, sender, height, timestamp, ev) is Ok,
    ensures
        step_respects(s, instruction_rule(s, si, sender, height, timestamp, ev)->Ok_0, who, clears_breaker(si)),
{
    lemma_put_get_everywhere();
}

proof fn lemma_respects_mint_with_credit_score(
    s: StateModel,
    si: StablecoinInstruction,
    sender: Address,
    height: u64,
    timestamp: u64,
    ev: Evidence,
    who: Address,
)
    requires
        si is MintWithCreditScore,
        instruction_rule(s, si, sender, height, timestamp, ev) is Ok,
    ensures
        step_respects(s, instruction_rule(s, si, sender, height, timestamp, ev)->Ok_0, who, clears_breaker(si)),
{
    lemma_put_get_everywhere();
    let post = instruction_rule(s, si, sender, height, timestamp, ev)->Ok_0;
    assert forall|x: [u8; 32]| s.used_credit_proofs.contains(x) implies post.used_credit_proofs.contains(
        x,
    ) by {
        let i = choose|i: int| 0 <= i < s.used_credit_proofs.len() && s.used_credit_proofs[i] == x;
        assert(post.used_credit_proofs[i] == x);
    }
    assert forall|x: [u8; 32]|
        s.executed_batch_matches.contains(x) implies post.executed_batch_matches.contains(x) by {
        let i = choose|i: int| 0 <= i < s.executed_batch_matches.len() && s.executed_batch_matches[i] == x;
        assert(post.executed_batch_matches[i] == x);
    }
}

proof fn lemma_respects_wrap_to_yield_token(
    s: StateModel,
    si: StablecoinInstruction,
    sender: Address,
    height: u64,
    timestamp: u64,
    ev: Evidence,
    who: Address,
)
    requires
        si is WrapToYieldToken,
        instruction_rule(s, si, sender, height, timestamp, ev) is Ok,
    ensures
        step_respects(s, instruction_rule(s, si, sender, height, timestamp, ev)->Ok_0, who, clears_breaker(si)),
{
    lemma_put_get_everywhere();
}

proof fn lemma_respects_unwrap_yield_token(
    s: StateModel,
    si: StablecoinInstruction,
    sender: Address,
    height: u64,
    timestamp: u64,
    ev: Evidence,
    who: Address,
)
    requires
        si is UnwrapYieldToken,
        instruction_rule(s, si, sender, height, timestamp, ev) is Ok,
    ensures
        step_respects(s, instruction_rule(s, si, sender, height, timestamp, ev)->Ok_0, who, clears_breaker(si)),
{
    lemma_put_get_everywhere();
}

proof fn lemma_respects_list_rwa(
    s: StateModel,
    si: StablecoinInstruction,
    sender: Address,
    height: u64,
    timestamp: u64,
    ev: Evidence,
    who: Address,
)
    requires
        si is ListRWA,
        instruction_rule(s, si, sender, height, timestamp, ev) is Ok,
    ensures
        step_respects(s, instruction_rule(s, si, sender, height, timestamp, ev)->Ok_0, who, clears_breaker(si)),
{
    lemma_put_get_everywhere();
}

proof fn lemma_respects_use_rwa_as_collateral(
    s: StateModel,
    si: StablecoinInstruction,
    sender: Address,
    height: u64,
    timestamp: u64,
    ev: Evidence,
    who: Address,
)
    requires
        si is UseRWAAsCollateral,
        instruction_rule(s, si, sender, height, timestamp, ev) is Ok,
    ensures
        step_respects(s, instruction_rule(s, si, sender, height, timestamp, ev)->Ok_0, who, clears_breaker(si)),
{
    lemma_put_get_everywhere();
}

proof fn lemma_respects_compute_health_index(
    s: StateModel,
    si: StablecoinInstruction,
    sender: Address,
    height: u64,
    timestamp: u64,
    ev: Evidence,
    who: Address,
)
    requires
        si is ComputeHealthIndex,
        instruction_rule(s, si, sender, height, timestamp, ev) is Ok,
    ensures
        step_respects(s, instruction_rule(s, si, sender, height, timestamp, ev)->Ok_0, who, clears_breaker(si)),
{
    lemma_put_get_everywhere();
}

/// Every instruction that succeeds respects the nonces, the replay tags,
/// the order of reserve proofs and the breaker's latch.
pub proof fn law_instruction_respects(
    s: StateModel,
    si: StablecoinInstruction,
    sender: Address,
    height: u64,
    timestamp: u64,
    ev: Evidence,
    who: Address,
)
    requires
        instruction_rule(s, si, sender, height, timestamp, ev) is Ok,
    ensures
        step_respects(s, instruction_rule(s, si, sender, height, timestamp, ev)->Ok_0, who, clears_breaker(si)),
{
    match si {
        StablecoinInstruction::RegisterAsset { .. } => lemma_respects_register_asset(s, si, sender, height, timestamp, ev, who),
        StablecoinInstruction::MintSenior { .. } => lemma_respects_mint_senior(s, si, sender, height, timestamp, ev, who),
        StablecoinInstruction::RedeemSenior { .. } => lemma_respects_redeem_senior(s, si, sender, height, timestamp, ev, who),
        StablecoinInstruction::MintJunior { .. } => lemma_respects_mint_junior(s, si, sender, height, timestamp, ev, who),
        StablecoinInstruction::RedeemJunior { .. } => lemma_respects_redeem_junior(s, si, sender, height, timestamp, ev, who),
        StablecoinInstruction::Burn { .. } => lemma_respects_burn(s, si, sender, height, timestamp, ev, who),
        StablecoinInstruction::Transfer { .. } => lemma_respects_transfer(s, si, sender, height, timestamp, ev, who),
        StablecoinInstruction::RebalanceTranches => lemma_respects_rebalance_tranches(s, si, sender, height, timestamp, ev, who),
        StablecoinInstruction::DistributeYield { .. } => lemma_respects_distribute_yield(s, si, sender, height, timestamp, ev, who),
        StablecoinInstruction::TriggerStabilizer => lemma_respects_trigger_stabilizer(s, si, sender, height, timestamp, ev, who),
        StablecoinInstruction::RunCircuitBreaker { .. } => lemma_respects_run_circuit_breaker(s, si, sender, height, timestamp, ev, who),
        StablecoinInstruction::FairRedeemQueue { .. } => lemma_respects_fair_redeem_queue(s, si, sender, height, timestamp, ev, who),
        StablecoinInstruction::ConfidentialTransfer { .. } => lemma_respects_confidential_transfer(s, si, sender, height, timestamp, ev, who),
        StablecoinInstruction::ProveCompliance { .. } => lemma_respects_prove_compliance(s, si, sender, height, timestamp, ev, who),
        StablecoinInstruction::ZkTaxAttest { .. } => lemma_respects_zk_tax_attest(s, si, sender, height, timestamp, ev, who),
        StablecoinInstruction::MultiJurisdictionalCheck { .. } => lemma_respects_multi_jurisdictional_check(s, si, sender, height, timestamp, ev, who),
        StablecoinInstruction::UpdateOracle { .. } => lemma_respects_update_oracle(s, si, sender, height, timestamp, ev, who),
        StablecoinInstruction::SubmitZkPoR { .. } => lemma_respects_submit_zk_po_r(s, si, sender, height, timestamp, ev, who),
        StablecoinInstruction::InstantFiatBridge { .. } => lemma_respects_instant_fiat_bridge(s, si, sender, height, timestamp, ev, who),
        StablecoinInstruction::ZeroSlipBatchMatch { .. } => lemma_respects_zero_slip_batch_match(s, si, sender, height, timestamp, ev, who),
        StablecoinInstruction::DynamicHedge { .. } => lemma_respects_dynamic_hedge(s, si, sender, height, timestamp, ev, who),
        StablecoinInstruction::GeoRebalance { .. } => lemma_respects_geo_rebalance(s, si, sender, height, timestamp, ev, who),
        StablecoinInstruction::VelocityIncentive { .. } => lemma_respects_velocity_incentive(s, si, sender, height, timestamp, ev, who),
        StablecoinInstruction::StreamPayment { .. } => lemma_respects_stream_payment(s, si, sender, height, timestamp, ev, who),
        StablecoinInstruction::RegisterValidator { .. } => lemma_respects_register_validator(s, si, sender, height, timestamp, ev, who),
        StablecoinInstruction::Vote { .. } => lemma_respects_vote(s, si, sender, height, timestamp, ev, who),
        StablecoinInstruction::CreatePasskeyAccount { .. } => lemma_respects_create_passkey_account(s, si, sender, height, timestamp, ev, who),
        StablecoinInstruction::RecoverSocial { .. } => lemma_respects_recover_social(s, si, sender, height, timestamp, ev, who),
        StablecoinInstruction::ClaimVelocityReward { .. } => lemma_respects_claim_velocity_reward(s, si, sender, height, timestamp, ev, who),
        StablecoinInstruction::RegisterCustodian { .. } => lemma_respects_register_custodian(s, si, sender, height, timestamp, ev, who),
        StablecoinInstruction::RotateReserves { .. } => lemma_respects_rotate_reserves(s, si, sender, height, timestamp, ev, who),
        StablecoinInstruction::ClaimInsurance { .. } => lemma_respects_claim_insurance(s, si, sender, height, timestamp, ev, who),
        StablecoinInstruction::SwitchToPQSignature { .. } => lemma_respects_switch_to_pq_signature(s, si, sender, height, timestamp, ev, who),
        StablecoinInstruction::RegisterGreenValidator { .. } => lemma_respects_register_green_validator(s, si, sender, height, timestamp, ev, who),
        StablecoinInstruction::UploadComplianceCircuit { .. } => lemma_respects_upload_compliance_circuit(s, si, sender, height, timestamp, ev, who),
        StablecoinInstruction::FlashMint { .. } => lemma_respects_flash_mint(s, si, sender, height, timestamp, ev, who),
        StablecoinInstruction::FlashBurn { .. } => lemma_respects_flash_burn(s, si, sender, height, timestamp, ev, who),
        StablecoinInstruction::InstantRedeem { .. } => lemma_respects_instant_redeem(s, si, sender, height, timestamp, ev, who),
        StablecoinInstruction::MintWithCreditScore { .. } => lemma_respects_mint_with_credit_score(s, si, sender, height, timestamp, ev, who),
        StablecoinInstruction::WrapToYieldToken { .. } => lemma_respects_wrap_to_yield_token(s, si, sender, height, timestamp, ev, who),
        StablecoinInstruction::UnwrapYieldToken { .. } => lemma_respects_unwrap_yield_token(s, si, sender, height, timestamp, ev, who),
        StablecoinInstruction::ListRWA { .. } => lemma_respects_list_rwa(s, si, sender, height, timestamp, ev, who),
        StablecoinInstruction::UseRWAAsCollateral { .. } => lemma_respects_use_rwa_as_collateral(s, si, sender, height, timestamp, ev, who),
        StablecoinInstruction::ComputeHealthIndex => lemma_respects_compute_health_index(s, si, sender, height, timestamp, ev, who),
    }
}

/// Nonce monotonicity: an accepted transaction raises its sender's nonce by
/// exactly one, and leaves every other account's nonce as it was.
pub proof fn law_nonce_increment(
    s: StateModel,
    tx: Transaction,
    height: u64,
    timestamp: u64,
    reserve_key: Seq<u8>,
    other: Address,
)
    requires
        transaction_rule(s, tx, height, timestamp, reserve_key) is Ok,
    ensures
        accounts_get(
            transaction_rule(s, tx, height, timestamp, reserve_key)->Ok_0.accounts,
            tx.sender,
        ).nonce == accounts_get(s.accounts, tx.sender).nonce + 1,
        tx.nonce == accounts_get(s.accounts, tx.sender).nonce,
        other != tx.sender ==> accounts_get(
            transaction_rule(s, tx, height, timestamp, reserve_key)->Ok_0.accounts,
            other,
        ).nonce == accounts_get(s.accounts, other).nonce,
{
    let a = accounts_get(s.accounts, tx.sender);
    let counted = with_account(s, tx.sender, AccountModel { nonce: (a.nonce + 1) as u64, ..a });
    let ev = evidence_of(tx.instruction, accounts_get(counted.accounts, tx.sender).guardians, reserve_key);
    lemma_put_get_everywhere();
    law_instruction_respects(counted, tx.instruction, tx.sender, height, timestamp, ev, tx.sender);
    law_instruction_respects(counted, tx.instruction, tx.sender, height, timestamp, ev, other);
}

} // verus!

verus! {

/// What the first `n` accounts have pending of flash mints, added up.
pub open spec fn pending_sum(accounts: AccountSeq, n: int) -> int
    decreases n,
{
    if n <= 0 {
        0
    } else {
        pending_sum(accounts, n - 1) + accounts[n - 1].1.pending_flash_mint
    }
}

/// Whether the pending flash mints of the state are those of its accounts
/// added up.
pub open spec fn flash_balanced(s: StateModel) -> bool {
    s.pending_flash_mints == pending_sum(s.accounts, s.accounts.len() as int)
}

/// The sum over tables that agree on their first `n` entries.
proof fn lemma_pending_same(a: AccountSeq, b: AccountSeq, n: int)
    requires
        0 <= n <= a.len(),
        n <= b.len(),
        forall|j: int| 0 <= j < n ==> a[j].1.pending_flash_mint == b[j].1.pending_flash_mint,
    ensures
        pending_sum(a, n) == pending_sum(b, n),
    decreases n,
{
    if n > 0 {
        lemma_pending_same(a, b, n - 1);
    }
}

/// The sum after one entry was written over.
proof fn lemma_pending_update(t: AccountSeq, i: int, e: (Address, AccountModel), n: int)
    requires
        0 <= i < t.len(),
        0 <= n <= t.len(),
    ensures
        pending_sum(t.update(i, e), n) == pending_sum(t, n) + (if i < n {
            e.1.pending_flash_mint - t[i].1.pending_flash_mint
        } else {
            0
        }),
    decreases n,
{
    if n > 0 {
        lemma_pending_update(t, i, e, n - 1);
    }
}

/// The sum after one entry was inserted.
proof fn lemma_pending_insert(t: AccountSeq, i: int, e: (Address, AccountModel), n: int)
    requires
        0 <= i <= t.len(),
        0 <= n <= t.len() + 1,
    ensures
        pending_sum(t.insert(i, e), n) == (if n <= i {
            pending_sum(t, n)
        } else {
            pending_sum(t, n - 1) + e.1.pending_flash_mint
        }),
    decreases n,
{
    if n > 0 {
        lemma_pending_insert(t, i, e, n - 1);
        if n - 1 > i {
            assert(t.insert(i, e)[n - 1] == t[n - 2]);
        } else if n - 1 < i {
            assert(t.insert(i, e)[n - 1] == t[n - 1]);
        }
    }
}

/// The sum is at least what any one account has pending.
pub proof fn lemma_pending_covers(t: AccountSeq, who: Address)
    ensures
        pending_sum(t, t.len() as int) >= accounts_get(t, who).pending_flash_mint,
{
    let i = account_find(t, who, 0);
    lemma_account_find(t, who, 0);
    lemma_pending_nonneg(t, t.len() as int, i);
}

/// The sum over the first `n` accounts is at least zero, and at least what
/// account `i` among them has pending.
proof fn lemma_pending_nonneg(t: AccountSeq, n: int, i: int)
    requires
        0 <= n <= t.len(),
    ensures
        pending_sum(t, n) >= 0,
        0 <= i < n ==> pending_sum(t, n) >= t[i].1.pending_flash_mint,
    decreases n,
{
    if n > 0 {
        lemma_pending_nonneg(t, n - 1, i);
    }
}

/// A write changes the sum by what the account's pending amount changes.
pub proof fn lemma_pending_put(t: AccountSeq, k: Address, v: AccountModel)
    ensures
        pending_sum(accounts_put(t, k, v), accounts_put(t, k, v).len() as int) == pending_sum(
            t,
            t.len() as int,
        ) + v.pending_flash_mint - accounts_get(t, k).pending_flash_mint,
{
    let f = account_find(t, k, 0);
    lemma_account_find(t, k, 0);
    crate::accounts::lemma_account_rank(t, k, 0);
    if f < t.len() {
        lemma_pending_update(t, f, (k, v), t.len() as int);
    } else {
        lemma_pending_insert(t, crate::accounts::account_rank(t, k, 0), (k, v), (t.len() + 1) as int);
    }
}

/// The same, for every table, address and account at once.
pub proof fn lemma_pending_put_everywhere()
    ensures
        forall|t: AccountSeq, k: Address, v: AccountModel|
            pending_sum(
                #[trigger] accounts_put(t, k, v),
                accounts_put(t, k, v).len() as int,
            ) == pending_sum(t, t.len() as int) + v.pending_flash_mint - accounts_get(
                t,
                k,
            ).pending_flash_mint,
        forall|t: AccountSeq, k: Address, v: AccountModel, who: Address|
            #[trigger] accounts_get(accounts_put(t, k, v), who) == (if who == k {
                v
            } else {
                accounts_get(t, who)
            }),
{
    lemma_put_get_everywhere();
    assert forall|t: AccountSeq, k: Address, v: AccountModel|
        pending_sum(#[trigger] accounts_put(t, k, v), accounts_put(t, k, v).len() as int)
            == pending_sum(t, t.len() as int) + v.pending_flash_mint - accounts_get(
            t,
            k,
        ).pending_flash_mint by {
        lemma_pending_put(t, k, v);
    }
}

/// A yield distribution leaves the sum as it was.
proof fn lemma_pending_distributed(accounts: AccountSeq, junior_share: u64, supply: u64, n: int)
    requires
        0 <= n <= accounts.len(),
    ensures
        pending_sum(distributed(accounts, junior_share, supply), n) == pending_sum(accounts, n),
{
    lemma_pending_same(distributed(accounts, junior_share, supply), accounts, n);
}

proof fn lemma_flash_register_asset(
    s: StateModel,
    si: StablecoinInstruction,
    sender: Address,
    height: u64,
    timestamp: u64,
    ev: Evidence,
)
    requires
        si is RegisterAsset,
        flash_balanced(s),
        instruction_rule(s, si, sender, height, timestamp, ev) is Ok,
    ensures
        flash_balanced(instruction_rule(s, si, sender, height, timestamp, ev)->Ok_0),
{
    lemma_pending_put_everywhere();
}

proof fn lemma_flash_mint_senior(
    s: StateModel,
    si: StablecoinInstruction,
    sender: Address,
    height: u64,
    timestamp: u64,
    ev: Evidence,
)
    requires
        si is MintSenior,
        flash_balanced(s),
        instruction_rule(s, si, sender, height, timestamp, ev) is Ok,
    ensures
        flash_balanced(instruction_rule(s, si, sender, height, timestamp, ev)->Ok_0),
{
    lemma_pending_put_everywhere();
}

proof fn lemma_flash_redeem_senior(
    s: StateModel,
    si: StablecoinInstruction,
    sender: Address,
    height: u64,
    timestamp: u64,
    ev: Evidence,
)
    requires
        si is RedeemSenior,
        flash_balanced(s),
        instruction_rule(s, si, sender, height, timestamp, ev) is Ok,
    ensures
        flash_balanced(instruction_rule(s, si, sender, height, timestamp, ev)->Ok_0),
{
    lemma_pending_put_everywhere();
}

proof fn lemma_flash_mint_junior(
    s: StateModel,
    si: StablecoinInstruction,
    sender: Address,
    height: u64,
    timestamp: u64,
    ev: Evidence,
)
    requires
        si is MintJunior,
        flash_balanced(s),
        instruction_rule(s, si, sender, height, timestamp, ev) is Ok,
    ensures
        flash_balanced(instruction_rule(s, si, sender, height, timestamp, ev)->Ok_0),
{
    lemma_pending_put_everywhere();
}

proof fn lemma_flash_redeem_junior(
    s: StateModel,
    si: StablecoinInstruction,
    sender: Address,
    height: u64,
    timestamp: u64,
    ev: Evidence,
)
    requires
        si is RedeemJunior,
        flash_balanced(s),
        instruction_rule(s, si, sender, height, timestamp, ev) is Ok,
    ensures
        flash_balanced(instruction_rule(s, si, sender, height, timestamp, ev)->Ok_0),
{
    lemma_pending_put_everywhere();
}

proof fn lemma_flash_burn(
    s: StateModel,
    si: StablecoinInstruction,
    sender: Address,
    height: u64,
    timestamp: u64,
    ev: Evidence,
)
    requires
        si is Burn,
        flash_balanced(s),
        instruction_rule(s, si, sender, height, timestamp, ev) is Ok,
    ensures
        flash_balanced(instruction_rule(s, si, sender, height, timestamp, ev)->Ok_0),
{
    lemma_pending_put_everywhere();
}

proof fn lemma_flash_transfer(
    s: StateModel,
    si: StablecoinInstruction,
    sender: Address,
    height: u64,
    timestamp: u64,
    ev: Evidence,
)
    requires
        si is Transfer,
        flash_balanced(s),
        instruction_rule(s, si, sender, height, timestamp, ev) is Ok,
    ensures
        flash_balanced(instruction_rule(s, si, sender, height, timestamp, ev)->Ok_0),
{
    lemma_pending_put_everywhere();
}

proof fn lemma_flash_rebalance_tranches(
    s: StateModel,
    si: StablecoinInstruction,
    sender: Address,
    height: u64,
    timestamp: u64,
    ev: Evidence,
)
    requires
        si is RebalanceTranches,
        flash_balanced(s),
        instruction_rule(s, si, sender, height, timestamp, ev) is Ok,
    ensures
        flash_balanced(instruction_rule(s, si, sender, height, timestamp, ev)->Ok_0),
{
    lemma_pending_put_everywhere();
}

proof fn lemma_flash_distribute_yield(
    s: StateModel,
    si: StablecoinInstruction,
    sender: Address,
    height: u64,
    timestamp: u64,
    ev: Evidence,
)
    requires
        si is DistributeYield,
        flash_balanced(s),
        instruction_rule(s, si, sender, height, timestamp, ev) is Ok,
    ensures
        flash_balanced(instruction_rule(s, si, sender, height, timestamp, ev)->Ok_0),
{
    lemma_pending_put_everywhere();
    match si {
        StablecoinInstruction::DistributeYield { total_yield } => {
            let junior_share = (sat_mul(total_yield, 80) / 100) as u64;
            lemma_pending_distributed(
                s.accounts,
                junior_share,
                s.total_ljun_supply,
                s.accounts.len() as int,
            );
        },
        _ => {},
    }
}

proof fn lemma_flash_trigger_stabilizer(
    s: StateModel,
    si: StablecoinInstruction,
    sender: Address,
    height: u64,
    timestamp: u64,
    ev: Evidence,
)
    requires
        si is TriggerStabilizer,
        flash_balanced(s),
        instruction_rule(s, si, sender, height, timestamp, ev) is Ok,
    ensures
        flash_balanced(instruction_rule(s, si, sender, height, timestamp, ev)->Ok_0),
{
    lemma_pending_put_everywhere();
}

proof fn lemma_flash_run_circuit_breaker(
    s: StateModel,
    si: StablecoinInstruction,
    sender: Address,
    height: u64,
    timestamp: u64,
    ev: Evidence,
)
    requires
        si is RunCircuitBreaker,
        flash_balanced(s),
        instruction_rule(s, si, sender, height, timestamp, ev) is Ok,
    ensures
        flash_balanced(instruction_rule(s, si, sender, height, timestamp, ev)->Ok_0),
{
    lemma_pending_put_everywhere();
}

proof fn lemma_flash_fair_redeem_queue(
    s: StateModel,
    si: StablecoinInstruction,
    sender: Address,
    height: u64,
    timestamp: u64,
    ev: Evidence,
)
    requires
        si is FairRedeemQueue,
        flash_balanced(s),
        instruction_rule(s, si, sender, height, timestamp, ev) is Ok,
    ensures
        flash_balanced(instruction_rule(s, si, sender, height, timestamp, ev)->Ok_0),
{
    lemma_pending_put_everywhere();
}

proof fn lemma_flash_confidential_transfer(
    s: StateModel,
    si: StablecoinInstruction,
    sender: Address,
    height: u64,
    timestamp: u64,
    ev: Evidence,
)
    requires
        si is ConfidentialTransfer,
        flash_balanced(s),
        instruction_rule(s, si, sender, height, timestamp, ev) is Ok,
    ensures
        flash_balanced(instruction_rule(s, si, sender, height, timestamp, ev)->Ok_0),
{
    lemma_pending_put_everywhere();
}

proof fn lemma_flash_prove_compliance(
    s: StateModel,
    si: StablecoinInstruction,
    sender: Address,
    height: u64,
    timestamp: u64,
    ev: Evidence,
)
    requires
        si is ProveCompliance,
        flash_balanced(s),
        instruction_rule(s, si, sender, height, timestamp, ev) is Ok,
    ensures
        flash_balanced(instruction_rule(s, si, sender, height, timestamp, ev)->Ok_0),
{
    lemma_pending_put_everywhere();
}

proof fn lemma_flash_zk_tax_attest(
    s: StateModel,
    si: StablecoinInstruction,
    sender: Address,
    height: u64,
    timestamp: u64,
    ev: Evidence,
)
    requires
        si is ZkTaxAttest,
        flash_balanced(s),
        instruction_rule(s, si, sender, height, timestamp, ev) is Ok,
    ensures
        flash_balanced(instruction_rule(s, si, sender, height, timestamp, ev)->Ok_0),
{
    lemma_pending_put_everywhere();
}

proof fn lemma_flash_multi_jurisdictional_check(
    s: StateModel,
    si: StablecoinInstruction,
    sender: Address,
    height: u64,
    timestamp: u64,
    ev: Evidence,
)
    requires
        si is MultiJurisdictionalCheck,
        flash_balanced(s),
        instruction_rule(s, si, sender, height, timestamp, ev) is Ok,
    ensures
        flash_balanced(instruction_rule(s, si, sender, height, timestamp, ev)->Ok_0),
{
    lemma_pending_put_everywhere();
}

proof fn lemma_flash_update_oracle(
    s: StateModel,
    si: StablecoinInstruction,
    sender: Address,
    height: u64,
    timestamp: u64,
    ev: Evidence,
)
    requires
        si is UpdateOracle,
        flash_balanced(s),
        instruction_rule(s, si, sender, height, timestamp, ev) is Ok,
    ensures
        flash_balanced(instruction_rule(s, si, sender, height, timestamp, ev)->Ok_0),
{
    lemma_pending_put_everywhere();
}

proof fn lemma_flash_submit_zk_po_r(
    s: StateModel,
    si: StablecoinInstruction,
    sender: Address,
    height: u64,
    timestamp: u64,
    ev: Evidence,
)
    requires
        si is SubmitZkPoR,
        flash_balanced(s),
        instruction_rule(s, si, sender, height, timestamp, ev) is Ok,
    ensures
        flash_balanced(instruction_rule(s, si, sender, height, timestamp, ev)->Ok_0),
{
    lemma_pending_put_everywhere();
}

proof fn lemma_flash_instant_fiat_bridge(
    s: StateModel,
    si: StablecoinInstruction,
    sender: Address,
    height: u64,
    timestamp: u64,
    ev: Evidence,
)
    requires
        si is InstantFiatBridge,
        flash_balanced(s),
        instruction_rule(s, si, sender, height, timestamp, ev) is Ok,
    ensures
        flash_balanced(instruction_rule(s, si, sender, height, timestamp, ev)->Ok_0),
{
    lemma_pending_put_everywhere();
}

proof fn lemma_flash_zero_slip_batch_match(
    s: StateModel,
    si: StablecoinInstruction,
    sender: Address,
    height: u64,
    timestamp: u64,
    ev: Evidence,
)
    requires
        si is ZeroSlipBatchMatch,
        flash_balanced(s),
        instruction_rule(s, si, sender, height, timestamp, ev) is Ok,
    ensures
        flash_balanced(instruction_rule(s, si, sender, height, timestamp, ev)->Ok_0),
{
    lemma_pending_put_everywhere();
}

proof fn lemma_flash_dynamic_hedge(
    s: StateModel,
    si: StablecoinInstruction,
    sender: Address,
    height: u64,
    timestamp: u64,
    ev: Evidence,
)
    requires
        si is DynamicHedge,
        flash_balanced(s),
        instruction_rule(s, si, sender, height, timestamp, ev) is Ok,
    ensures
        flash_balanced(instruction_rule(s, si, sender, height, timestamp, ev)->Ok_0),
{
    lemma_pending_put_everywhere();
}

proof fn lemma_flash_geo_rebalance(
    s: StateModel,
    si: StablecoinInstruction,
    sender: Address,
    height: u64,
    timestamp: u64,
    ev: Evidence,
)
    requires
        si is GeoRebalance,
        flash_balanced(s),
        instruction_rule(s, si, sender, height, timestamp, ev) is Ok,
    ensures
        flash_balanced(instruction_rule(s, si, sender, height, timestamp, ev)->Ok_0),
{
    lemma_pending_put_everywhere();
}

proof fn lemma_flash_velocity_incentive(
    s: StateModel,
    si: StablecoinInstruction,
    sender: Address,
    height: u64,
    timestamp: u64,
    ev: Evidence,
)
    requires
        si is VelocityIncentive,
        flash_balanced(s),
        instruction_rule(s, si, sender, height, timestamp, ev) is Ok,
    ensures
        flash_balanced(instruction_rule(s, si, sender, height, timestamp, ev)->Ok_0),
{
    lemma_pending_put_everywhere();
}

proof fn lemma_flash_stream_payment(
    s: StateModel,
    si: StablecoinInstruction,
    sender: Address,
    height: u64,
    timestamp: u64,
    ev: Evidence,
)
    requires
        si is StreamPayment,
        flash_balanced(s),
        instruction_rule(s, si, sender, height, timestamp, ev) is Ok,
    ensures
        flash_balanced(instruction_rule(s, si, sender, height, timestamp, ev)->Ok_0),
{
    lemma_pending_put_everywhere();
}

proof fn lemma_flash_register_validator(
    s: StateModel,
    si: StablecoinInstruction,
    sender: Address,
    height: u64,
    timestamp: u64,
    ev: Evidence,
)
    requires
        si is RegisterValidator,
        flash_balanced(s),
        instruction_rule(s, si, sender, height, timestamp, ev) is Ok,
    ensures
        flash_balanced(instruction_rule(s, si, sender, height, timestamp, ev)->Ok_0),
{
    lemma_pending_put_everywhere();
}

proof fn lemma_flash_vote(
    s: StateModel,
    si: StablecoinInstruction,
    sender: Address,
    height: u64,
    timestamp: u64,
    ev: Evidence,
)
    requires
        si is Vote,
        flash_balanced(s),
        instruction_rule(s, si, sender, height, timestamp, ev) is Ok,
    ensures
        flash_balanced(instruction_rule(s, si, sender, height, timestamp, ev)->Ok_0),
{
    lemma_pending_put_everywhere();
}

proof fn lemma_flash_create_passkey_account(
    s: StateModel,
    si: StablecoinInstruction,
    sender: Address,
    height: u64,
    timestamp: u64,
    ev: Evidence,
)
    requires
        si is CreatePasskeyAccount,
        flash_balanced(s),
        instruction_rule(s, si, sender, height, timestamp, ev) is Ok,
    ensures
        flash_balanced(instruction_rule(s, si, sender, height, timestamp, ev)->Ok_0),
{
    lemma_pending_put_everywhere();
}

proof fn lemma_flash_recover_social(
    s: StateModel,
    si: StablecoinInstruction,
    sender: Address,
    height: u64,
    timestamp: u64,
    ev: Evidence,
)
    requires
        si is RecoverSocial,
        flash_balanced(s),
        instruction_rule(s, si, sender, height, timestamp, ev) is Ok,
    ensures
        flash_balanced(instruction_rule(s, si, sender, height, timestamp, ev)->Ok_0),
{
    lemma_pending_put_everywhere();
}

proof fn lemma_flash_claim_velocity_reward(
    s: StateModel,
    si: StablecoinInstruction,
    sender: Address,
    height: u64,
    timestamp: u64,
    ev: Evidence,
)
    requires
        si is ClaimVelocityReward,
        flash_balanced(s),
        instruction_rule(s, si, sender, height, timestamp, ev) is Ok,
    ensures
        flash_balanced(instruction_rule(s, si, sender, height, timestamp, ev)->Ok_0),
{
    lemma_pending_put_everywhere();
}

proof fn lemma_flash_register_custodian(
    s: StateModel,
    si: StablecoinInstruction,
    sender: Address,
    height: u64,
    timestamp: u64,
    ev: Evidence,
)
    requires
        si is RegisterCustodian,
        flash_balanced(s),
        instruction_rule(s, si, sender, height, timestamp, ev) is Ok,
    ensures
        flash_balanced(instruction_rule(s, si, sender, height, timestamp, ev)->Ok_0),
{
    lemma_pending_put_everywhere();
}

proof fn lemma_flash_rotate_reserves(
    s: StateModel,
    si: StablecoinInstruction,
    sender: Address,
    height: u64,
    timestamp: u64,
    ev: Evidence,
)
    requires
        si is RotateReserves,
        flash_balanced(s),
        instruction_rule(s, si, sender, height, timestamp, ev) is Ok,
    ensures
        flash_balanced(instruction_rule(s, si, sender, height, timestamp, ev)->Ok_0),
{
    lemma_pending_put_everywhere();
}

proof fn lemma_flash_claim_insurance(
    s: StateModel,
    si: StablecoinInstruction,
    sender: Address,
    height: u64,
    timestamp: u64,
    ev: Evidence,
)
    requires
        si is ClaimInsurance,
        flash_balanced(s),
        instruction_rule(s, si, sender, height, timestamp, ev) is Ok,
    ensures
        flash_balanced(instruction_rule(s, si, sender, height, timestamp, ev)->Ok_0),
{
    lemma_pending_put_everywhere();
}

proof fn lemma_flash_switch_to_pq_signature(
    s: StateModel,
    si: StablecoinInstruction,
    sender: Address,
    height: u64,
    timestamp: u64,
    ev: Evidence,
)
    requires
        si is SwitchToPQSignature,
        flash_balanced(s),
        instruction_rule(s, si, sender, height, timestamp, ev) is Ok,
    ensures
        flash_balanced(instruction_rule(s, si, sender, height, timestamp, ev)->Ok_0),
{
    lemma_pending_put_everywhere();
}

proof fn lemma_flash_register_green_validator(
    s: StateModel,
    si: StablecoinInstruction,
    sender: Address,
    height: u64,
    timestamp: u64,
    ev: Evidence,
)
    requires
        si is RegisterGreenValidator,
        flash_balanced(s),
        instruction_rule(s, si, sender, height, timestamp, ev) is Ok,
    ensures
        flash_balanced(instruction_rule(s, si, sender, height, timestamp, ev)->Ok_0),
{
    lemma_pending_put_everywhere();
}

proof fn lemma_flash_upload_compliance_circuit(
    s: StateModel,
    si: StablecoinInstruction,
    sender: Address,
    height: u64,
    timestamp: u64,
    ev: Evidence,
)
    requires
        si is UploadComplianceCircuit,
        flash_balanced(s),
        instruction_rule(s, si, sender, height, timestamp, ev) is Ok,
    ensures
        flash_balanced(instruction_rule(s, si, sender, height, timestamp, ev)->Ok_0),
{
    lemma_pending_put_everywhere();
}

proof fn lemma_flash_flash_mint(
    s: StateModel,
    si: StablecoinInstruction,
    sender: Address,
    height: u64,
    timestamp: u64,
    ev: Evidence,
)
    requires
        si is FlashMint,
        flash_balanced(s),
        instruction_rule(s, si, sender, height, timestamp, ev) is Ok,
    ensures
        flash_balanced(instruction_rule(s, si, sender, height, timestamp, ev)->Ok_0),
{
    lemma_pending_put_everywhere();
}

proof fn lemma_flash_flash_burn(
    s: StateModel,
    si: StablecoinInstruction,
    sender: Address,
    height: u64,
    timestamp: u64,
    ev: Evidence,
)
    requires
        si is FlashBurn,
        flash_balanced(s),
        instruction_rule(s, si, sender, height, timestamp, ev) is Ok,
    ensures
        flash_balanced(instruction_rule(s, si, sender, height, timestamp, ev)->Ok_0),
{
    lemma_pending_put_everywhere();
    lemma_pending_covers(s.accounts, sender);
}

proof fn lemma_flash_instant_redeem(
    s: StateModel,
    si: StablecoinInstruction,
    sender: Address,
    height: u64,
    timestamp: u64,
    ev: Evidence,
)
    requires
        si is InstantRedeem,
        flash_balanced(s),
        instruction_rule(s, si, sender, height, timestamp, ev) is Ok,
    ensures
        flash_balanced(instruction_rule(s, si, sender, height, timestamp, ev)->Ok_0),
{
    lemma_pending_put_everywhere();
}

proof fn lemma_flash_mint_with_credit_score(
    s: StateModel,
    si: StablecoinInstruction,
    sender: Address,
    height: u64,
    timestamp: u64,
    ev: Evidence,
)
    requires
        si is MintWithCreditScore,
        flash_balanced(s),
        instruction_rule(s, si, sender, height, timestamp, ev) is Ok,
    ensures
        flash_balanced(instruction_rule(s, si, sender, height, timestamp, ev)->Ok_0),
{
    lemma_pending_put_everywhere();
}

proof fn lemma_flash_wrap_to_yield_token(
    s: StateModel,
    si: StablecoinInstruction,
    sender: Address,
    height: u64,
    timestamp: u64,
    ev: Evidence,
)
    requires
        si is WrapToYieldToken,
        flash_balanced(s),
        instruction_rule(s, si, sender, height, timestamp, ev) is Ok,
    ensures
        flash_balanced(instruction_rule(s, si, sender, height, timestamp, ev)->Ok_0),
{
    lemma_pending_put_everywhere();
}

proof fn lemma_flash_unwrap_yield_token(
    s: StateModel,
    si: StablecoinInstruction,
    sender: Address,
    height: u64,
    timestamp: u64,
    ev: Evidence,
)
    requires
        si is UnwrapYieldToken,
        flash_balanced(s),
        instruction_rule(s, si, sender, height, timestamp, ev) is Ok,
    ensures
        flash_balanced(instruction_rule(s, si, sender, height, timestamp, ev)->Ok_0),
{
    lemma_pending_put_everywhere();
}

proof fn lemma_flash_list_rwa(
    s: StateModel,
    si: StablecoinInstruction,
    sender: Address,
    height: u64,
    timestamp: u64,
    ev: Evidence,
)
    requires
        si is ListRWA,
        flash_balanced(s),
        instruction_rule(s, si, sender, height, timestamp, ev) is Ok,
    ensures
        flash_balanced(instruction_rule(s, si, sender, height, timestamp, ev)->Ok_0),
{
    lemma_pending_put_everywhere();
}

proof fn lemma_flash_use_rwa_as_collateral(
    s: StateModel,
    si: StablecoinInstruction,
    sender: Address,
    height: u64,
    timestamp: u64,
    ev: Evidence,
)
    requires
        si is UseRWAAsCollateral,
        flash_balanced(s),
        instruction_rule(s, si, sender, height, timestamp, ev) is Ok,
    ensures
        flash_balanced(instruction_rule(s, si, sender, height, timestamp, ev)->Ok_0),
{
    lemma_pending_put_everywhere();
}

proof fn lemma_flash_compute_health_index(
    s: StateModel,
    si: StablecoinInstruction,
    sender: Address,
    height: u64,
    timestamp: u64,
    ev: Evidence,
)
    requires
        si is ComputeHealthIndex,
        flash_balanced(s),
        instruction_rule(s, si, sender, height, timestamp, ev) is Ok,
    ensures
        flash_balanced(instruction_rule(s, si, sender, height, timestamp, ev)->Ok_0),
{
    lemma_pending_put_everywhere();
}

/// Flash-mint accounting: where the pending flash mints of a state are
/// those of its accounts added up, they are so after every instruction that
/// succeeds.
pub proof fn law_flash_balance(
    s: StateModel,
    si: StablecoinInstruction,
    sender: Address,
    height: u64,
    timestamp: u64,
    ev: Evidence,
)
    requires
        flash_balanced(s),
        instruction_rule(s, si, sender, height, timestamp, ev) is Ok,
    ensures
        flash_balanced(instruction_rule(s, si, sender, height, timestamp, ev)->Ok_0),
{
    match si {
        StablecoinInstruction::RegisterAsset { .. } => lemma_flash_register_asset(s, si, sender, height, timestamp, ev),
        StablecoinInstruction::MintSenior { .. } => lemma_flash_mint_senior(s, si, sender, height, timestamp, ev),
        StablecoinInstruction::RedeemSenior { .. } => lemma_flash_redeem_senior(s, si, sender, height, timestamp, ev),
        StablecoinInstruction::MintJunior { .. } => lemma_flash_mint_junior(s, si, sender, height, timestamp, ev),
        StablecoinInstruction::RedeemJunior { .. } => lemma_flash_redeem_junior(s, si, sender, height, timestamp, ev),
        StablecoinInstruction::Burn { .. } => lemma_flash_burn(s, si, sender, height, timestamp, ev),
        StablecoinInstruction::Transfer { .. } => lemma_flash_transfer(s, si, sender, height, timestamp, ev),
        StablecoinInstruction::RebalanceTranches => lemma_flash_rebalance_tranches(s, si, sender, height, timestamp, ev),
        StablecoinInstruction::DistributeYield { .. } => lemma_flash_distribute_yield(s, si, sender, height, timestamp, ev),
        StablecoinInstruction::TriggerStabilizer => lemma_flash_trigger_stabilizer(s, si, sender, height, timestamp, ev),
        StablecoinInstruction::RunCircuitBreaker { .. } => lemma_flash_run_circuit_breaker(s, si, sender, height, timestamp, ev),
        StablecoinInstruction::FairRedeemQueue { .. } => lemma_flash_fair_redeem_queue(s, si, sender, height, timestamp, ev),
        StablecoinInstruction::ConfidentialTransfer { .. } => lemma_flash_confidential_transfer(s, si, sender, height, timestamp, ev),
        StablecoinInstruction::ProveCompliance { .. } => lemma_flash_prove_compliance(s, si, sender, height, timestamp, ev),
        StablecoinInstruction::ZkTaxAttest { .. } => lemma_flash_zk_tax_attest(s, si, sender, height, timestamp, ev),
        StablecoinInstruction::MultiJurisdictionalCheck { .. } => lemma_flash_multi_jurisdictional_check(s, si, sender, height, timestamp, ev),
        StablecoinInstruction::UpdateOracle { .. } => lemma_flash_update_oracle(s, si, sender, height, timestamp, ev),
        StablecoinInstruction::SubmitZkPoR { .. } => lemma_flash_submit_zk_po_r(s, si, sender, height, timestamp, ev),
        StablecoinInstruction::InstantFiatBridge { .. } => lemma_flash_instant_fiat_bridge(s, si, sender, height, timestamp, ev),
        StablecoinInstruction::ZeroSlipBatchMatch { .. } => lemma_flash_zero_slip_batch_match(s, si, sender, height, timestamp, ev),
        StablecoinInstruction::DynamicHedge { .. } => lemma_flash_dynamic_hedge(s, si, sender, height, timestamp, ev),
        StablecoinInstruction::GeoRebalance { .. } => lemma_flash_geo_rebalance(s, si, sender, height, timestamp, ev),
        StablecoinInstruction::VelocityIncentive { .. } => lemma_flash_velocity_incentive(s, si, sender, height, timestamp, ev),
        StablecoinInstruction::StreamPayment { .. } => lemma_flash_stream_payment(s, si, sender, height, timestamp, ev),
        StablecoinInstruction::RegisterValidator { .. } => lemma_flash_register_validator(s, si, sender, height, timestamp, ev),
        StablecoinInstruction::Vote { .. } => lemma_flash_vote(s, si, sender, height, timestamp, ev),
        StablecoinInstruction::CreatePasskeyAccount { .. } => lemma_flash_create_passkey_account(s, si, sender, height, timestamp, ev),
        StablecoinInstruction::RecoverSocial { .. } => lemma_flash_recover_social(s, si, sender, height, timestamp, ev),
        StablecoinInstruction::ClaimVelocityReward { .. } => lemma_flash_claim_velocity_reward(s, si, sender, height, timestamp, ev),
        StablecoinInstruction::RegisterCustodian { .. } => lemma_flash_register_custodian(s, si, sender, height, timestamp, ev),
        StablecoinInstruction::RotateReserves { .. } => lemma_flash_rotate_reserves(s, si, sender, height, timestamp, ev),
        StablecoinInstruction::ClaimInsurance { .. } => lemma_flash_claim_insurance(s, si, sender, height, timestamp, ev),
        StablecoinInstruction::SwitchToPQSignature { .. } => lemma_flash_switch_to_pq_signature(s, si, sender, height, timestamp, ev),
        StablecoinInstruction::RegisterGreenValidator { .. } => lemma_flash_register_green_validator(s, si, sender, height, timestamp, ev),
        StablecoinInstruction::UploadComplianceCircuit { .. } => lemma_flash_upload_compliance_circuit(s, si, sender, height, timestamp, ev),
        StablecoinInstruction::FlashMint { .. } => lemma_flash_flash_mint(s, si, sender, height, timestamp, ev),
        StablecoinInstruction::FlashBurn { .. } => lemma_flash_flash_burn(s, si, sender, height, timestamp, ev),
        StablecoinInstruction::InstantRedeem { .. } => lemma_flash_instant_redeem(s, si, sender, height, timestamp, ev),
        StablecoinInstruction::MintWithCreditScore { .. } => lemma_flash_mint_with_credit_score(s, si, sender, height, timestamp, ev),
        StablecoinInstruction::WrapToYieldToken { .. } => lemma_flash_wrap_to_yield_token(s, si, sender, height, timestamp, ev),
        StablecoinInstruction::UnwrapYieldToken { .. } => lemma_flash_unwrap_yield_token(s, si, sender, height, timestamp, ev),
        StablecoinInstruction::ListRWA { .. } => lemma_flash_list_rwa(s, si, sender, height, timestamp, ev),
        StablecoinInstruction::UseRWAAsCollateral { .. } => lemma_flash_use_rwa_as_collateral(s, si, sender, height, timestamp, ev),
        StablecoinInstruction::ComputeHealthIndex => lemma_flash_compute_health_index(s, si, sender, height, timestamp, ev),
    }
}

/// The same for a whole transaction: counting the nonce and executing the
/// instruction keep the pending flash mints balanced.
pub proof fn law_flash_balance_transaction(
    s: StateModel,
    tx: Transaction,
    height: u64,
    timestamp: u64,
    reserve_key: Seq<u8>,
)
    requires
        flash_balanced(s),
        transaction_rule(s, tx, height, timestamp, reserve_key) is Ok,
    ensures
        flash_balanced(transaction_rule(s, tx, height, timestamp, reserve_key)->Ok_0),
{
    let a = accounts_get(s.accounts, tx.sender);
    let counted = with_account(s, tx.sender, AccountModel { nonce: (a.nonce + 1) as u64, ..a });
    let ev = evidence_of(tx.instruction, accounts_get(counted.accounts, tx.sender).guardians, reserve_key);
    lemma_pending_put(s.accounts, tx.sender, AccountModel { nonce: (a.nonce + 1) as u64, ..a });
    law_flash_balance(counted, tx.instruction, tx.sender, height, timestamp, ev);
}

/// What every transaction that succeeds respects, as every instruction
/// does: an account, once there, stays, with its data in range; no listing
/// has more pledged than attested; the health index stays within 10000;
/// unless the transaction switches the breaker off, the breaker stays on
/// once on and agrees with the stored ratio; no replay tag is dropped; and
/// the timestamp of the last reserve proof does not go back.
pub proof fn law_transaction_respects(
    s: StateModel,
    tx: Transaction,
    height: u64,
    timestamp: u64,
    reserve_key: Seq<u8>,
    who: Address,
)
    requires
        transaction_rule(s, tx, height, timestamp, reserve_key) is Ok,
    ensures
        ({
            let post = transaction_rule(s, tx, height, timestamp, reserve_key)->Ok_0;
            &&& accounts_has(s.accounts, who) ==> accounts_has(post.accounts, who)
            &&& accounts_has(post.accounts, tx.sender)
            &&& account_in_range(accounts_get(s.accounts, who)) ==> account_in_range(
                accounts_get(post.accounts, who),
            )
            &&& pledges_bounded(s) ==> pledges_bounded(post)
            &&& s.health_index <= 10000 ==> post.health_index <= 10000
            &&& !clears_breaker(tx.instruction) && s.circuit_breaker_active
                ==> post.circuit_breaker_active
            &&& !clears_breaker(tx.instruction) && latched(s) ==> latched(post)
            &&& keeps_tags(s.used_credit_proofs, post.used_credit_proofs)
            &&& keeps_tags(s.executed_batch_matches, post.executed_batch_matches)
            &&& post.last_por_timestamp >= s.last_por_timestamp
        }),
{
    let a = accounts_get(s.accounts, tx.sender);
    let counted = with_account(s, tx.sender, AccountModel { nonce: (a.nonce + 1) as u64, ..a });
    let ev = evidence_of(tx.instruction, accounts_get(counted.accounts, tx.sender).guardians, reserve_key);
    lemma_put_get_everywhere();
    law_instruction_respects(counted, tx.instruction, tx.sender, height, timestamp, ev, who);
    law_instruction_respects(counted, tx.instruction, tx.sender, height, timestamp, ev, tx.sender);
}

} // verus!

verus! {

/// Rebinding heights touches neither blocks, metadata, states by hash, the
/// latest state nor the tip.
pub proof fn lemma_rebound_keeps(store: StoreModel, links: Seq<ChainLink>, k: int)
    ensures
        rebound(store, links, k).metas == store.metas,
        rebound(store, links, k).blocks == store.blocks,
        rebound(store, links, k).states_by_hash == store.states_by_hash,
        rebound(store, links, k).tip == store.tip,
        rebound(store, links, k).latest == store.latest,
    decreases k,
{
    if k > 0 {
        lemma_rebound_keeps(store, links, k - 1);
    }
}

/// Re-import idempotence: importing a block a second time changes neither
/// the store nor the current state; and where the first import succeeded,
/// the second reports that nothing was reorganised.
pub proof fn law_reimport_idempotent(store: StoreModel, current: StateModel, block: Block, reserve_key: Seq<u8>)
    ensures
        import_rule(
            import_rule(store, current, block, reserve_key).chain.store,
            import_rule(store, current, block, reserve_key).chain.current,
            block,
            reserve_key,
        ).chain == import_rule(store, current, block, reserve_key).chain,
        import_rule(store, current, block, reserve_key).result is Ok ==> import_rule(
            import_rule(store, current, block, reserve_key).chain.store,
            import_rule(store, current, block, reserve_key).chain.current,
            block,
            reserve_key,
        ).result == Ok::<bool, crate::chain::ChainError>(false),
{
    let hash = block_hash_of(block.header);
    if !store.metas.contains_key(hash) {
        match validated_state(store, block, reserve_key) {
            Err(e) => {},
            Ok(state) => {
                let kept = persisted(store, block, state);
                assert(kept.metas.contains_key(hash));
                match ancestry(kept.metas, hash, WALK_LIMIT as nat) {
                    Some(links) => {
                        lemma_rebound_keeps(kept, links, links.len() as int);
                    },
                    None => {},
                }
            },
        }
    }
}

/// Along a chain each block's metadata gives its height and, as its parent,
/// the next block of the chain.
pub proof fn lemma_ancestry_links(metas: Map<Address, BlockMeta>, hash: Address, fuel: nat, i: int)
    requires
        ancestry(metas, hash, fuel) is Some,
        0 <= i < ancestry(metas, hash, fuel)->Some_0.len(),
    ensures
        metas.contains_key(ancestry(metas, hash, fuel)->Some_0[i].hash),
        metas[ancestry(metas, hash, fuel)->Some_0[i].hash].height == ancestry(
            metas,
            hash,
            fuel,
        )->Some_0[i].height,
        i + 1 < ancestry(metas, hash, fuel)->Some_0.len() ==> metas[ancestry(
            metas,
            hash,
            fuel,
        )->Some_0[i].hash].parent_hash == ancestry(metas, hash, fuel)->Some_0[i + 1].hash,
    decreases fuel,
{
    let links = ancestry(metas, hash, fuel)->Some_0;
    if metas[hash].height > 1 && fuel > 0 {
        let rest = ancestry(metas, metas[hash].parent_hash, (fuel - 1) as nat)->Some_0;
        crate::chain::lemma_ancestry_starts(metas, metas[hash].parent_hash, (fuel - 1) as nat);
        assert(links =~= seq![ChainLink { height: metas[hash].height, hash }] + rest);
        if i > 0 {
            lemma_ancestry_links(metas, metas[hash].parent_hash, (fuel - 1) as nat, i - 1);
            assert(links[i] == rest[i - 1]);
            if i + 1 < links.len() {
                assert(links[i + 1] == rest[i]);
            }
        } else {
            if links.len() > 1 {
                assert(links[1] == rest[0]);
            }
        }
    }
}

/// Whether the heights of a tip-first chain go down by one from block to
/// block.
pub open spec fn heights_step_down(links: Seq<ChainLink>) -> bool {
    forall|i: int| 0 <= i && i + 1 < links.len() ==> (#[trigger] links[i]).height == links[i + 1].height + 1
}

/// Heights that step down are all different, the higher the nearer the tip.
proof fn lemma_heights_ordered(links: Seq<ChainLink>, i: int, j: int)
    requires
        heights_step_down(links),
        0 <= i <= j < links.len(),
    ensures
        links[i].height == links[j].height + (j - i),
    decreases j - i,
{
    if i < j {
        lemma_heights_ordered(links, i + 1, j);
    }
}

/// After the last `k` links were bound, each of them is the canonical block
/// of its height.
proof fn lemma_rebound_binds(store: StoreModel, links: Seq<ChainLink>, k: int, j: int)
    requires
        heights_step_down(links),
        0 <= k <= links.len(),
        links.len() - k <= j < links.len(),
    ensures
        rebound(store, links, k).canonical.contains_key(links[j].height),
        rebound(store, links, k).canonical[links[j].height] == links[j].hash,
        rebound(store, links, k).states_by_height.contains_key(links[j].height),
        rebound(store, links, k).states_by_height[links[j].height] == store.states_by_hash[links[j].hash],
    decreases k,
{
    if j > links.len() - k {
        lemma_rebound_binds(store, links, k - 1, j);
        lemma_heights_ordered(links, links.len() - k, j);
    }
}

/// Reorg consistency: after a reorganisation to a tip whose ancestry has
/// heights that step down by one, every block of the ancestry is the
/// canonical block of its height and has the state after it as the snapshot
/// of that height, and the parent of the canonical block of a height is the
/// canonical block of the height below.
pub proof fn law_reorg_consistent(store: StoreModel, new_hash: Address, new_height: u64, i: int)
    requires
        reorg_rule(store, new_hash, new_height) is Ok,
        heights_step_down(ancestry(store.metas, new_hash, WALK_LIMIT as nat)->Some_0),
        0 <= i < ancestry(store.metas, new_hash, WALK_LIMIT as nat)->Some_0.len(),
    ensures
        ({
            let links = ancestry(store.metas, new_hash, WALK_LIMIT as nat)->Some_0;
            let after = reorg_rule(store, new_hash, new_height)->Ok_0.store;
            &&& after.canonical.contains_key(links[i].height)
            &&& after.canonical[links[i].height] == links[i].hash
            &&& after.states_by_height[links[i].height] == store.states_by_hash[links[i].hash]
            &&& after.metas == store.metas
            &&& i + 1 < links.len() ==> after.canonical.contains_key((links[i].height - 1) as u64)
                && after.metas[after.canonical[links[i].height]].parent_hash
                == after.canonical[(links[i].height - 1) as u64]
            &&& after.tip == Some(crate::store::Tip { height: new_height, hash: new_hash })
            &&& reorg_rule(store, new_hash, new_height)->Ok_0.current
                == store.states_by_hash[new_hash]
        }),
{
    let links = ancestry(store.metas, new_hash, WALK_LIMIT as nat)->Some_0;
    lemma_rebound_keeps(store, links, links.len() as int);
    lemma_rebound_binds(store, links, links.len() as int, i);
    lemma_ancestry_links(store.metas, new_hash, WALK_LIMIT as nat, i);
    if i + 1 < links.len() {
        lemma_rebound_binds(store, links, links.len() as int, i + 1);
    }
}

} // verus!
