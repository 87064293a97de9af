use lumina_core::account::{AccountState, TickerTable};
use lumina_core::accounts::AccountMap;
use lumina_core::execution::{apply_instruction, end_block, execute_si, ExecutionContext};
use lumina_core::handlers::capital::derive_credit_score;
use lumina_core::handlers::health::compute_health_index;
use lumina_core::instruction::{AssetType, StablecoinInstruction};
use lumina_core::oracle::{OracleManager, OracleRegime};
use lumina_core::proofs::ZkManager;
use lumina_core::rules::{
    checked_add_u64, checked_sub_u64, compute_ratio_bps, mul_div_u64, recalculate_ratios,
    BalanceKind, Evidence, ExecError,
};
use lumina_core::simulation::{seed_custom_assets, seed_simulation_money};
use lumina_core::state::{CustodianState, GlobalState, RWAListing, RedemptionRequest, ValidatorState};
use lumina_core::genesis::create_genesis_state;

const S: [u8; 32] = [1u8; 32];

fn context(state: GlobalState) -> ExecutionContext {
    ExecutionContext { state, height: 10, timestamp: 1000, zk: ZkManager::new(Vec::new()) }
}

fn accepted() -> Evidence {
    Evidence { proof_ok: true, digest: [0u8; 32], approvals: 0 }
}

fn refused() -> Evidence {
    Evidence { proof_ok: false, digest: [0u8; 32], approvals: 0 }
}

fn tagged(digest: [u8; 32]) -> Evidence {
    Evidence { proof_ok: true, digest, approvals: 0 }
}

fn account(lusd: u64, ljun: u64, lumina: u64) -> AccountState {
    let mut a = AccountState::default();
    a.lusd_balance = lusd;
    a.ljun_balance = ljun;
    a.lumina_balance = lumina;
    a
}

fn with_sender(lusd: u64, ljun: u64, lumina: u64) -> GlobalState {
    let mut state = GlobalState::default();
    state.accounts.insert(S, account(lusd, ljun, lumina));
    state
}

fn run(ctx: &mut ExecutionContext, si: StablecoinInstruction) -> Result<(), ExecError> {
    execute_si(&si, &S, ctx)
}

fn validator(pubkey: [u8; 32], green: bool) -> ValidatorState {
    ValidatorState { pubkey, stake: 10, power: 10, is_green: green, energy_proof: None }
}

fn custodian(pubkey: [u8; 32]) -> CustodianState {
    CustodianState { pubkey, stake: 1, mpc_pubkeys: vec![[0u8; 32]], registered_height: 0 }
}

#[test]
fn mint_senior_routes_a_twentieth_to_insurance() {
    let mut ctx = context(GlobalState::default());
    let mint =
        StablecoinInstruction::MintSenior { amount: 1000, collateral_amount: 1200, proof: vec![1] };
    assert_eq!(apply_instruction(&mint, &S, &mut ctx, &accepted()), Ok(()));
    assert_eq!(ctx.state.accounts.get(&S).unwrap().lusd_balance, 950);
    assert_eq!(ctx.state.accounts.get(&S).unwrap().epoch_tx_volume, 1000);
    assert_eq!(ctx.state.total_lusd_supply, 950);
    assert_eq!(ctx.state.insurance_fund_balance, 50);
    assert_eq!(ctx.state.stabilization_pool_balance, 1200);
    assert_eq!(ctx.state.reserve_ratio_bps, 12631);
    let ratio = ctx.state.reserve_ratio_bps as f64 / 10000.0;
    assert!((ratio - 1.263).abs() < 0.001);
    assert!(!ctx.state.circuit_breaker_active);

    let small = StablecoinInstruction::MintSenior { amount: 19, collateral_amount: 1, proof: vec![1] };
    assert_eq!(apply_instruction(&small, &S, &mut ctx, &accepted()), Ok(()));
    assert_eq!(ctx.state.insurance_fund_balance, 50);
    assert_eq!(ctx.state.total_lusd_supply, 969);
}

#[test]
fn mint_senior_refuses_in_the_order_of_its_checks() {
    let mut ctx = context(GlobalState::default());
    ctx.state.circuit_breaker_active = true;
    let mint = |amount, collateral_amount, proof| StablecoinInstruction::MintSenior {
        amount,
        collateral_amount,
        proof,
    };
    assert_eq!(
        apply_instruction(&mint(0, 1, vec![1]), &S, &mut ctx, &accepted()),
        Err(ExecError::InvalidArgument)
    );
    assert_eq!(
        apply_instruction(&mint(1, 0, vec![1]), &S, &mut ctx, &accepted()),
        Err(ExecError::InvalidArgument)
    );
    assert_eq!(
        apply_instruction(&mint(1, 1, vec![]), &S, &mut ctx, &accepted()),
        Err(ExecError::InvalidArgument)
    );
    assert_eq!(
        apply_instruction(&mint(1, 1, vec![1]), &S, &mut ctx, &refused()),
        Err(ExecError::CircuitBreakerTripped)
    );
    ctx.state.circuit_breaker_active = false;
    assert_eq!(
        apply_instruction(&mint(1, 1, vec![1]), &S, &mut ctx, &refused()),
        Err(ExecError::ProofInvalid)
    );
    ctx.state.stabilization_pool_balance = u64::MAX;
    assert_eq!(
        apply_instruction(&mint(100, 1, vec![1]), &S, &mut ctx, &accepted()),
        Err(ExecError::Overflow)
    );
    assert_eq!(ctx.state.insurance_fund_balance, 0);
    assert_eq!(ctx.state.accounts.len(), 0);
    assert_eq!(run(&mut ctx, mint(1, 1, vec![1])), Err(ExecError::ProofInvalid));
}

#[test]
fn a_mint_that_drops_the_ratio_trips_the_breaker_for_good() {
    let mut state = GlobalState::default();
    state.total_lusd_supply = 1_000_000;
    state.stabilization_pool_balance = 100_000;
    let mut ctx = context(state);
    let mint = StablecoinInstruction::MintSenior { amount: 1, collateral_amount: 1, proof: vec![1] };
    assert_eq!(apply_instruction(&mint, &S, &mut ctx, &accepted()), Ok(()));
    assert_eq!(ctx.state.reserve_ratio_bps, 1000);
    assert!(ctx.state.circuit_breaker_active);
    assert_eq!(
        apply_instruction(&mint, &S, &mut ctx, &accepted()),
        Err(ExecError::CircuitBreakerTripped)
    );

    ctx.state.stabilization_pool_balance = 5_000_000;
    assert_eq!(run(&mut ctx, StablecoinInstruction::TriggerStabilizer), Ok(()));
    assert_eq!(ctx.state.reserve_ratio_bps, 49999);
    assert!(ctx.state.circuit_breaker_active);
    assert_eq!(run(&mut ctx, StablecoinInstruction::RunCircuitBreaker { active: false }), Ok(()));
    assert!(!ctx.state.circuit_breaker_active);
    assert_eq!(apply_instruction(&mint, &S, &mut ctx, &accepted()), Ok(()));
    assert!(!ctx.state.circuit_breaker_active);
}

#[test]
fn the_ratio_is_pool_over_supply_in_basis_points() {
    assert_eq!(compute_ratio_bps(0, 0), 10000);
    assert_eq!(compute_ratio_bps(7, 0), 10000);
    assert_eq!(compute_ratio_bps(0, 7), 0);
    assert_eq!(compute_ratio_bps(8499, 10000), 8499);
    assert_eq!(compute_ratio_bps(1, 3), 3333);
    assert_eq!(compute_ratio_bps(u64::MAX, 1), u64::MAX);
    assert_eq!(mul_div_u64(u64::MAX, u64::MAX, u64::MAX), u64::MAX);
    assert_eq!(mul_div_u64(10, 3, 4), 7);
    assert_eq!(checked_add_u64(u64::MAX, 1), Err(ExecError::Overflow));
    assert_eq!(checked_add_u64(u64::MAX - 1, 1), Ok(u64::MAX));
    assert_eq!(checked_sub_u64(0, 1), Err(ExecError::Underflow));
    assert_eq!(checked_sub_u64(5, 5), Ok(0));

    let mut state = GlobalState::default();
    state.total_lusd_supply = 10000;
    state.stabilization_pool_balance = 8500;
    recalculate_ratios(&mut state);
    assert_eq!(state.reserve_ratio_bps, 8500);
    assert!(!state.circuit_breaker_active);
    state.stabilization_pool_balance = 8499;
    recalculate_ratios(&mut state);
    assert!(state.circuit_breaker_active);
    state.total_lusd_supply = 0;
    state.reserve_ratio_bps = 1;
    recalculate_ratios(&mut state);
    assert_eq!(state.reserve_ratio_bps, 10000);
    assert!(state.circuit_breaker_active);
}

#[test]
fn redeem_senior_pays_out_or_queues() {
    let mut state = with_sender(5000, 0, 0);
    state.total_lusd_supply = 5000;
    state.stabilization_pool_balance = 300;
    state.reserve_ratio_bps = 9500;
    let mut ctx = context(state);
    assert_eq!(run(&mut ctx, StablecoinInstruction::RedeemSenior { amount: 0 }), Err(ExecError::InvalidArgument));
    assert_eq!(
        run(&mut ctx, StablecoinInstruction::RedeemSenior { amount: 5001 }),
        Err(ExecError::InsufficientBalance { asset: BalanceKind::Lusd })
    );
    assert_eq!(run(&mut ctx, StablecoinInstruction::RedeemSenior { amount: 1000 }), Ok(()));
    assert_eq!(ctx.state.accounts.get(&S).unwrap().lusd_balance, 4000);
    assert_eq!(ctx.state.total_lusd_supply, 4000);
    assert_eq!(ctx.state.stabilization_pool_balance, 0);
    assert_eq!(ctx.state.reserve_ratio_bps, 0);
    assert!(ctx.state.circuit_breaker_active);
    assert!(ctx.state.fair_redeem_queue.is_empty());

    assert_eq!(
        run(&mut ctx, StablecoinInstruction::InstantRedeem { amount: 10, destination: [3u8; 32] }),
        Ok(())
    );
    assert_eq!(ctx.state.total_lusd_supply, 4000);
    assert_eq!(ctx.state.fair_redeem_queue.len(), 1);
    assert_eq!(ctx.state.fair_redeem_queue[0].address, S);
    assert_eq!(ctx.state.fair_redeem_queue[0].amount, 10);
    assert_eq!(ctx.state.fair_redeem_queue[0].timestamp, 1000);
    assert!(ctx.state.accounts.get(&[3u8; 32]).is_none());

    let mut low = with_sender(10, 0, 0);
    low.total_lusd_supply = 5;
    low.reserve_ratio_bps = 10000;
    let mut ctx = context(low);
    assert_eq!(run(&mut ctx, StablecoinInstruction::RedeemSenior { amount: 6 }), Err(ExecError::Underflow));
    assert_eq!(ctx.state.accounts.get(&S).unwrap().lusd_balance, 10);
}

#[test]
fn the_redeem_queue_is_served_oldest_first() {
    let mut state = GlobalState::default();
    state.total_lusd_supply = 100;
    state.stabilization_pool_balance = 25;
    for amount in [10u64, 20, 30] {
        state.fair_redeem_queue.push(RedemptionRequest { address: S, amount, timestamp: amount });
    }
    let mut ctx = context(state);
    ctx.state.circuit_breaker_active = true;
    assert_eq!(
        run(&mut ctx, StablecoinInstruction::FairRedeemQueue { batch_size: 1 }),
        Err(ExecError::CircuitBreakerTripped)
    );
    ctx.state.circuit_breaker_active = false;
    assert_eq!(run(&mut ctx, StablecoinInstruction::FairRedeemQueue { batch_size: 0 }), Ok(()));
    assert_eq!(ctx.state.fair_redeem_queue.len(), 3);
    ctx.state.circuit_breaker_active = false;
    assert_eq!(run(&mut ctx, StablecoinInstruction::FairRedeemQueue { batch_size: 2 }), Ok(()));
    assert_eq!(ctx.state.fair_redeem_queue.len(), 1);
    assert_eq!(ctx.state.fair_redeem_queue[0].amount, 30);
    assert_eq!(ctx.state.total_lusd_supply, 70);
    assert_eq!(ctx.state.stabilization_pool_balance, 0);
    ctx.state.circuit_breaker_active = false;
    assert_eq!(run(&mut ctx, StablecoinInstruction::FairRedeemQueue { batch_size: 9 }), Ok(()));
    assert!(ctx.state.fair_redeem_queue.is_empty());
    assert_eq!(ctx.state.total_lusd_supply, 40);
}

#[test]
fn junior_mint_and_redeem_have_no_fee() {
    let mut ctx = context(GlobalState::default());
    assert_eq!(
        run(&mut ctx, StablecoinInstruction::MintJunior { amount: 0, collateral_amount: 1 }),
        Err(ExecError::InvalidArgument)
    );
    assert_eq!(
        run(&mut ctx, StablecoinInstruction::MintJunior { amount: 100, collateral_amount: 30 }),
        Ok(())
    );
    assert_eq!(ctx.state.accounts.get(&S).unwrap().ljun_balance, 100);
    assert_eq!(ctx.state.total_ljun_supply, 100);
    assert_eq!(ctx.state.stabilization_pool_balance, 30);
    assert_eq!(ctx.state.reserve_ratio_bps, 10000);
    assert_eq!(
        run(&mut ctx, StablecoinInstruction::MintJunior { amount: u64::MAX, collateral_amount: 1 }),
        Err(ExecError::Overflow)
    );
    assert_eq!(ctx.state.stabilization_pool_balance, 30);
    assert_eq!(run(&mut ctx, StablecoinInstruction::RedeemJunior { amount: 0 }), Err(ExecError::InvalidArgument));
    assert_eq!(
        run(&mut ctx, StablecoinInstruction::RedeemJunior { amount: 101 }),
        Err(ExecError::InsufficientBalance { asset: BalanceKind::Ljun })
    );
    ctx.state.total_ljun_supply = 50;
    assert_eq!(run(&mut ctx, StablecoinInstruction::RedeemJunior { amount: 60 }), Err(ExecError::Underflow));
    assert_eq!(run(&mut ctx, StablecoinInstruction::RedeemJunior { amount: 40 }), Ok(()));
    assert_eq!(ctx.state.accounts.get(&S).unwrap().ljun_balance, 60);
    assert_eq!(ctx.state.total_ljun_supply, 10);
}

#[test]
fn burn_takes_from_the_holder_and_from_the_supply() {
    let mut state = with_sender(10, 10, 10);
    state.total_lusd_supply = 4;
    state.total_ljun_supply = 100;
    let mut ctx = context(state);
    let burn = |amount, asset| StablecoinInstruction::Burn { amount, asset };
    assert_eq!(run(&mut ctx, burn(0, AssetType::LUSD)), Err(ExecError::InvalidArgument));
    assert_eq!(run(&mut ctx, burn(11, AssetType::Lumina)), Err(ExecError::InsufficientBalance { asset: BalanceKind::Lumina }));
    assert_eq!(
        run(&mut ctx, burn(1, AssetType::Custom("BTC".to_string()))),
        Err(ExecError::InsufficientBalance { asset: BalanceKind::Custom })
    );
    assert_eq!(run(&mut ctx, burn(6, AssetType::LUSD)), Ok(()));
    assert_eq!(ctx.state.total_lusd_supply, 0);
    assert_eq!(run(&mut ctx, burn(6, AssetType::LJUN)), Ok(()));
    assert_eq!(ctx.state.total_ljun_supply, 94);
    assert_eq!(run(&mut ctx, burn(6, AssetType::Lumina)), Ok(()));
    let a = ctx.state.accounts.get(&S).unwrap();
    assert_eq!((a.lusd_balance, a.ljun_balance, a.lumina_balance), (4, 4, 4));
}

#[test]
fn transfer_conserves_and_fails_whole() {
    let mut state = with_sender(10, 0, 0);
    state.total_lusd_supply = 10;
    let to = [2u8; 32];
    state.accounts.insert(to, account(u64::MAX - 3, 0, 0));
    let mut ctx = context(state);
    let send = |amount| StablecoinInstruction::Transfer { to, amount, asset: AssetType::LUSD };
    assert_eq!(run(&mut ctx, send(0)), Err(ExecError::InvalidArgument));
    assert_eq!(run(&mut ctx, send(11)), Err(ExecError::InsufficientBalance { asset: BalanceKind::Lusd }));
    assert_eq!(run(&mut ctx, send(4)), Err(ExecError::Overflow));
    assert_eq!(ctx.state.accounts.get(&S).unwrap().lusd_balance, 10);
    assert_eq!(ctx.state.accounts.get(&S).unwrap().epoch_tx_volume, 0);
    assert_eq!(run(&mut ctx, send(3)), Ok(()));
    assert_eq!(ctx.state.accounts.get(&S).unwrap().lusd_balance, 7);
    assert_eq!(ctx.state.accounts.get(&to).unwrap().lusd_balance, u64::MAX);
    assert_eq!(ctx.state.total_lusd_supply, 10);

    let own = StablecoinInstruction::Transfer { to: S, amount: 7, asset: AssetType::LUSD };
    assert_eq!(run(&mut ctx, own), Ok(()));
    assert_eq!(ctx.state.accounts.get(&S).unwrap().lusd_balance, 7);
    assert_eq!(ctx.state.accounts.get(&S).unwrap().epoch_tx_volume, 10);
    assert_eq!(ctx.state.accounts.len(), 2);
}

#[test]
fn a_failed_instruction_creates_no_account() {
    let mut ctx = context(GlobalState::default());
    let root = ctx.state.root_hash();
    assert_eq!(
        run(&mut ctx, StablecoinInstruction::Burn { amount: 1, asset: AssetType::LUSD }),
        Err(ExecError::InsufficientBalance { asset: BalanceKind::Lusd })
    );
    assert_eq!(run(&mut ctx, StablecoinInstruction::FlashBurn { amount: 1 }), Err(ExecError::InvalidArgument));
    assert_eq!(
        run(&mut ctx, StablecoinInstruction::UnwrapYieldToken { token_id: 0 }),
        Err(ExecError::NotFound)
    );
    assert_eq!(ctx.state.accounts.len(), 0);
    assert_eq!(ctx.state.root_hash(), root);
    assert_eq!(
        run(
            &mut ctx,
            StablecoinInstruction::InstantFiatBridge {
                amount: 0,
                target_bank_id: [0u8; 16],
                mpc_sig: Vec::new()
            }
        ),
        Ok(())
    );
    assert_eq!(ctx.state.accounts.len(), 1);
    assert_ne!(ctx.state.root_hash(), root);
}

#[test]
fn register_asset_gives_a_new_ticker_a_zero_price() {
    let mut ctx = context(GlobalState::default());
    let register = |ticker: &str, decimals| StablecoinInstruction::RegisterAsset {
        ticker: ticker.to_string(),
        decimals,
    };
    assert_eq!(run(&mut ctx, register("", 8)), Err(ExecError::InvalidArgument));
    assert_eq!(run(&mut ctx, register("ABCDEFGHIJKLMNOPQ", 8)), Err(ExecError::InvalidArgument));
    assert_eq!(run(&mut ctx, register("BTC", 19)), Err(ExecError::InvalidArgument));
    assert_eq!(run(&mut ctx, register("ABCDEFGHIJKLMNOP", 18)), Ok(()));
    assert_eq!(run(&mut ctx, register("BTC", 0)), Ok(()));
    assert_eq!(ctx.state.oracle_prices.get(&"BTC".to_string()), Some(0));
    let update = StablecoinInstruction::UpdateOracle {
        asset: "BTC".to_string(),
        price: 9,
        timestamp: 0,
        signature: Vec::new(),
    };
    assert_eq!(run(&mut ctx, update), Ok(()));
    assert_eq!(run(&mut ctx, register("BTC", 0)), Ok(()));
    assert_eq!(ctx.state.oracle_prices.get(&"BTC".to_string()), Some(9));
    assert_eq!(ctx.state.oracle_prices.len(), 2);
    assert_eq!(ctx.state.reserve_ratio_bps, 10000);
}

#[test]
fn rebalance_moves_the_junior_excess_into_the_pool() {
    let mut ctx = context(GlobalState::default());
    ctx.state.total_ljun_supply = 500;
    assert_eq!(run(&mut ctx, StablecoinInstruction::RebalanceTranches), Ok(()));
    assert_eq!(ctx.state.last_rebalance_height, 0);
    assert_eq!(ctx.state.stabilization_pool_balance, 0);

    ctx.state.total_lusd_supply = 500;
    assert_eq!(run(&mut ctx, StablecoinInstruction::RebalanceTranches), Ok(()));
    assert_eq!(ctx.state.stabilization_pool_balance, 100);
    assert_eq!(ctx.state.last_rebalance_height, 10);
    assert_eq!(ctx.state.reserve_ratio_bps, 2000);

    let mut ctx = context(GlobalState::default());
    ctx.state.total_lusd_supply = 600;
    ctx.state.total_ljun_supply = 400;
    assert_eq!(run(&mut ctx, StablecoinInstruction::RebalanceTranches), Ok(()));
    assert_eq!(ctx.state.stabilization_pool_balance, 0);
    assert_eq!(ctx.state.last_rebalance_height, 10);
}

#[test]
fn yield_is_split_eighty_fifteen_five() {
    let mut state = GlobalState::default();
    state.accounts.insert([3u8; 32], account(0, 300, 0));
    state.accounts.insert([2u8; 32], account(0, 100, 0));
    state.accounts.insert([4u8; 32], account(7, 0, 0));
    state.total_ljun_supply = 400;
    let mut ctx = context(state);
    assert_eq!(run(&mut ctx, StablecoinInstruction::DistributeYield { total_yield: 0 }), Ok(()));
    assert_eq!(ctx.state.total_ljun_supply, 400);
    assert_eq!(run(&mut ctx, StablecoinInstruction::DistributeYield { total_yield: 1019 }), Ok(()));
    assert_eq!(ctx.state.stabilization_pool_balance, 152);
    assert_eq!(ctx.state.insurance_fund_balance, 1019 - 815 - 152);
    assert_eq!(ctx.state.accounts.get(&[2u8; 32]).unwrap().ljun_balance, 100 + 203);
    assert_eq!(ctx.state.accounts.get(&[3u8; 32]).unwrap().ljun_balance, 300 + 611);
    assert_eq!(ctx.state.accounts.get(&[4u8; 32]).unwrap().ljun_balance, 0);
    assert_eq!(ctx.state.total_ljun_supply, 400 + 815);

    let mut ctx = context(GlobalState::default());
    assert_eq!(run(&mut ctx, StablecoinInstruction::DistributeYield { total_yield: 100 }), Ok(()));
    assert_eq!(ctx.state.stabilization_pool_balance, 95);
    assert_eq!(ctx.state.insurance_fund_balance, 5);
    ctx.state.insurance_fund_balance = u64::MAX;
    assert_eq!(
        run(&mut ctx, StablecoinInstruction::DistributeYield { total_yield: 100 }),
        Err(ExecError::Overflow)
    );
    assert_eq!(ctx.state.stabilization_pool_balance, 95);
}

#[test]
fn the_stabilizer_tops_the_pool_up_from_insurance() {
    let mut ctx = context(GlobalState::default());
    ctx.state.total_lusd_supply = 1000;
    ctx.state.stabilization_pool_balance = 900;
    ctx.state.insurance_fund_balance = 30;
    assert_eq!(run(&mut ctx, StablecoinInstruction::TriggerStabilizer), Ok(()));
    assert_eq!(ctx.state.stabilization_pool_balance, 930);
    assert_eq!(ctx.state.insurance_fund_balance, 0);
    assert_eq!(ctx.state.reserve_ratio_bps, 9300);
    ctx.state.insurance_fund_balance = 500;
    assert_eq!(run(&mut ctx, StablecoinInstruction::TriggerStabilizer), Ok(()));
    assert_eq!(ctx.state.stabilization_pool_balance, 1000);
    assert_eq!(ctx.state.insurance_fund_balance, 430);
    assert_eq!(ctx.state.reserve_ratio_bps, 10000);
    assert_eq!(run(&mut ctx, StablecoinInstruction::TriggerStabilizer), Ok(()));
    assert_eq!(ctx.state.insurance_fund_balance, 430);
}

#[test]
fn gates_refuse_what_their_verifier_refuses() {
    let mut ctx = context(GlobalState::default());
    let confidential =
        StablecoinInstruction::ConfidentialTransfer { commitment: [7u8; 32], proof: Vec::new() };
    assert_eq!(apply_instruction(&confidential, &S, &mut ctx, &refused()), Err(ExecError::ProofInvalid));
    assert_eq!(ctx.state.accounts.len(), 0);
    assert_eq!(run(&mut ctx, confidential), Ok(()));
    assert_eq!(ctx.state.accounts.get(&S).unwrap().commitment, Some([7u8; 32]));
    let checks = vec![
        StablecoinInstruction::ProveCompliance { tx_hash: [0u8; 32], proof: Vec::new() },
        StablecoinInstruction::ZkTaxAttest { period: 1, proof: Vec::new() },
        StablecoinInstruction::MultiJurisdictionalCheck { jurisdiction_id: 1, proof: Vec::new() },
    ];
    for check in checks {
        assert_eq!(apply_instruction(&check, &S, &mut ctx, &refused()), Err(ExecError::ProofInvalid));
        assert_eq!(execute_si(&check, &S, &mut ctx), Ok(()));
    }
    let claim = StablecoinInstruction::ClaimInsurance { loss_proof: vec![1], claimed_amount: 1 };
    assert_eq!(run(&mut ctx, claim), Err(ExecError::ProofInvalid));
    let green = StablecoinInstruction::RegisterGreenValidator { energy_proof: vec![1] };
    assert_eq!(run(&mut ctx, green), Err(ExecError::ProofInvalid));
    let list = StablecoinInstruction::ListRWA {
        asset_description: "x".to_string(),
        attested_value: 1,
        attestation_proof: vec![1],
        maturity_date: None,
        collateral_eligibility: true,
    };
    assert_eq!(run(&mut ctx, list), Err(ExecError::ProofInvalid));
}

#[test]
fn reserve_proofs_must_come_in_order_and_only_once() {
    let mut ctx = context(GlobalState::default());
    ctx.state.total_lusd_supply = 100;
    let por = |total_reserves, timestamp| StablecoinInstruction::SubmitZkPoR {
        proof: vec![1],
        total_reserves,
        timestamp,
    };
    assert_eq!(
        apply_instruction(&por(5, 0), &S, &mut ctx, &tagged([1u8; 32])),
        Err(ExecError::InvalidArgument)
    );
    assert_eq!(
        apply_instruction(&por(5, 1), &S, &mut ctx, &refused()),
        Err(ExecError::ProofInvalid)
    );
    assert_eq!(apply_instruction(&por(90, 5), &S, &mut ctx, &tagged([1u8; 32])), Ok(()));
    assert_eq!(ctx.state.stabilization_pool_balance, 90);
    assert_eq!(ctx.state.last_por_timestamp, 5);
    assert_eq!(ctx.state.last_por_hash, Some([1u8; 32]));
    assert_eq!(ctx.state.reserve_ratio_bps, 9000);
    assert_eq!(
        apply_instruction(&por(90, 5), &S, &mut ctx, &tagged([2u8; 32])),
        Err(ExecError::InvalidArgument)
    );
    assert_eq!(
        apply_instruction(&por(90, 6), &S, &mut ctx, &tagged([1u8; 32])),
        Err(ExecError::Replay)
    );
    assert_eq!(apply_instruction(&por(80, 6), &S, &mut ctx, &tagged([2u8; 32])), Ok(()));
    assert_eq!(ctx.state.reserve_ratio_bps, 8000);
    assert!(ctx.state.circuit_breaker_active);
}

#[test]
fn the_fiat_bridge_burns_without_a_floor_on_the_amount() {
    let mut state = with_sender(10, 0, 0);
    state.total_lusd_supply = 8;
    state.stabilization_pool_balance = 3;
    let mut ctx = context(state);
    let bridge = |amount| StablecoinInstruction::InstantFiatBridge {
        amount,
        target_bank_id: [0u8; 16],
        mpc_sig: Vec::new(),
    };
    assert_eq!(run(&mut ctx, bridge(11)), Err(ExecError::InsufficientBalance { asset: BalanceKind::Lusd }));
    assert_eq!(run(&mut ctx, bridge(9)), Err(ExecError::Underflow));
    assert_eq!(run(&mut ctx, bridge(5)), Ok(()));
    assert_eq!(ctx.state.accounts.get(&S).unwrap().lusd_balance, 5);
    assert_eq!(ctx.state.total_lusd_supply, 3);
    assert_eq!(ctx.state.stabilization_pool_balance, 0);
}

#[test]
fn a_batch_is_matched_once() {
    let mut ctx = context(GlobalState::default());
    let batch = |orders| StablecoinInstruction::ZeroSlipBatchMatch { orders };
    assert_eq!(run(&mut ctx, batch(Vec::new())), Err(ExecError::InvalidArgument));
    let many: Vec<[u8; 32]> = (0..1001u32)
        .map(|i| {
            let mut o = [0u8; 32];
            o[..4].copy_from_slice(&i.to_le_bytes());
            o
        })
        .collect();
    assert_eq!(run(&mut ctx, batch(many.clone())), Err(ExecError::InvalidArgument));
    assert_eq!(run(&mut ctx, batch(many[..1000].to_vec())), Ok(()));
    let mut preimage = Vec::new();
    preimage.extend_from_slice(&[1u8; 32]);
    preimage.extend_from_slice(&[2u8; 32]);
    assert_eq!(run(&mut ctx, batch(vec![[1u8; 32], [2u8; 32]])), Ok(()));
    assert_eq!(ctx.state.executed_batch_matches[1], *blake3::hash(&preimage).as_bytes());
    assert_eq!(run(&mut ctx, batch(vec![[2u8; 32], [1u8; 32]])), Ok(()));
    assert_eq!(run(&mut ctx, batch(vec![[1u8; 32], [2u8; 32]])), Err(ExecError::Replay));
    assert_eq!(run(&mut ctx, batch(vec![[1u8; 32], [2u8; 32], [1u8; 32]])), Err(ExecError::InvalidArgument));
    assert_eq!(ctx.state.executed_batch_matches.len(), 3);
}

#[test]
fn the_hedge_moves_insurance_up_to_the_target() {
    let mut ctx = context(GlobalState::default());
    ctx.state.total_lusd_supply = 1001;
    ctx.state.stabilization_pool_balance = 100;
    ctx.state.insurance_fund_balance = 1000;
    assert_eq!(
        run(&mut ctx, StablecoinInstruction::DynamicHedge { ratio_bps: 10001 }),
        Err(ExecError::InvalidArgument)
    );
    assert_eq!(run(&mut ctx, StablecoinInstruction::DynamicHedge { ratio_bps: 0 }), Ok(()));
    assert_eq!(ctx.state.stabilization_pool_balance, 100);
    ctx.state.circuit_breaker_active = false;
    assert_eq!(run(&mut ctx, StablecoinInstruction::DynamicHedge { ratio_bps: 5000 }), Ok(()));
    assert_eq!(ctx.state.stabilization_pool_balance, 500);
    assert_eq!(ctx.state.insurance_fund_balance, 600);
    ctx.state.insurance_fund_balance = 7;
    assert_eq!(run(&mut ctx, StablecoinInstruction::DynamicHedge { ratio_bps: 10000 }), Ok(()));
    assert_eq!(ctx.state.stabilization_pool_balance, 507);
    assert_eq!(ctx.state.insurance_fund_balance, 0);
    assert_eq!(run(&mut ctx, StablecoinInstruction::DynamicHedge { ratio_bps: 1 }), Ok(()));
    assert_eq!(ctx.state.stabilization_pool_balance, 507);
}

#[test]
fn zones_turn_the_custodian_list() {
    let mut ctx = context(GlobalState::default());
    assert_eq!(run(&mut ctx, StablecoinInstruction::GeoRebalance { zone_id: 0 }), Err(ExecError::InvalidArgument));
    assert_eq!(run(&mut ctx, StablecoinInstruction::GeoRebalance { zone_id: 3 }), Ok(()));
    for k in 1u8..=4 {
        ctx.state.custodians.push(custodian([k; 32]));
    }
    assert_eq!(run(&mut ctx, StablecoinInstruction::GeoRebalance { zone_id: 5 }), Ok(()));
    let order: Vec<u8> = ctx.state.custodians.iter().map(|c| c.pubkey[0]).collect();
    assert_eq!(order, vec![2, 3, 4, 1]);
    assert_eq!(run(&mut ctx, StablecoinInstruction::GeoRebalance { zone_id: 8 }), Ok(()));
    let order: Vec<u8> = ctx.state.custodians.iter().map(|c| c.pubkey[0]).collect();
    assert_eq!(order, vec![2, 3, 4, 1]);
    assert_eq!(run(&mut ctx, StablecoinInstruction::GeoRebalance { zone_id: 3 }), Ok(()));
    let order: Vec<u8> = ctx.state.custodians.iter().map(|c| c.pubkey[0]).collect();
    assert_eq!(order, vec![1, 2, 3, 4]);
}

#[test]
fn velocity_rewards_grow_and_are_claimed() {
    let mut state = with_sender(0, 0, 5);
    state.total_lusd_supply = 3_000_000;
    let mut ctx = context(state);
    let incentive = |multiplier_bps| StablecoinInstruction::VelocityIncentive { multiplier_bps };
    assert_eq!(run(&mut ctx, incentive(0)), Err(ExecError::InvalidArgument));
    assert_eq!(run(&mut ctx, incentive(5001)), Err(ExecError::InvalidArgument));
    assert_eq!(run(&mut ctx, incentive(5000)), Ok(()));
    assert_eq!(ctx.state.velocity_reward_pool, 15000);
    assert_eq!(run(&mut ctx, incentive(1)), Ok(()));
    assert_eq!(ctx.state.velocity_reward_pool, 15003);

    let claim = |epoch, tx_volume| StablecoinInstruction::ClaimVelocityReward { epoch, tx_volume };
    assert_eq!(run(&mut ctx, claim(0, 1)), Err(ExecError::Replay));
    assert_eq!(run(&mut ctx, claim(1, 0)), Err(ExecError::InvalidArgument));
    assert_eq!(run(&mut ctx, claim(1, 1)), Err(ExecError::InvalidArgument));
    let mut a = account(0, 0, 5);
    a.epoch_tx_volume = 2_500;
    ctx.state.accounts.insert(S, a);
    assert_eq!(run(&mut ctx, claim(1, 999)), Ok(()));
    assert_eq!(ctx.state.accounts.get(&S).unwrap().last_reward_epoch, 0);
    assert_eq!(run(&mut ctx, claim(3, 2_500)), Ok(()));
    let a = ctx.state.accounts.get(&S).unwrap();
    assert_eq!((a.lumina_balance, a.last_reward_epoch, a.epoch_tx_volume), (7, 3, 0));
    assert_eq!(ctx.state.velocity_reward_pool, 15001);
    assert_eq!(run(&mut ctx, claim(3, 1)), Err(ExecError::Replay));
}

#[test]
fn a_stream_escrows_rate_times_duration() {
    let mut ctx = context(with_sender(100, 0, 0));
    let stream = |amount_per_sec, duration| StablecoinInstruction::StreamPayment {
        to: [2u8; 32],
        amount_per_sec,
        duration,
    };
    assert_eq!(run(&mut ctx, stream(0, 1)), Err(ExecError::InvalidArgument));
    assert_eq!(run(&mut ctx, stream(1, 0)), Err(ExecError::InvalidArgument));
    assert_eq!(run(&mut ctx, stream(u64::MAX, 2)), Err(ExecError::Overflow));
    assert_eq!(run(&mut ctx, stream(51, 2)), Err(ExecError::InsufficientBalance { asset: BalanceKind::Lusd }));
    assert_eq!(run(&mut ctx, stream(7, 6)), Ok(()));
    let a = ctx.state.accounts.get(&S).unwrap();
    assert_eq!(a.lusd_balance, 58);
    assert_eq!(a.active_streams.len(), 1);
    let s = a.active_streams[0];
    assert_eq!(
        (s.recipient, s.amount_per_sec, s.start_timestamp, s.end_timestamp, s.withdrawn),
        ([2u8; 32], 7, 1000, 1006, 0)
    );
}

#[test]
fn validators_register_vote_and_turn_green() {
    let mut ctx = context(with_sender(0, 0, 50));
    let register = |stake| StablecoinInstruction::RegisterValidator { pubkey: S, stake };
    assert_eq!(run(&mut ctx, register(0)), Err(ExecError::InvalidArgument));
    assert_eq!(run(&mut ctx, register(51)), Err(ExecError::InsufficientBalance { asset: BalanceKind::Lumina }));
    let vote = StablecoinInstruction::Vote { proposal_id: 1, approve: true };
    assert_eq!(execute_si(&vote, &S, &mut ctx), Err(ExecError::NotFound));
    let green = StablecoinInstruction::RegisterGreenValidator { energy_proof: vec![4] };
    assert_eq!(apply_instruction(&green, &S, &mut ctx, &accepted()), Err(ExecError::NotFound));

    ctx.state.validators.push(validator([9u8; 32], false));
    assert_eq!(run(&mut ctx, register(20)), Ok(()));
    assert_eq!(run(&mut ctx, register(30)), Ok(()));
    assert_eq!(ctx.state.accounts.get(&S).unwrap().lumina_balance, 0);
    assert_eq!(ctx.state.validators.len(), 3);
    assert_eq!(execute_si(&vote, &S, &mut ctx), Ok(()));

    assert_eq!(apply_instruction(&green, &S, &mut ctx, &accepted()), Ok(()));
    let v = &ctx.state.validators[1];
    assert_eq!((v.stake, v.power, v.is_green), (20, 40, true));
    assert_eq!(v.energy_proof, Some(vec![4]));
    assert!(!ctx.state.validators[2].is_green);
    assert_eq!(ctx.state.validators[2].power, 30);
}

#[test]
fn passkey_accounts_need_a_key_and_two_to_ten_guardians() {
    let mut ctx = context(GlobalState::default());
    let create = |device_key, n: usize| StablecoinInstruction::CreatePasskeyAccount {
        device_key,
        guardians: vec![[3u8; 32]; n],
    };
    assert_eq!(run(&mut ctx, create(Vec::new(), 2)), Err(ExecError::InvalidArgument));
    assert_eq!(run(&mut ctx, create(vec![0, 0, 0], 2)), Err(ExecError::InvalidArgument));
    assert_eq!(run(&mut ctx, create(vec![0, 1], 1)), Err(ExecError::InvalidArgument));
    assert_eq!(run(&mut ctx, create(vec![0, 1], 11)), Err(ExecError::InvalidArgument));
    assert_eq!(run(&mut ctx, create(vec![0, 1], 10)), Ok(()));
    assert_eq!(run(&mut ctx, create(vec![2], 2)), Ok(()));
    let a = ctx.state.accounts.get(&S).unwrap();
    assert_eq!(a.passkey_device_key, Some(vec![2]));
    assert_eq!(a.guardians.len(), 2);

    let recover = StablecoinInstruction::RecoverSocial {
        new_device_key: vec![9],
        guardian_signatures: vec![vec![1], vec![2]],
    };
    let two = Evidence { proof_ok: true, digest: [0u8; 32], approvals: 2 };
    let one = Evidence { proof_ok: true, digest: [0u8; 32], approvals: 1 };
    assert_eq!(apply_instruction(&recover, &S, &mut ctx, &one), Err(ExecError::ThresholdNotMet));
    assert_eq!(apply_instruction(&recover, &[8u8; 32], &mut ctx, &two), Err(ExecError::NotFound));
    assert_eq!(apply_instruction(&recover, &S, &mut ctx, &two), Ok(()));
    assert_eq!(ctx.state.accounts.get(&S).unwrap().passkey_device_key, Some(vec![9]));
    let short = StablecoinInstruction::RecoverSocial {
        new_device_key: vec![9],
        guardian_signatures: vec![vec![1]],
    };
    assert_eq!(apply_instruction(&short, &S, &mut ctx, &two), Err(ExecError::ThresholdNotMet));

    assert_eq!(
        run(&mut ctx, StablecoinInstruction::SwitchToPQSignature { new_pq_pubkey: Vec::new() }),
        Err(ExecError::InvalidArgument)
    );
    assert_eq!(
        run(&mut ctx, StablecoinInstruction::SwitchToPQSignature { new_pq_pubkey: vec![5] }),
        Ok(())
    );
    assert_eq!(ctx.state.accounts.get(&S).unwrap().pq_pubkey, Some(vec![5]));
    assert_eq!(
        run(
            &mut ctx,
            StablecoinInstruction::UploadComplianceCircuit { circuit_id: 4, verifier_key: Vec::new() }
        ),
        Err(ExecError::InvalidArgument)
    );
    for key in [vec![1u8], vec![2u8, 3]] {
        assert_eq!(
            run(
                &mut ctx,
                StablecoinInstruction::UploadComplianceCircuit { circuit_id: 4, verifier_key: key }
            ),
            Ok(())
        );
    }
    assert_eq!(ctx.state.compliance_circuits.get(&4), Some(&vec![2u8, 3]));
    assert_eq!(ctx.state.compliance_circuits.len(), 1);
}

#[test]
fn custodians_register_and_reserves_rotate_rarely() {
    let mut ctx = context(with_sender(0, 10, 0));
    let register = |stake, n: usize| StablecoinInstruction::RegisterCustodian {
        stake,
        mpc_pubkeys: vec![[4u8; 32]; n],
    };
    assert_eq!(run(&mut ctx, register(0, 1)), Err(ExecError::InvalidArgument));
    assert_eq!(run(&mut ctx, register(1, 0)), Err(ExecError::InvalidArgument));
    assert_eq!(run(&mut ctx, register(1, 8)), Err(ExecError::InvalidArgument));
    assert_eq!(run(&mut ctx, register(11, 7)), Err(ExecError::InsufficientBalance { asset: BalanceKind::Ljun }));
    assert_eq!(run(&mut ctx, register(4, 7)), Ok(()));
    assert_eq!(run(&mut ctx, register(6, 1)), Ok(()));
    assert_eq!(ctx.state.custodians.len(), 2);
    assert_eq!(ctx.state.custodians[0].pubkey, S);
    assert_eq!(ctx.state.custodians[0].registered_height, 10);
    assert_eq!(ctx.state.accounts.get(&S).unwrap().ljun_balance, 0);

    let rotate = |set| StablecoinInstruction::RotateReserves { new_custodian_set: set };
    assert_eq!(run(&mut ctx, rotate(Vec::new())), Err(ExecError::InvalidArgument));
    assert_eq!(run(&mut ctx, rotate(vec![S])), Err(ExecError::RateLimited));
    ctx.height = 259_199;
    ctx.state.last_reserve_rotation_height = 0;
    assert_eq!(run(&mut ctx, rotate(vec![S])), Err(ExecError::RateLimited));
    ctx.height = 259_200;
    assert_eq!(run(&mut ctx, rotate(vec![S, [9u8; 32]])), Err(ExecError::NotFound));
    assert_eq!(ctx.state.last_reserve_rotation_height, 0);
    assert_eq!(run(&mut ctx, rotate(vec![S, S])), Ok(()));
    assert_eq!(ctx.state.last_reserve_rotation_height, 259_200);
    assert_eq!(run(&mut ctx, rotate(vec![S])), Err(ExecError::RateLimited));
}

#[test]
fn insurance_claims_issue_new_senior_tokens() {
    let mut ctx = context(GlobalState::default());
    ctx.state.insurance_fund_balance = 100;
    ctx.state.total_lusd_supply = 1000;
    ctx.state.stabilization_pool_balance = 1000;
    let claim = |claimed_amount| StablecoinInstruction::ClaimInsurance {
        loss_proof: Vec::new(),
        claimed_amount,
    };
    assert_eq!(apply_instruction(&claim(1), &S, &mut ctx, &refused()), Err(ExecError::ProofInvalid));
    assert_eq!(
        apply_instruction(&claim(101), &S, &mut ctx, &accepted()),
        Err(ExecError::InsufficientBalance { asset: BalanceKind::Insurance })
    );
    assert_eq!(apply_instruction(&claim(100), &S, &mut ctx, &accepted()), Ok(()));
    assert_eq!(ctx.state.insurance_fund_balance, 0);
    assert_eq!(ctx.state.accounts.get(&S).unwrap().lusd_balance, 100);
    assert_eq!(ctx.state.total_lusd_supply, 1100);
    assert_eq!(ctx.state.reserve_ratio_bps, 9090);
}

#[test]
fn flash_mints_need_collateral_and_are_burned_whole() {
    let mut ctx = context(GlobalState::default());
    let mint = |amount, collateral_amount| StablecoinInstruction::FlashMint {
        amount,
        collateral_asset: AssetType::Lumina,
        collateral_amount,
        commitment: [0u8; 32],
    };
    assert_eq!(run(&mut ctx, mint(0, 1)), Err(ExecError::InvalidArgument));
    assert_eq!(run(&mut ctx, mint(1, 0)), Err(ExecError::InvalidArgument));
    assert_eq!(run(&mut ctx, mint(1000, 1099)), Err(ExecError::InvalidArgument));
    assert_eq!(run(&mut ctx, mint(1000, 1100)), Ok(()));
    assert_eq!(run(&mut ctx, mint(9, 9)), Ok(()));
    let a = ctx.state.accounts.get(&S).unwrap();
    assert_eq!((a.lusd_balance, a.pending_flash_mint, a.pending_flash_collateral), (1009, 1009, 1109));
    assert_eq!(ctx.state.pending_flash_mints, 1009);
    assert_eq!(ctx.state.total_lusd_supply, 1009);
    assert_eq!(ctx.state.stabilization_pool_balance, 1109);
    assert_eq!(ctx.state.reserve_ratio_bps, 0);

    let burn = |amount| StablecoinInstruction::FlashBurn { amount };
    assert_eq!(run(&mut ctx, burn(0)), Err(ExecError::InvalidArgument));
    assert_eq!(run(&mut ctx, burn(1000)), Err(ExecError::InvalidArgument));
    assert_eq!(execute_si(&burn(1), &[5u8; 32], &mut ctx), Err(ExecError::InvalidArgument));
    let mut spent = ctx.state.accounts.get(&S).unwrap().clone();
    spent.lusd_balance = 1008;
    ctx.state.accounts.insert(S, spent.clone());
    assert_eq!(run(&mut ctx, burn(1009)), Err(ExecError::InsufficientBalance { asset: BalanceKind::Lusd }));
    spent.lusd_balance = 1010;
    ctx.state.accounts.insert(S, spent);
    assert_eq!(run(&mut ctx, burn(1009)), Ok(()));
    let a = ctx.state.accounts.get(&S).unwrap();
    assert_eq!((a.lusd_balance, a.pending_flash_mint, a.pending_flash_collateral), (1, 0, 0));
    assert_eq!(ctx.state.pending_flash_mints, 0);
    assert_eq!(ctx.state.total_lusd_supply, 0);
    assert_eq!(ctx.state.stabilization_pool_balance, 0);

    assert_eq!(run(&mut ctx, mint(u64::MAX, u64::MAX)), Err(ExecError::Overflow));
    assert_eq!(ctx.state.stabilization_pool_balance, 0);
}

#[test]
fn end_block_clears_the_pending_total_only() {
    let mut ctx = context(GlobalState::default());
    let mint = StablecoinInstruction::FlashMint {
        amount: 10,
        collateral_asset: AssetType::LUSD,
        collateral_amount: 11,
        commitment: [0u8; 32],
    };
    assert_eq!(run(&mut ctx, mint), Ok(()));
    end_block(&mut ctx);
    assert_eq!(ctx.state.pending_flash_mints, 0);
    assert_eq!(ctx.state.accounts.get(&S).unwrap().pending_flash_mint, 10);
    assert_eq!(ctx.state.health_index, 0 + 2500 + 1500 + 0 + 500 + 0);
    assert_eq!((ctx.height, ctx.timestamp), (10, 1000));
}

#[test]
fn the_score_sets_the_collateral_that_a_credit_mint_needs() {
    assert_eq!(derive_credit_score(&[0u8; 32]), 300);
    let mut tag = [0u8; 32];
    tag[0] = 0x26;
    tag[1] = 0x02;
    assert_eq!(derive_credit_score(&tag), 850);
    tag[0] = 0x27;
    assert_eq!(derive_credit_score(&tag), 300);
    tag[0] = 0xF4;
    tag[1] = 0x01;
    assert_eq!(derive_credit_score(&tag), 800);
    let mut fair = [0u8; 32];
    fair[0] = 0xC2;
    fair[1] = 0x01;
    assert_eq!(derive_credit_score(&fair), 750);

    let oracle = [7u8; 32];
    let mint = |collateral_amount, min_score_threshold| StablecoinInstruction::MintWithCreditScore {
        amount: 10000,
        collateral_amount,
        credit_score_proof: vec![1],
        min_score_threshold,
        oracle,
    };
    let mut ctx = context(GlobalState::default());
    assert_eq!(
        apply_instruction(&mint(20000, 0), &S, &mut ctx, &tagged(tag)),
        Err(ExecError::InvalidArgument)
    );
    ctx.state.trusted_credit_oracles.push(oracle);
    assert_eq!(
        apply_instruction(&mint(20000, 801), &S, &mut ctx, &tagged(tag)),
        Err(ExecError::InvalidArgument)
    );
    let unverified = Evidence { proof_ok: false, digest: tag, approvals: 0 };
    assert_eq!(
        apply_instruction(&mint(20000, 0), &S, &mut ctx, &unverified),
        Err(ExecError::InvalidArgument)
    );
    assert_eq!(
        apply_instruction(&mint(10199, 800), &S, &mut ctx, &tagged(tag)),
        Err(ExecError::InvalidArgument)
    );
    assert!(ctx.state.used_credit_proofs.is_empty());
    assert_eq!(apply_instruction(&mint(10200, 800), &S, &mut ctx, &tagged(tag)), Ok(()));
    assert_eq!(ctx.state.used_credit_proofs, vec![tag]);
    let a = ctx.state.accounts.get(&S).unwrap();
    assert_eq!((a.lusd_balance, a.credit_score), (10000, 800));
    assert_eq!(ctx.state.insurance_fund_balance, 0);
    assert_eq!(ctx.state.stabilization_pool_balance, 10200);
    assert_eq!(ctx.state.reserve_ratio_bps, 10200);

    assert_eq!(
        apply_instruction(&mint(10499, 0), &S, &mut ctx, &tagged(fair)),
        Err(ExecError::InvalidArgument)
    );
    assert_eq!(apply_instruction(&mint(10500, 0), &S, &mut ctx, &tagged(fair)), Ok(()));
    assert_eq!(
        apply_instruction(&mint(10999, 0), &S, &mut ctx, &tagged([0u8; 32])),
        Err(ExecError::InvalidArgument)
    );
    assert_eq!(apply_instruction(&mint(11000, 0), &S, &mut ctx, &tagged([0u8; 32])), Ok(()));
    assert_eq!(ctx.state.accounts.get(&S).unwrap().credit_score, 300);
    let zero = StablecoinInstruction::MintWithCreditScore {
        amount: 0,
        collateral_amount: 1,
        credit_score_proof: vec![1],
        min_score_threshold: 0,
        oracle,
    };
    assert_eq!(apply_instruction(&zero, &S, &mut ctx, &tagged(tag)), Err(ExecError::InvalidArgument));
}

#[test]
fn yield_tokens_mature_and_pay_five_percent_a_year() {
    let mut state = with_sender(1_000_000, 0, 0);
    state.next_yield_token_id = 7;
    let mut ctx = context(state);
    let wrap = |amount, maturity_blocks| StablecoinInstruction::WrapToYieldToken {
        amount,
        maturity_blocks,
    };
    assert_eq!(run(&mut ctx, wrap(0, 1)), Err(ExecError::InvalidArgument));
    assert_eq!(run(&mut ctx, wrap(1, 0)), Err(ExecError::InvalidArgument));
    assert_eq!(run(&mut ctx, wrap(1_000_001, 1)), Err(ExecError::InsufficientBalance { asset: BalanceKind::Lusd }));
    assert_eq!(run(&mut ctx, wrap(1_000_000, 5)), Ok(()));
    assert_eq!(ctx.state.next_yield_token_id, 8);
    let p = ctx.state.accounts.get(&S).unwrap().yield_positions[0];
    assert_eq!((p.token_id, p.principal, p.issued_height, p.maturity_height), (7, 1_000_000, 10, 15));

    let unwrap = |token_id| StablecoinInstruction::UnwrapYieldToken { token_id };
    assert_eq!(run(&mut ctx, unwrap(8)), Err(ExecError::NotFound));
    ctx.height = 14;
    assert_eq!(run(&mut ctx, unwrap(7)), Err(ExecError::InvalidArgument));
    ctx.height = 10 + 3_153_600;
    assert_eq!(run(&mut ctx, unwrap(7)), Ok(()));
    assert_eq!(ctx.state.accounts.get(&S).unwrap().lusd_balance, 1_045_000);
    assert_eq!(ctx.state.insurance_fund_balance, 5_000);
    assert_eq!(ctx.state.total_lusd_supply, 50_000);
    assert!(ctx.state.accounts.get(&S).unwrap().yield_positions.is_empty());

    ctx.state.next_yield_token_id = u64::MAX;
    assert_eq!(run(&mut ctx, wrap(1, 1)), Err(ExecError::Overflow));
    assert_eq!(ctx.state.accounts.get(&S).unwrap().lusd_balance, 1_045_000);
}

#[test]
fn pledges_stay_under_the_attested_value() {
    let mut ctx = context(GlobalState::default());
    let list = |description: &str, attested_value, eligible| StablecoinInstruction::ListRWA {
        asset_description: description.to_string(),
        attested_value,
        attestation_proof: vec![1],
        maturity_date: None,
        collateral_eligibility: eligible,
    };
    assert_eq!(
        apply_instruction(&list("", 1, true), &S, &mut ctx, &accepted()),
        Err(ExecError::InvalidArgument)
    );
    assert_eq!(
        apply_instruction(&list("a", 0, true), &S, &mut ctx, &accepted()),
        Err(ExecError::InvalidArgument)
    );
    assert_eq!(apply_instruction(&list("a", 100, true), &S, &mut ctx, &accepted()), Ok(()));
    assert_eq!(apply_instruction(&list("b", 100, false), &S, &mut ctx, &accepted()), Ok(()));
    assert_eq!(ctx.state.next_rwa_id, 2);
    let first: &RWAListing = ctx.state.rwa_listings.get(&0).unwrap();
    assert_eq!(first.owner, S);
    assert!(first.is_active);
    assert_eq!(first.pledged_amount, 0);

    let pledge = |rwa_id, amount_to_pledge| StablecoinInstruction::UseRWAAsCollateral {
        rwa_id,
        amount_to_pledge,
    };
    assert_eq!(run(&mut ctx, pledge(0, 0)), Err(ExecError::InvalidArgument));
    assert_eq!(run(&mut ctx, pledge(2, 1)), Err(ExecError::NotFound));
    assert_eq!(run(&mut ctx, pledge(1, 1)), Err(ExecError::InvalidArgument));
    assert_eq!(run(&mut ctx, pledge(0, 101)), Err(ExecError::InvalidArgument));
    assert_eq!(run(&mut ctx, pledge(0, 60)), Ok(()));
    assert_eq!(run(&mut ctx, pledge(0, 41)), Err(ExecError::InvalidArgument));
    assert_eq!(run(&mut ctx, pledge(0, 40)), Ok(()));
    assert_eq!(ctx.state.rwa_listings.get(&0).unwrap().pledged_amount, 100);
    assert_eq!(ctx.state.accounts.get(&S).unwrap().lusd_balance, 100);
    assert_eq!(ctx.state.total_lusd_supply, 100);
    assert_eq!(ctx.state.stabilization_pool_balance, 100);
    ctx.state.next_rwa_id = u64::MAX;
    assert_eq!(
        apply_instruction(&list("c", 1, true), &S, &mut ctx, &accepted()),
        Err(ExecError::Overflow)
    );
}

#[test]
fn the_health_index_adds_six_capped_parts() {
    let mut state = GlobalState::default();
    state.reserve_ratio_bps = 30000;
    compute_health_index(&mut state);
    assert_eq!(state.health_index, 3000 + 2500 + 1500 + 1500 + 500 + 0);

    state.reserve_ratio_bps = 12345;
    state.oracle_prices.insert("LUSD-USD".to_string(), 1_050_000);
    state.circuit_breaker_active = true;
    state.total_lusd_supply = 1000;
    state.insurance_fund_balance = 49;
    state.validators = vec![validator([1u8; 32], true), validator([2u8; 32], false), validator([3u8; 32], true)];
    for k in 0u8..11 {
        state.custodians.push(custodian([k; 32]));
    }
    compute_health_index(&mut state);
    assert_eq!(state.health_index, 1851 + 1500 + 0 + 1470 + 666 + 500);

    state.oracle_prices.insert("LUSD-USD".to_string(), 950_001);
    state.insurance_fund_balance = 50;
    state.custodians.truncate(3);
    compute_health_index(&mut state);
    assert_eq!(state.health_index, 1851 + 2500 + 0 + 1500 + 666 + 150);

    state.oracle_prices.insert("LUSD-USD".to_string(), 900_000);
    compute_health_index(&mut state);
    assert_eq!(state.health_index, 1851 + 500 + 0 + 1500 + 666 + 150);
    state.oracle_prices.insert("LUSD-USD".to_string(), u64::MAX);
    state.reserve_ratio_bps = u64::MAX;
    state.circuit_breaker_active = false;
    state.validators = vec![validator([1u8; 32], true)];
    for k in 0u8..9 {
        state.custodians.push(custodian([k; 32]));
    }
    compute_health_index(&mut state);
    assert_eq!(state.health_index, 3000 + 500 + 1500 + 1500 + 1000 + 500);
    state.oracle_prices.insert("LUSD-USD".to_string(), 1_000_000);
    compute_health_index(&mut state);
    assert_eq!(state.health_index, 10000);
}

#[test]
fn the_account_table_keeps_addresses_in_ascending_order() {
    let mut table = AccountMap::new();
    let mut high = [0u8; 32];
    high[31] = 2;
    let mut mid = [0u8; 32];
    mid[31] = 1;
    table.insert([1u8; 32], account(1, 0, 0));
    table.insert(high, account(2, 0, 0));
    table.insert([0u8; 32], account(3, 0, 0));
    table.insert(mid, account(4, 0, 0));
    table.insert(high, account(5, 0, 0));
    assert_eq!(table.len(), 4);
    let order: Vec<[u8; 32]> = (0..4).map(|i| table.address_at(i)).collect();
    assert_eq!(order, vec![[0u8; 32], mid, high, [1u8; 32]]);
    assert_eq!(table.account_at(2).lusd_balance, 5);
    assert!(table.contains_key(&mid));
    assert!(!table.contains_key(&[2u8; 32]));
    assert_eq!(table.get_or_default(&[2u8; 32]).lusd_balance, 0);
    table.replace_at(0, account(9, 0, 0));
    assert_eq!(table.get(&[0u8; 32]).unwrap().lusd_balance, 9);
    table.insert(mid, account(0, 0, 0));

    assert_eq!(table.len(), 4);
    assert_eq!(table.get(&mid).unwrap().lusd_balance, 0);
    assert_eq!(table.clone().address_at(3), [1u8; 32]);

    let mut prices = TickerTable::new();
    prices.insert("A".to_string(), 1);
    prices.insert("B".to_string(), 2);
    prices.insert("A".to_string(), 3);
    assert_eq!(prices.len(), 2);
    assert_eq!(prices.get(&"A".to_string()), Some(3));
    assert_eq!(prices.get(&"C".to_string()), None);
    assert!(prices.contains_key(&"B".to_string()));
    assert_eq!(prices.clone().get(&"B".to_string()), Some(2));
}

#[test]
fn genesis_has_one_validator_and_three_prices() {
    let state = create_genesis_state();
    assert_eq!(state.accounts.len(), 1);
    assert_eq!(state.accounts.get(&[0u8; 32]).unwrap().lumina_balance, 1_000_000_000);
    assert_eq!(state.validators.len(), 1);
    assert_eq!((state.validators[0].stake, state.validators[0].power), (1_000_000, 1_000_000));
    assert_eq!(state.oracle_prices.get(&"ETH-USD".to_string()), Some(3_000_000_000));
    assert_eq!(state.oracle_prices.get(&"BTC-USD".to_string()), Some(90_000_000_000));
    assert_eq!(state.oracle_prices.get(&"LUSD-USD".to_string()), Some(1_000_000));
    assert_eq!(state.reserve_ratio_bps, 10000);
    assert_eq!(state.health_index, 10000);
    let copy = state.clone();
    assert_eq!(copy.root_hash(), state.root_hash());
    assert_eq!(copy.validators[0].pubkey, [0u8; 32]);

    let manager = OracleManager::new();
    assert!(manager.reporters.is_empty());
    assert!(!manager.is_reporter(&[0u8; 32]));
    assert_ne!(OracleRegime::Stable, OracleRegime::Stress);
}

#[test]
fn simulation_bootstraps_wallets_and_money() {
    let mut state = GlobalState::default();
    let wallets: Vec<[u8; 32]> = (1u8..=10).map(|k| [k; 32]).collect();
    seed_simulation_money(&mut state, &wallets, 1_000);

    assert_eq!(wallets.len(), 10);
    assert_eq!(state.accounts.len(), 10);
    assert_eq!(state.total_lusd_supply, 10_000);
    assert!(state.reserve_ratio_bps as f64 / 10000.0 >= 1.0);
    assert_eq!(state.stabilization_pool_balance, 12_500);
    assert_eq!(state.reserve_ratio_bps, 12_500);
    assert_eq!(state.accounts.get(&[3u8; 32]).unwrap().lusd_balance, 1_000);
}

#[test]
fn simulation_bootstraps_custom_assets() {
    let mut state = GlobalState::default();
    let wallets: Vec<[u8; 32]> = vec![[1u8; 32], [2u8; 32]];
    let assets = vec!["BTC".to_string(), "ETH".to_string()];
    seed_custom_assets(&mut state, &wallets, &assets, 42);

    let first = state.accounts.get(&wallets[0]).unwrap();
    assert_eq!(first.custom_balances.get(&"BTC".to_string()), Some(42));
    assert_eq!(first.custom_balances.get(&"ETH".to_string()), Some(42));
    assert_eq!(state.accounts.get(&wallets[1]).unwrap().custom_balances.len(), 2);
}
