use lumina_core::account::AccountState;
use lumina_core::execution::ExecutionContext;
use lumina_core::instruction::{AssetType, StablecoinInstruction};
use lumina_core::pipeline::{execute_transaction, execute_transactions_in_order};
use lumina_core::proofs::ZkManager;
use lumina_core::rules::{BalanceKind, ExecError};
use lumina_core::signatures::SigningKey;
use lumina_core::simulation::{build_signed_tx, build_transfer_tx, SimWallet};
use lumina_core::state::GlobalState;
use lumina_core::transaction::Transaction;

fn wallet(seed: u8) -> SimWallet {
    let keypair = SigningKey::from_bytes(&[seed; 32]);
    SimWallet { keypair, address: keypair.public_key }
}

fn context(state: GlobalState) -> ExecutionContext {
    ExecutionContext { state, height: 3, timestamp: 30, zk: ZkManager::new(Vec::new()) }
}

fn starting_state(a: &SimWallet, b: &SimWallet) -> GlobalState {
    let mut state = GlobalState::default();
    let mut rich = AccountState::default();
    rich.lusd_balance = 1000;
    rich.lumina_balance = 50;
    state.accounts.insert(a.address, rich);
    let mut poor = AccountState::default();
    poor.ljun_balance = 5;
    state.accounts.insert(b.address, poor);
    state.total_lusd_supply = 1000;
    state.total_ljun_supply = 5;
    state.stabilization_pool_balance = 900;
    state.reserve_ratio_bps = 9000;
    state
}

fn workload(a: &SimWallet, b: &SimWallet) -> Vec<Transaction> {
    vec![
        build_transfer_tx(a, b.address, 100, 0, AssetType::LUSD),
        build_signed_tx(b, 0, StablecoinInstruction::RedeemSenior { amount: 40 }, 10),
        build_signed_tx(a, 1, StablecoinInstruction::DistributeYield { total_yield: 77 }, 10),
        build_signed_tx(a, 2, StablecoinInstruction::RegisterValidator { pubkey: a.address, stake: 7 }, 10),
        build_signed_tx(b, 1, StablecoinInstruction::RunCircuitBreaker { active: false }, 10),
        build_signed_tx(b, 2, StablecoinInstruction::FairRedeemQueue { batch_size: 5 }, 10),
        build_signed_tx(a, 3, StablecoinInstruction::ComputeHealthIndex, 10),
    ]
}

#[test]
fn two_copies_of_a_state_reach_the_same_root() {
    let a = wallet(1);
    let b = wallet(2);
    let state = starting_state(&a, &b);
    let txs = workload(&a, &b);

    let mut first = context(state.clone());
    let mut second = context(state.clone());
    assert_eq!(execute_transactions_in_order(&txs, &mut first), Ok(()));
    for tx in &txs {
        assert_eq!(execute_transaction(tx, &mut second), Ok(()));
    }
    assert_eq!(first.state.root_hash(), second.state.root_hash());
    assert_ne!(first.state.root_hash(), state.root_hash());
    assert_eq!(first.state.total_lusd_supply, second.state.total_lusd_supply);
    assert_eq!(first.state.health_index, second.state.health_index);
    assert_eq!(first.state.total_lusd_supply, 960);
    assert_eq!(first.state.stabilization_pool_balance, 900 + 11 - 40);
    assert_eq!(first.state.fair_redeem_queue.len(), 0);
    assert_eq!(first.state.accounts.get(&b.address).unwrap().ljun_balance, 5 + 61);
}

#[test]
fn a_failing_transaction_leaves_the_state_as_it_was() {
    let a = wallet(1);
    let b = wallet(2);
    let c = wallet(3);
    let mut ctx = context(starting_state(&a, &b));
    let root = ctx.state.root_hash();

    let too_much = build_transfer_tx(&a, b.address, 1001, 0, AssetType::LUSD);
    assert_eq!(
        execute_transaction(&too_much, &mut ctx),
        Err(ExecError::InsufficientBalance { asset: BalanceKind::Lusd })
    );
    assert_eq!(ctx.state.root_hash(), root);
    assert_eq!(ctx.state.accounts.get(&a.address).unwrap().nonce, 0);

    let unknown_sender = build_transfer_tx(&c, b.address, 1, 0, AssetType::LUSD);
    assert_eq!(
        execute_transaction(&unknown_sender, &mut ctx),
        Err(ExecError::InsufficientBalance { asset: BalanceKind::Lusd })
    );
    assert!(ctx.state.accounts.get(&c.address).is_none());
    assert_eq!(ctx.state.accounts.len(), 2);
    assert_eq!(ctx.state.root_hash(), root);

    let early = build_transfer_tx(&a, b.address, 1, 1, AssetType::LUSD);
    assert_eq!(
        execute_transaction(&early, &mut ctx),
        Err(ExecError::NonceMismatch { expected: 0, got: 1 })
    );
    let mut forged = build_transfer_tx(&a, b.address, 1, 0, AssetType::LUSD);
    forged.nonce = 0;
    forged.gas_limit = 1;
    assert_eq!(execute_transaction(&forged, &mut ctx), Err(ExecError::CryptoInvalid));
    assert_eq!(ctx.state.root_hash(), root);

    let mut last = ctx.state.accounts.get(&a.address).unwrap().clone();
    last.nonce = u64::MAX;
    ctx.state.accounts.insert(a.address, last);
    let root = ctx.state.root_hash();
    let at_the_end = build_transfer_tx(&a, b.address, 1, u64::MAX, AssetType::LUSD);
    assert_eq!(execute_transaction(&at_the_end, &mut ctx), Err(ExecError::Overflow));
    assert_eq!(ctx.state.root_hash(), root);
}

#[test]
fn an_accepted_transaction_counts_the_nonce_once() {
    let a = wallet(1);
    let b = wallet(2);
    let mut ctx = context(starting_state(&a, &b));
    for nonce in 0..3u64 {
        let tx = build_transfer_tx(&a, b.address, 1, nonce, AssetType::LUSD);
        assert_eq!(execute_transaction(&tx, &mut ctx), Ok(()));
        assert_eq!(ctx.state.accounts.get(&a.address).unwrap().nonce, nonce + 1);
        assert_eq!(ctx.state.accounts.get(&b.address).unwrap().nonce, 0);
    }
    let replayed = build_transfer_tx(&a, b.address, 1, 2, AssetType::LUSD);
    assert_eq!(
        execute_transaction(&replayed, &mut ctx),
        Err(ExecError::NonceMismatch { expected: 3, got: 2 })
    );
    let fresh = wallet(9);
    let first = build_signed_tx(&fresh, 0, StablecoinInstruction::TriggerStabilizer, 1);
    assert_eq!(execute_transaction(&first, &mut ctx), Ok(()));
    assert_eq!(ctx.state.accounts.get(&fresh.address).unwrap().nonce, 1);
    assert_eq!(ctx.state.accounts.len(), 3);
}
