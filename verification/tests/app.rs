use ed25519_dalek::{Signer, SigningKey};
use lumina_core::account::AccountState;
use lumina_core::app::{
    AppError, BeginBlockRequest, DeliverTxRequest, EndBlockRequest, InitChainRequest, LuminaApp,
};
use lumina_core::genesis::create_genesis_state;
use lumina_core::instruction::{AssetType, StablecoinInstruction};
use lumina_core::proofs::ZkManager;
use lumina_core::rules::{BalanceKind, ExecError};
use lumina_core::state::GlobalState;
use lumina_core::store::Storage;
use lumina_core::transaction::Transaction;

fn sample_tx(seed: u8, nonce: u64) -> Transaction {
    let kp = SigningKey::from_bytes(&[seed; 32]);
    let mut tx = Transaction {
        sender: kp.verifying_key().to_bytes(),
        nonce,
        instruction: StablecoinInstruction::Transfer {
            to: [2u8; 32],
            amount: 1,
            asset: AssetType::LUSD,
        },
        signature: vec![0u8; 64],
        gas_limit: 1_000_000,
        gas_price: 1,
    };
    tx.signature = kp.sign(&tx.signing_bytes()).to_bytes().to_vec();
    tx
}

fn app() -> LuminaApp {
    LuminaApp::new(Storage::new(), ZkManager::new(Vec::new()))
}

fn begin(height: u64) -> BeginBlockRequest {
    BeginBlockRequest { height, proposer: [0u8; 32], timestamp: 1 }
}

#[test]
fn wal_recovery_restores_inflight_block() {
    let mut app = app();
    app.begin_block(begin(1)).unwrap();
    let tx = sample_tx(1, 0);
    app.deliver_tx(DeliverTxRequest { tx: vec![1, 2, 3] }, Some(tx.clone())).unwrap();
    let journal = app.wal_state();
    assert_eq!(journal.height, 0);
    assert_eq!(journal.current_block.unwrap().height, 1);
    assert_eq!(journal.pending_txs, vec![vec![1u8, 2, 3]]);

    let mut recovered = LuminaApp::new(Storage::new(), ZkManager::new(Vec::new()));
    recovered.recover_from_wal(journal, vec![tx.clone()]).unwrap();
    assert_eq!(recovered.height, 0);
    assert!(recovered.inflight.is_some());
    assert!(recovered.has_inflight());
    let block = recovered.inflight.as_ref().unwrap();
    assert_eq!(block.height, 1);
    assert_eq!(block.txs.len(), 1);
    assert_eq!(block.txs[0].tx, tx);
    assert_eq!(block.txs[0].bytes, vec![1u8, 2, 3]);
}

#[test]
fn a_journal_whose_transactions_do_not_match_is_refused() {
    let mut app = app();
    app.begin_block(begin(1)).unwrap();
    app.deliver_tx(DeliverTxRequest { tx: vec![1] }, Some(sample_tx(1, 0))).unwrap();
    let journal = app.wal_state();
    let mut fresh = LuminaApp::new(Storage::new(), ZkManager::new(Vec::new()));
    assert_eq!(fresh.recover_from_wal(journal, Vec::new()), Err(AppError::InvalidTxBytes));
    assert!(!fresh.has_inflight());
}

#[test]
fn a_block_must_begin_above_the_committed_height() {
    let mut app = app();
    app.init_chain(InitChainRequest { genesis_state: create_genesis_state(), initial_height: 4 });
    assert_eq!(app.height, 4);
    assert_eq!(app.begin_block(begin(4)), Err(AppError::NonMonotonicHeight));
    assert_eq!(app.begin_block(begin(3)), Err(AppError::NonMonotonicHeight));
    assert!(!app.has_inflight());
    assert_eq!(app.begin_block(begin(5)), Ok(()));
    assert!(app.has_inflight());
    assert_eq!(app.storage.load_state_by_height(4).unwrap().health_index, 10000);
    assert_eq!(app.storage.load_state().validators.len(), 1);
}

#[test]
fn requests_outside_a_block_are_refused() {
    let mut app = app();
    assert_eq!(
        app.deliver_tx(DeliverTxRequest { tx: vec![1] }, Some(sample_tx(1, 0))),
        Err(AppError::NoBlockInProgress)
    );
    assert_eq!(app.deliver_tx(DeliverTxRequest { tx: vec![1] }, None), Err(AppError::InvalidTxBytes));
    assert_eq!(app.end_block(EndBlockRequest { height: 1 }), Err(AppError::NoBlockInProgress));
    assert_eq!(app.commit().err(), Some(AppError::NoBlockInProgress));
    app.begin_block(begin(2)).unwrap();
    assert_eq!(app.end_block(EndBlockRequest { height: 3 }), Err(AppError::HeightMismatch));
    assert_eq!(app.end_block(EndBlockRequest { height: 2 }), Ok(()));
}

#[test]
fn check_tx_judges_the_signature_alone() {
    let app = app();
    let good = sample_tx(1, 99);
    assert!(app.check_tx(&Some(good.clone())));
    let mut forged = good;
    forged.gas_price = 2;
    assert!(!app.check_tx(&Some(forged)));
    assert!(!app.check_tx(&None));
}

#[test]
fn commit_executes_closes_and_keeps_the_block() {
    let kp = SigningKey::from_bytes(&[1u8; 32]);
    let sender = kp.verifying_key().to_bytes();
    let mut genesis = GlobalState::default();
    let mut account = AccountState::default();
    account.lusd_balance = 10;
    account.pending_flash_mint = 3;
    genesis.accounts.insert(sender, account);
    genesis.total_lusd_supply = 10;
    genesis.pending_flash_mints = 3;

    let mut app = app();
    app.init_chain(InitChainRequest { genesis_state: genesis, initial_height: 0 });
    app.begin_block(begin(1)).unwrap();
    app.deliver_tx(DeliverTxRequest { tx: vec![0] }, Some(sample_tx(1, 0))).unwrap();
    app.deliver_tx(DeliverTxRequest { tx: vec![1] }, Some(sample_tx(1, 1))).unwrap();
    app.end_block(EndBlockRequest { height: 1 }).unwrap();
    let response = app.commit().unwrap();

    assert_eq!(response.height, 1);
    assert_eq!(response.app_hash, app.state.root_hash());
    assert_eq!(app.height, 1);
    assert!(!app.has_inflight());
    assert_eq!(app.state.accounts.get(&sender).unwrap().lusd_balance, 8);
    assert_eq!(app.state.accounts.get(&[2u8; 32]).unwrap().lusd_balance, 2);
    assert_eq!(app.state.pending_flash_mints, 0);
    assert_eq!(app.state.accounts.get(&sender).unwrap().pending_flash_mint, 3);
    assert_eq!(app.state.health_index, 0 + 2500 + 1500 + 0 + 500 + 0);
    assert_eq!(app.storage.load_state().root_hash(), response.app_hash);
    assert_eq!(app.storage.load_state_by_height(1).unwrap().root_hash(), response.app_hash);
    assert_eq!(app.wal_state().pending_txs.len(), 0);
}

#[test]
fn commit_stops_at_the_first_failing_transaction() {
    let kp = SigningKey::from_bytes(&[1u8; 32]);
    let sender = kp.verifying_key().to_bytes();
    let mut genesis = GlobalState::default();
    let mut account = AccountState::default();
    account.lusd_balance = 1;
    genesis.accounts.insert(sender, account);

    let mut app = app();
    app.init_chain(InitChainRequest { genesis_state: genesis, initial_height: 0 });
    app.begin_block(begin(1)).unwrap();
    app.deliver_tx(DeliverTxRequest { tx: vec![0] }, Some(sample_tx(1, 0))).unwrap();
    app.deliver_tx(DeliverTxRequest { tx: vec![1] }, Some(sample_tx(1, 1))).unwrap();
    assert_eq!(
        app.commit().err(),
        Some(AppError::TxFailed { reason: ExecError::InsufficientBalance { asset: BalanceKind::Lusd } })
    );
    assert_eq!(app.height, 0);
    assert!(!app.has_inflight());
    assert_eq!(app.state.accounts.get(&sender).unwrap().nonce, 1);
    assert_eq!(app.state.accounts.get(&sender).unwrap().lusd_balance, 0);
    assert!(app.storage.load_state_by_height(1).is_none());
}
