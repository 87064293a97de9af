use ed25519_dalek::{Signer, SigningKey};
use lumina_core::account::AccountState;
use lumina_core::block::{Block, BlockHeader};
use lumina_core::chain::{build_block_from_parent, ChainError, ConsensusService};
use lumina_core::instruction::{AssetType, StablecoinInstruction};
use lumina_core::proofs::ZkManager;
use lumina_core::rules::ExecError;
use lumina_core::state::GlobalState;
use lumina_core::store::Storage;
use lumina_core::transaction::Transaction;

fn key(seed: u8) -> SigningKey {
    SigningKey::from_bytes(&[seed; 32])
}

fn signed(key: &SigningKey, nonce: u64, instruction: StablecoinInstruction) -> Transaction {
    let mut tx = Transaction {
        sender: key.verifying_key().to_bytes(),
        nonce,
        instruction,
        signature: Vec::new(),
        gas_limit: 1000,
        gas_price: 1,
    };
    tx.signature = key.sign(&tx.signing_bytes()).to_bytes().to_vec();
    tx
}

fn mint_junior(key: &SigningKey, nonce: u64, amount: u64) -> Transaction {
    signed(key, nonce, StablecoinInstruction::MintJunior { amount, collateral_amount: amount })
}

fn zk() -> ZkManager {
    ZkManager::new(Vec::new())
}

fn service() -> ConsensusService {
    ConsensusService::new(GlobalState::default(), Storage::new(), zk())
}

fn copy_block(block: &Block) -> Block {
    block.clone()
}

#[test]
fn build_keeps_valid_and_drops_failing_transactions() {
    let alice = key(1);
    let bob = key(2);
    let good = mint_junior(&alice, 0, 500);
    let wrong_nonce = mint_junior(&bob, 7, 100);
    let mut forged = mint_junior(&bob, 0, 100);
    forged.signature[0] ^= 1;
    let block = build_block_from_parent(
        GlobalState::default(),
        vec![good.clone(), wrong_nonce, forged, mint_junior(&alice, 1, 20)],
        1,
        [0u8; 32],
        77,
        &zk(),
    )
    .unwrap();
    assert_eq!(block.transactions.len(), 2);
    assert_eq!(block.transactions[0], good);
    assert_eq!(block.header.height, 1);
    assert_eq!(block.header.prev_hash, [0u8; 32]);
    assert_eq!(block.header.timestamp, 77);
    assert_eq!(block.header.proposer, [0u8; 32]);
    assert!(block.votes.is_empty());
    assert_eq!(block.header.transactions_root, Block::transactions_root(&block.transactions));

    let mut expected = GlobalState::default();
    let mut account = AccountState::default();
    account.nonce = 2;
    account.ljun_balance = 520;
    expected.accounts.insert(alice.verifying_key().to_bytes(), account);
    assert_eq!(block.header.state_root, expected.root_hash());
}

#[test]
fn build_without_a_valid_transaction_is_an_empty_block() {
    let bob = key(2);
    let r = build_block_from_parent(
        GlobalState::default(),
        vec![mint_junior(&bob, 3, 100)],
        1,
        [0u8; 32],
        1,
        &zk(),
    );
    assert_eq!(r.err(), Some(ChainError::EmptyBlock));
    let none = build_block_from_parent(GlobalState::default(), Vec::new(), 1, [0u8; 32], 1, &zk());
    assert_eq!(none.err(), Some(ChainError::EmptyBlock));
}

#[test]
fn import_of_a_built_block_moves_the_tip() {
    let alice = key(1);
    let block = build_block_from_parent(
        GlobalState::default(),
        vec![mint_junior(&alice, 0, 500)],
        1,
        [0u8; 32],
        5,
        &zk(),
    )
    .unwrap();
    let hash = block.hash();
    let root = block.header.state_root;
    let mut node = service();
    assert_eq!(node.import_block_and_maybe_reorg(copy_block(&block)), Ok(true));
    let tip = node.storage.load_tip().unwrap();
    assert_eq!((tip.height, tip.hash), (1, hash));
    assert_eq!(node.state.root_hash(), root);
    assert_eq!(node.state.total_ljun_supply, 500);
    assert_eq!(node.storage.load_state().total_ljun_supply, 500);
    assert_eq!(node.storage.load_state_by_height(1).unwrap().total_ljun_supply, 500);
    assert_eq!(node.storage.load_state_by_hash(&hash).unwrap().total_ljun_supply, 500);
    assert_eq!(node.storage.load_block_by_height(1).unwrap().header.state_root, root);
    assert_eq!(node.storage.load_block_by_hash(&hash).unwrap().transactions.len(), 1);
    let meta = node.storage.load_block_meta(&hash).unwrap();
    assert_eq!((meta.height, meta.parent_hash), (1, [0u8; 32]));
}

#[test]
fn importing_a_block_twice_changes_nothing() {
    let alice = key(1);
    let block = build_block_from_parent(
        GlobalState::default(),
        vec![mint_junior(&alice, 0, 500)],
        1,
        [0u8; 32],
        5,
        &zk(),
    )
    .unwrap();
    let mut node = service();
    assert_eq!(node.import_block_and_maybe_reorg(copy_block(&block)), Ok(true));
    let root = node.state.root_hash();
    assert_eq!(node.import_block_and_maybe_reorg(copy_block(&block)), Ok(false));
    assert_eq!(node.state.root_hash(), root);
    let tip = node.storage.load_tip().unwrap();
    assert_eq!((tip.height, tip.hash), (1, block.hash()));
}

#[test]
fn import_with_a_corrupted_state_root_is_refused() {
    let alice = key(1);
    let mut block = build_block_from_parent(
        GlobalState::default(),
        vec![mint_junior(&alice, 0, 500)],
        1,
        [0u8; 32],
        5,
        &zk(),
    )
    .unwrap();
    block.header.state_root[0] ^= 1;
    let mut node = service();
    assert_eq!(node.import_block_and_maybe_reorg(block), Err(ChainError::InvalidStateRoot));
    assert_eq!(node.state.accounts.len(), 0);
    assert_eq!(node.state.total_ljun_supply, 0);
    assert!(node.storage.load_tip().is_none());
}

#[test]
fn import_refuses_each_defect_of_a_block() {
    let alice = key(1);
    let good = build_block_from_parent(
        GlobalState::default(),
        vec![mint_junior(&alice, 0, 500)],
        1,
        [0u8; 32],
        5,
        &zk(),
    )
    .unwrap();

    let mut zero_height = copy_block(&good);
    zero_height.header.height = 0;
    assert_eq!(service().import_block_and_maybe_reorg(zero_height), Err(ChainError::InvalidHeight));

    let mut orphan = copy_block(&good);
    orphan.header.height = 2;
    orphan.header.prev_hash = [9u8; 32];
    assert_eq!(service().import_block_and_maybe_reorg(orphan), Err(ChainError::MissingParentBlock));

    let mut bad_root = copy_block(&good);
    bad_root.header.transactions_root[31] ^= 0x80;
    assert_eq!(service().import_block_and_maybe_reorg(bad_root), Err(ChainError::InvalidTxRoot));

    let failing = mint_junior(&alice, 5, 1);
    let bad_tx = Block {
        header: BlockHeader {
            height: 1,
            prev_hash: [0u8; 32],
            transactions_root: Block::transactions_root(&[failing.clone()]),
            state_root: [0u8; 32],
            timestamp: 5,
            proposer: [0u8; 32],
        },
        transactions: vec![failing],
        votes: Vec::new(),
    };
    assert_eq!(
        service().import_block_and_maybe_reorg(bad_tx),
        Err(ChainError::InvalidBlockTx {
            reason: ExecError::NonceMismatch { expected: 0, got: 5 }
        })
    );
}

#[test]
fn the_greater_hash_wins_between_blocks_of_one_height() {
    let alice = key(1);
    let bob = key(2);
    let a = build_block_from_parent(
        GlobalState::default(),
        vec![mint_junior(&alice, 0, 500)],
        1,
        [0u8; 32],
        5,
        &zk(),
    )
    .unwrap();
    let b = build_block_from_parent(
        GlobalState::default(),
        vec![mint_junior(&bob, 0, 900)],
        1,
        [0u8; 32],
        5,
        &zk(),
    )
    .unwrap();
    let (low, high) = if a.hash() < b.hash() { (a, b) } else { (b, a) };

    let mut node = service();
    assert_eq!(node.import_block_and_maybe_reorg(copy_block(&low)), Ok(true));
    assert_eq!(node.import_block_and_maybe_reorg(copy_block(&high)), Ok(true));
    assert_eq!(node.storage.load_tip().unwrap().hash, high.hash());
    assert_eq!(node.state.root_hash(), high.header.state_root);

    let mut other = service();
    assert_eq!(other.import_block_and_maybe_reorg(copy_block(&high)), Ok(true));
    assert_eq!(other.import_block_and_maybe_reorg(copy_block(&low)), Ok(false));
    assert_eq!(other.storage.load_tip().unwrap().hash, high.hash());
    assert_eq!(other.state.root_hash(), high.header.state_root);
    assert!(other.storage.load_block_by_hash(&low.hash()).is_some());
}

#[test]
fn a_longer_fork_rebinds_every_height_on_its_ancestry() {
    let alice = key(1);
    let bob = key(2);
    let a = build_block_from_parent(
        GlobalState::default(),
        vec![mint_junior(&alice, 0, 500)],
        1,
        [0u8; 32],
        5,
        &zk(),
    )
    .unwrap();
    let b = build_block_from_parent(
        GlobalState::default(),
        vec![mint_junior(&bob, 0, 900)],
        1,
        [0u8; 32],
        5,
        &zk(),
    )
    .unwrap();
    let (low, high) = if a.hash() < b.hash() { (a, b) } else { (b, a) };

    let mut node = service();
    assert_eq!(node.import_block_and_maybe_reorg(copy_block(&low)), Ok(true));
    assert_eq!(node.import_block_and_maybe_reorg(copy_block(&high)), Ok(true));
    assert_eq!(node.storage.load_block_by_height(1).unwrap().hash(), high.hash());

    let carol = key(3);
    let parent = node.storage.load_state_by_hash(&low.hash()).unwrap();
    let child = build_block_from_parent(
        parent,
        vec![mint_junior(&carol, 0, 40)],
        2,
        low.hash(),
        6,
        &zk(),
    )
    .unwrap();
    assert_eq!(node.import_block_and_maybe_reorg(copy_block(&child)), Ok(true));

    let tip = node.storage.load_tip().unwrap();
    assert_eq!((tip.height, tip.hash), (2, child.hash()));
    assert_eq!(node.storage.load_block_by_height(2).unwrap().hash(), child.hash());
    assert_eq!(node.storage.load_block_by_height(1).unwrap().hash(), low.hash());
    let meta = node.storage.load_block_meta(&child.hash()).unwrap();
    assert_eq!(meta.parent_hash, node.storage.load_block_by_height(1).unwrap().hash());
    assert_eq!(
        node.storage.load_state_by_height(1).unwrap().root_hash(),
        low.header.state_root
    );
    assert_eq!(node.state.root_hash(), child.header.state_root);
    assert_eq!(node.storage.load_state().root_hash(), child.header.state_root);
}

#[test]
fn a_block_above_a_parent_without_state_is_refused() {
    let alice = key(1);
    let mut node = service();
    node.storage.save_block_meta([4u8; 32], 1, [0u8; 32]);
    let tx = mint_junior(&alice, 0, 1);
    let block = Block {
        header: BlockHeader {
            height: 2,
            prev_hash: [4u8; 32],
            transactions_root: Block::transactions_root(&[tx.clone()]),
            state_root: [0u8; 32],
            timestamp: 5,
            proposer: [0u8; 32],
        },
        transactions: vec![tx],
        votes: Vec::new(),
    };
    assert_eq!(node.import_block_and_maybe_reorg(block), Err(ChainError::MissingParentState));
}

#[test]
fn reorg_to_an_unknown_block_changes_nothing() {
    let mut node = service();
    assert_eq!(node.reorg_to_tip([5u8; 32], 3), Err(ChainError::MissingParentBlock));
    assert!(node.storage.load_tip().is_none());
    node.storage.save_block_meta([5u8; 32], 1, [0u8; 32]);
    assert_eq!(node.reorg_to_tip([5u8; 32], 1), Err(ChainError::MissingParentState));
    assert!(node.storage.load_tip().is_none());
    assert!(node.storage.load_block_by_height(1).is_none());
}

#[test]
fn transfer_moves_the_same_asset_in_every_class() {
    let alice = key(1);
    let bob = [8u8; 32];
    let mut state = GlobalState::default();
    let mut account = AccountState::default();
    account.lusd_balance = 10;
    account.ljun_balance = 20;
    account.lumina_balance = 30;
    account.custom_balances.insert("BTC".to_string(), 40);
    state.accounts.insert(alice.verifying_key().to_bytes(), account);
    state.total_lusd_supply = 10;
    state.total_ljun_supply = 20;
    let txs = vec![
        signed(&alice, 0, StablecoinInstruction::Transfer { to: bob, amount: 1, asset: AssetType::LUSD }),
        signed(&alice, 1, StablecoinInstruction::Transfer { to: bob, amount: 2, asset: AssetType::LJUN }),
        signed(&alice, 2, StablecoinInstruction::Transfer { to: bob, amount: 3, asset: AssetType::Lumina }),
        signed(
            &alice,
            3,
            StablecoinInstruction::Transfer {
                to: bob,
                amount: 4,
                asset: AssetType::Custom("BTC".to_string()),
            },
        ),
    ];
    let block = build_block_from_parent(state.clone(), txs, 1, [0u8; 32], 5, &zk()).unwrap();
    assert_eq!(block.transactions.len(), 4);
    let mut node = ConsensusService::new(GlobalState::default(), Storage::new(), zk());
    node.storage.save_state_at_height(0, &state);
    assert_eq!(node.import_block_and_maybe_reorg(block), Ok(true));
    let sender = node.state.accounts.get(&alice.verifying_key().to_bytes()).unwrap();
    let receiver = node.state.accounts.get(&bob).unwrap();
    assert_eq!((sender.lusd_balance, receiver.lusd_balance), (9, 1));
    assert_eq!((sender.ljun_balance, receiver.ljun_balance), (18, 2));
    assert_eq!((sender.lumina_balance, receiver.lumina_balance), (27, 3));
    assert_eq!(sender.custom_balances.get(&"BTC".to_string()), Some(36));
    assert_eq!(receiver.custom_balances.get(&"BTC".to_string()), Some(4));
    assert_eq!(sender.epoch_tx_volume, 3);
    assert_eq!(node.state.total_lusd_supply, 10);
    assert_eq!(node.state.total_ljun_supply, 20);
}
