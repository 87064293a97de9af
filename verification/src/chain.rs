//! Building blocks, importing them and choosing the canonical chain. A
//! candidate block is validated by executing it again over its parent's
//! state and comparing the roots; the tip is the block with the greatest
//! height, the greater hash deciding between equals; a new tip rebinds the
//! canonical hash and snapshot of every height on its ancestry.

use crate::block::{block_hash_of, hash_header, transactions_root_of, Block, BlockHeader};
use crate::bytes::{addr_less, addr_lt, copy_bytes, Address};
use crate::crypto::{zero_hash, zero_hash_value};
use crate::execution::ExecutionContext;
use crate::pipeline::{
    execute_transaction, execute_transactions_in_order, transaction_rule, transactions_rule,
};
use crate::proofs::ZkManager;
use crate::rules::ExecError;
use crate::state::{empty_state, GlobalState, StateModel};
use crate::store::{BlockMeta, Storage, StoreModel, Tip};
use crate::transaction::Transaction;
use crate::trie::state_root_of;
use vstd::prelude::*;

verus! {

/// Why a block was not built or not imported.
#[derive(Debug, Clone, Copy, PartialEq, Eq, Structural)]
pub enum ChainError {
    /// No transaction of the proposal succeeded.
    EmptyBlock,
    /// The block's height is zero.
    InvalidHeight,
    /// The block's parent, or an ancestor of a new tip, was never imported.
    MissingParentBlock,
    /// The header's transactions root is not the root of the transactions.
    InvalidTxRoot,
    /// The state that the block builds on is not kept.
    MissingParentState,
    /// A transaction of the block failed.
    InvalidBlockTx { reason: ExecError },
    /// The header's state root is not the root after the transactions.
    InvalidStateRoot,
}

/// The state after the first `n` proposed transactions, each failing one
/// left out, and the transactions that succeeded, in their order.
pub open spec fn build_progress(
    s: StateModel,
    txs: Seq<Transaction>,
    n: int,
    height: u64,
    timestamp: u64,
    reserve_key: Seq<u8>,
) -> (StateModel, Seq<Transaction>)
    decreases n,
{
    if n <= 0 {
        (s, Seq::empty())
    } else {
        let before = build_progress(s, txs, n - 1, height, timestamp, reserve_key);
        match transaction_rule(before.0, txs[n - 1], height, timestamp, reserve_key) {
            Ok(after) => (after, before.1.push(txs[n - 1])),
            Err(e) => before,
        }
    }
}

/// The header of the block built from a proposal: the roots of the kept
/// transactions and of the state after them; the proposer is left zero for
/// consensus to fill in.
pub open spec fn built_header(
    parent: StateModel,
    txs: Seq<Transaction>,
    height: u64,
    prev_hash: [u8; 32],
    timestamp: u64,
    reserve_key: Seq<u8>,
) -> BlockHeader {
    let done = build_progress(parent, txs, txs.len() as int, height, timestamp, reserve_key);
    BlockHeader {
        height,
        prev_hash,
        transactions_root: transactions_root_of(done.1),
        state_root: state_root_of(done.0.accounts),
        timestamp,
        proposer: zero_hash(),
    }
}

/// Builds a block over a parent state: the transactions are executed in
/// order, and those that fail are dropped. With none left the proposal is
/// refused as `EmptyBlock`.
pub fn build_block_from_parent(
    parent_state: GlobalState,
    txs: Vec<Transaction>,
    height: u64,
    prev_hash: [u8; 32],
    timestamp: u64,
    zk: &ZkManager,
) -> (r: Result<Block, ChainError>)
    ensures
        build_progress(
            parent_state@,
            txs@,
            txs@.len() as int,
            height,
            timestamp,
            zk.verifying_key@,
        ).1.len() == 0 ==> r == Err::<Block, ChainError>(ChainError::EmptyBlock),
        build_progress(
            parent_state@,
            txs@,
            txs@.len() as int,
            height,
            timestamp,
            zk.verifying_key@,
        ).1.len() > 0 ==> r is Ok && r->Ok_0.header == built_header(
            parent_state@,
            txs@,
            height,
            prev_hash,
            timestamp,
            zk.verifying_key@,
        ) && r->Ok_0.transactions@ == build_progress(
            parent_state@,
            txs@,
            txs@.len() as int,
            height,
            timestamp,
            zk.verifying_key@,
        ).1 && r->Ok_0.votes@.len() == 0,
{
    let mut ctx = ExecutionContext {
        state: parent_state,
        height,
        timestamp,
        zk: ZkManager::new(copy_bytes(zk.verifying_key.as_slice())),
    };
    let mut rest = txs;
    let mut kept: Vec<Transaction> = Vec::new();
    let n = rest.len();
    let mut i: usize = 0;
    while i < n
        invariant
            i <= n,
            n == txs@.len(),
            rest@ == txs@.skip(i as int),
            ctx.height == height,
            ctx.timestamp == timestamp,
            ctx.zk.verifying_key@ == zk.verifying_key@,
            (ctx.state@, kept@) == build_progress(
                parent_state@,
                txs@,
                i as int,
                height,
                timestamp,
                zk.verifying_key@,
            ),
        decreases n - i,
    {
        let tx = rest.remove(0);
        assert(rest@ =~= txs@.skip(i + 1));
        match execute_transaction(&tx, &mut ctx) {
            Ok(()) => {
                kept.push(tx);
            },
            Err(e) => {},
        }
        i = i + 1;
    }
    if kept.len() == 0 {
        return Err(ChainError::EmptyBlock);
    }
    let transactions_root = Block::transactions_root(kept.as_slice());
    let state_root = ctx.state.root_hash();
    Ok(
        Block {
            header: BlockHeader {
                height,
                prev_hash,
                transactions_root,
                state_root,
                timestamp,
                proposer: zero_hash_value(),
            },
            transactions: kept,
            votes: Vec::new(),
        },
    )
}

/// The state that a block builds on: for height 1 the snapshot at height 0,
/// or the empty state where there is none; otherwise the state kept under
/// the parent's hash.
pub open spec fn parent_state_of(store: StoreModel, header: BlockHeader) -> Option<StateModel> {
    if header.height == 1 {
        if store.states_by_height.contains_key(0) {
            Some(store.states_by_height[0])
        } else {
            Some(empty_state())
        }
    } else if store.states_by_hash.contains_key(header.prev_hash) {
        Some(store.states_by_hash[header.prev_hash])
    } else {
        None
    }
}

/// Validates a block that is not known yet and gives the state after it:
/// the height is at least 1; above height 1 the parent was imported; the
/// transactions root matches; the parent state is kept; every transaction
/// succeeds over it; and the state root matches.
pub open spec fn validated_state(store: StoreModel, block: Block, reserve_key: Seq<u8>) -> Result<
    StateModel,
    ChainError,
> {
    let h = block.header;
    if h.height == 0 {
        Err(ChainError::InvalidHeight)
    } else if h.height > 1 && !store.metas.contains_key(h.prev_hash) {
        Err(ChainError::MissingParentBlock)
    } else if transactions_root_of(block.transactions@) != h.transactions_root {
        Err(ChainError::InvalidTxRoot)
    } else {
        match parent_state_of(store, h) {
            None => Err(ChainError::MissingParentState),
            Some(parent) => {
                let done = transactions_rule(
                    parent,
                    block.transactions@,
                    block.transactions@.len() as int,
                    h.height,
                    h.timestamp,
                    reserve_key,
                );
                match done.1 {
                    Some(e) => Err(ChainError::InvalidBlockTx { reason: e }),
                    None => if state_root_of(done.0.accounts) != h.state_root {
                        Err(ChainError::InvalidStateRoot)
                    } else {
                        Ok(done.0)
                    },
                }
            },
        }
    }
}

/// Whether a candidate beats the tip: it is higher, or as high with the
/// greater hash. Without a tip the candidate is held against height 0 and
/// the zero hash.
pub open spec fn beats(height: u64, hash: [u8; 32], tip: Option<Tip>) -> bool {
    let tip_height = match tip {
        Some(t) => t.height,
        None => 0,
    };
    let tip_hash = match tip {
        Some(t) => t.hash,
        None => zero_hash(),
    };
    height > tip_height || (height == tip_height && addr_less(tip_hash, hash))
}

/// Whether a candidate beats the tip.
pub fn is_better_tip(height: u64, hash: &[u8; 32], tip: &Option<Tip>) -> (r: bool)
    ensures
        r == beats(height, *hash, *tip),
{
    match tip {
        Some(t) => height > t.height || (height == t.height && addr_lt(&t.hash, hash)),
        None => {
            let zero = zero_hash_value();
            height > 0 || (height == 0 && addr_lt(&zero, hash))
        },
    }
}

/// One block on a chain: its height and hash.
#[derive(Debug, Clone, Copy)]
pub struct ChainLink {
    pub height: u64,
    pub hash: [u8; 32],
}

/// The most steps that a walk back to genesis takes.
pub const WALK_LIMIT: u64 = 0xffff_ffff_ffff_ffff;

/// The blocks from `hash` back to the first of height at most 1, tip first,
/// each the parent of the one before; nothing where a block on the way was
/// never imported or the walk takes more than `fuel` steps.
pub open spec fn ancestry(metas: Map<Address, BlockMeta>, hash: Address, fuel: nat) -> Option<
    Seq<ChainLink>,
>
    decreases fuel,
{
    if !metas.contains_key(hash) {
        None
    } else {
        let link = ChainLink { height: metas[hash].height, hash };
        if metas[hash].height <= 1 {
            Some(seq![link])
        } else if fuel == 0 {
            None
        } else {
            match ancestry(metas, metas[hash].parent_hash, (fuel - 1) as nat) {
                Some(rest) => Some(seq![link] + rest),
                None => None,
            }
        }
    }
}

/// A chain starts with the block it was asked for.
pub proof fn lemma_ancestry_starts(metas: Map<Address, BlockMeta>, hash: Address, fuel: nat)
    ensures
        ancestry(metas, hash, fuel) matches Some(links) ==> links.len() > 0 && links[0].hash == hash
            && links[0].height == metas[hash].height,
{
}

/// Whether the state after every block of the chain is kept.
pub open spec fn states_kept(store: StoreModel, links: Seq<ChainLink>) -> bool {
    forall|i: int| 0 <= i < links.len() ==> store.states_by_hash.contains_key((#[trigger] links[i]).hash)
}

/// The store after the last `k` links of a tip-first chain were bound,
/// genesis first: each height to its hash and to the state after its block.
pub open spec fn rebound(store: StoreModel, links: Seq<ChainLink>, k: int) -> StoreModel
    decreases k,
{
    if k <= 0 {
        store
    } else {
        let before = rebound(store, links, k - 1);
        let link = links[links.len() - k];
        StoreModel {
            canonical: before.canonical.insert(link.height, link.hash),
            states_by_height: before.states_by_height.insert(
                link.height,
                store.states_by_hash[link.hash],
            ),
            ..before
        }
    }
}

/// What a store and the current state become.
pub struct ChainModel {
    pub store: StoreModel,
    pub current: StateModel,
}

/// A reorganisation to a new tip: with the whole ancestry imported and its
/// states kept, every height on it is rebound, the tip and the latest state
/// are set, and the tip's state becomes the current state. Otherwise nothing
/// changes.
pub open spec fn reorg_rule(store: StoreModel, new_hash: Address, new_height: u64) -> Result<
    ChainModel,
    ChainError,
> {
    match ancestry(store.metas, new_hash, WALK_LIMIT as nat) {
        None => Err(ChainError::MissingParentBlock),
        Some(links) => if !states_kept(store, links) {
            Err(ChainError::MissingParentState)
        } else {
            let bound = rebound(store, links, links.len() as int);
            Ok(
                ChainModel {
                    store: StoreModel {
                        latest: Some(store.states_by_hash[new_hash]),
                        tip: Some(Tip { height: new_height, hash: new_hash }),
                        ..bound
                    },
                    current: store.states_by_hash[new_hash],
                },
            )
        },
    }
}

/// The store with a validated block, its metadata and the state after it
/// kept under the block's hash.
pub open spec fn persisted(store: StoreModel, block: Block, state: StateModel) -> StoreModel {
    let hash = block_hash_of(block.header);
    StoreModel {
        blocks: store.blocks.insert(hash, block),
        metas: store.metas.insert(
            hash,
            BlockMeta { height: block.header.height, parent_hash: block.header.prev_hash },
        ),
        states_by_hash: store.states_by_hash.insert(hash, state),
        ..store
    }
}

/// How an import ends: the store and current state after it, and whether
/// the canonical chain was reorganised, or why the block was refused.
pub struct ImportOutcome {
    pub chain: ChainModel,
    pub result: Result<bool, ChainError>,
}

/// The rule of block import. A known block changes nothing. A block that
/// fails validation changes nothing and is refused. A valid block is kept;
/// where it beats the tip the chain is reorganised to it, and where that
/// fails the block stays kept and the canonical chain is as it was.
pub open spec fn import_rule(store: StoreModel, current: StateModel, block: Block, reserve_key: Seq<u8>) -> ImportOutcome {
    let hash = block_hash_of(block.header);
    if store.metas.contains_key(hash) {
        ImportOutcome { chain: ChainModel { store, current }, result: Ok(false) }
    } else {
        match validated_state(store, block, reserve_key) {
            Err(e) => ImportOutcome { chain: ChainModel { store, current }, result: Err(e) },
            Ok(state) => {
                let kept = persisted(store, block, state);
                if !beats(block.header.height, hash, kept.tip) {
                    ImportOutcome { chain: ChainModel { store: kept, current }, result: Ok(false) }
                } else {
                    match reorg_rule(kept, hash, block.header.height) {
                        Ok(chain) => ImportOutcome { chain, result: Ok(true) },
                        Err(e) => ImportOutcome {
                            chain: ChainModel { store: kept, current },
                            result: Err(e),
                        },
                    }
                }
            },
        }
    }
}

/// The importing side of consensus: the store, the current state and the
/// verifier of reserve proofs.
#[derive(Debug)]
pub struct ConsensusService {
    pub state: GlobalState,
    pub storage: Storage,
    pub zk: ZkManager,
}

impl ConsensusService {
    /// A service over a store, a current state and a verifier.
    pub fn new(state: GlobalState, storage: Storage, zk: ZkManager) -> (r: Self)
        ensures
            r.state == state,
            r.storage == storage,
            r.zk == zk,
    {
        ConsensusService { state, storage, zk }
    }

    /// Collects the ancestry of a block, tip first.
    fn walk_back(&self, new_tip_hash: &[u8; 32]) -> (r: Option<Vec<ChainLink>>)
        ensures
            match ancestry(self.storage@.metas, *new_tip_hash, WALK_LIMIT as nat) {
                Some(links) => r is Some && r->Some_0@ == links,
                None => r is None,
            },
    {
        let mut chain: Vec<ChainLink> = Vec::new();
        let mut cursor = *new_tip_hash;
        let mut steps: u64 = 0;
        loop
            invariant
                ancestry(self.storage@.metas, *new_tip_hash, WALK_LIMIT as nat) == match ancestry(
                    self.storage@.metas,
                    cursor,
                    (WALK_LIMIT - steps) as nat,
                ) {
                    Some(rest) => Some(chain@ + rest),
                    None => None::<Seq<ChainLink>>,
                },
            decreases WALK_LIMIT - steps,
        {
            let meta = match self.storage.load_block_meta(&cursor) {
                Some(m) => m,
                None => {
                    return None;
                },
            };
            let ghost before = chain@;
            chain.push(ChainLink { height: meta.height, hash: cursor });
            if meta.height <= 1 {
                assert(chain@ =~= before + seq![ChainLink { height: meta.height, hash: cursor }]);
                return Some(chain);
            }
            if steps == WALK_LIMIT {
                return None;
            }
            proof {
                let link = ChainLink { height: meta.height, hash: cursor };
                let rest = ancestry(
                    self.storage@.metas,
                    meta.parent_hash,
                    (WALK_LIMIT - steps - 1) as nat,
                );
                if rest is Some {
                    assert(before + (seq![link] + rest->Some_0) =~= chain@ + rest->Some_0);
                }
            }
            steps = steps + 1;
            cursor = meta.parent_hash;
        }
    }

    /// Makes the block with the hash the canonical tip: the canonical hash
    /// and snapshot of every height on its ancestry are rebound, genesis
    /// first, and the tip's state becomes the latest and the current state.
    /// On an error nothing has changed.
    pub fn reorg_to_tip(&mut self, new_tip_hash: [u8; 32], new_tip_height: u64) -> (r: Result<
        (),
        ChainError,
    >)
        ensures
            match reorg_rule(old(self).storage@, new_tip_hash, new_tip_height) {
                Ok(chain) => r is Ok && final(self).storage@ == chain.store && final(self).state@
                    == chain.current,
                Err(e) => r == Err::<(), ChainError>(e) && final(self).storage@ == old(
                    self,
                ).storage@ && final(self).state@ == old(self).state@,
            },
            final(self).zk == old(self).zk,
    {
        let chain = match self.walk_back(&new_tip_hash) {
            Some(c) => c,
            None => {
                return Err(ChainError::MissingParentBlock);
            },
        };
        proof {
            lemma_ancestry_starts(self.storage@.metas, new_tip_hash, WALK_LIMIT as nat);
        }
        let mut i: usize = 0;
        while i < chain.len()
            invariant
                i <= chain@.len(),
                *self == *old(self),
                ancestry(self.storage@.metas, new_tip_hash, WALK_LIMIT as nat) == Some(chain@),
                forall|j: int|
                    0 <= j < i ==> self.storage@.states_by_hash.contains_key(
                        (#[trigger] chain@[j]).hash,
                    ),
            decreases chain@.len() - i,
        {
            if !self.storage.has_state_by_hash(&chain[i].hash) {
                assert(!self.storage@.states_by_hash.contains_key(chain@[i as int].hash));
                return Err(ChainError::MissingParentState);
            }
            i = i + 1;
        }
        let ghost start = self.storage@;
        let n = chain.len();
        let mut k: usize = 0;
        while k < n
            invariant
                k <= n,
                n == chain@.len(),
                n > 0,
                states_kept(start, chain@),
                chain@[0].hash == new_tip_hash,
                self.storage@ == rebound(start, chain@, k as int),
                self.storage@.states_by_hash == start.states_by_hash,
                self.state == old(self).state,
                self.zk == old(self).zk,
            decreases n - k,
        {
            let link = chain[n - 1 - k];
            let snapshot = match self.storage.load_state_by_hash(&link.hash) {
                Some(s) => s,
                None => {
                    assert(false);
                    return Err(ChainError::MissingParentState);
                },
            };
            self.storage.save_canonical_block_at_height(link.height, link.hash);
            self.storage.adopt_state_at_height(link.height, snapshot);
            k = k + 1;
        }
        let tip_state = match self.storage.load_state_by_hash(&new_tip_hash) {
            Some(s) => s,
            None => {
                assert(false);
                return Err(ChainError::MissingParentState);
            },
        };
        self.storage.save_state(&tip_state);
        self.storage.save_tip(new_tip_height, new_tip_hash);
        self.state = tip_state;
        Ok(())
    }

    /// Loads the state that a block builds on.
    fn load_parent_state(&self, header: &BlockHeader) -> (r: Option<GlobalState>)
        ensures
            match parent_state_of(self.storage@, *header) {
                Some(s) => r is Some && r->Some_0@ == s,
                None => r is None,
            },
    {
        if header.height == 1 {
            match self.storage.load_state_by_height(0) {
                Some(s) => Some(s),
                None => Some(GlobalState::default()),
            }
        } else {
            self.storage.load_state_by_hash(&header.prev_hash)
        }
    }

    /// Imports a block. A known block is a no-op. Otherwise the block is
    /// validated by executing it over its parent's state, kept, and held
    /// against the tip. Returns whether the canonical chain was reorganised.
    pub fn import_block_and_maybe_reorg(&mut self, block: Block) -> (r: Result<bool, ChainError>)
        ensures
            final(self).storage@ == import_rule(
                old(self).storage@,
                old(self).state@,
                block,
                old(self).zk.verifying_key@,
            ).chain.store,
            final(self).state@ == import_rule(
                old(self).storage@,
                old(self).state@,
                block,
                old(self).zk.verifying_key@,
            ).chain.current,
            r == import_rule(
                old(self).storage@,
                old(self).state@,
                block,
                old(self).zk.verifying_key@,
            ).result,
            final(self).zk == old(self).zk,
    {
        let block_hash = hash_header(&block.header);
        if self.storage.load_block_meta(&block_hash).is_some() {
            return Ok(false);
        }
        let height = block.header.height;
        let parent_hash = block.header.prev_hash;
        if height == 0 {
            return Err(ChainError::InvalidHeight);
        }
        if height > 1 && self.storage.load_block_meta(&parent_hash).is_none() {
            return Err(ChainError::MissingParentBlock);
        }
        let expected_tx_root = Block::transactions_root(block.transactions.as_slice());
        if !crate::bytes::addr_eq(&block.header.transactions_root, &expected_tx_root) {
            return Err(ChainError::InvalidTxRoot);
        }
        let parent_state = match self.load_parent_state(&block.header) {
            Some(s) => s,
            None => {
                return Err(ChainError::MissingParentState);
            },
        };
        let mut ctx = ExecutionContext {
            state: parent_state,
            height,
            timestamp: block.header.timestamp,
            zk: ZkManager::new(copy_bytes(self.zk.verifying_key.as_slice())),
        };
        match execute_transactions_in_order(block.transactions.as_slice(), &mut ctx) {
            Ok(()) => {},
            Err(e) => {
                return Err(ChainError::InvalidBlockTx { reason: e });
            },
        }
        let next_state = ctx.state;
        let state_root = next_state.root_hash();
        if !crate::bytes::addr_eq(&block.header.state_root, &state_root) {
            return Err(ChainError::InvalidStateRoot);
        }
        self.storage.save_state_by_hash(block_hash, &next_state);
        self.storage.save_block_meta(block_hash, height, parent_hash);
        self.storage.save_block(block);
        let tip = self.storage.load_tip();
        if !is_better_tip(height, &block_hash, &tip) {
            return Ok(false);
        }
        match self.reorg_to_tip(block_hash, height) {
            Ok(()) => Ok(true),
            Err(e) => Err(e),
        }
    }
}

} // verus!
