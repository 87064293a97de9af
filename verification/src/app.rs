//! The application that a consensus driver runs: a chain is initialised, a
//! block is begun, transactions are delivered into it, the block is ended
//! and committed. Between begin and commit the block in flight is journaled,
//! so that it can be restored after a crash; writing and reading the journal
//! is the embedding program's concern.

use crate::bytes::copy_bytes;
use crate::execution::{end_block, ExecutionContext};
use crate::handlers::health::health_index_of;
use crate::pipeline::{execute_transactions_in_order, signature_verdict_in, transactions_rule, tx_signature_valid};
use crate::accounts::accounts_get;
use crate::proofs::ZkManager;
use crate::rules::ExecError;
use crate::state::{GlobalState, StateModel};
use crate::store::{Storage, StoreModel};
use crate::transaction::Transaction;
use crate::trie::state_root_of;
use vstd::prelude::*;

verus! {

/// The request that initialises a chain.
#[derive(Debug)]
pub struct InitChainRequest {
    pub genesis_state: GlobalState,
    pub initial_height: u64,
}

/// The request that begins a block.
#[derive(Debug, Clone, Copy)]
pub struct BeginBlockRequest {
    pub height: u64,
    pub proposer: [u8; 32],
    pub timestamp: u64,
}

/// The request that delivers a transaction in its wire form.
#[derive(Debug, Clone)]
pub struct DeliverTxRequest {
    pub tx: Vec<u8>,
}

/// The request that ends a block.
#[derive(Debug, Clone, Copy)]
pub struct EndBlockRequest {
    pub height: u64,
}

/// What a commit returns: the committed height and the state root.
#[derive(Debug, Clone, Copy)]
pub struct CommitResponse {
    pub height: u64,
    pub app_hash: [u8; 32],
}

/// A proposal for a local test network.
#[derive(Debug, Clone)]
pub struct LocalProposal {
    pub height: u64,
    pub txs: Vec<Vec<u8>>,
}

/// The journal record of a block in flight.
#[derive(Debug)]
pub struct WalState {
    pub height: u64,
    pub current_block: Option<BeginBlockRequest>,
    pub pending_txs: Vec<Vec<u8>>,
}

/// Why the application refused a request.
#[derive(Debug, Clone, Copy, PartialEq, Eq, Structural)]
pub enum AppError {
    /// A block was begun at or below the committed height.
    NonMonotonicHeight,
    /// No block was begun.
    NoBlockInProgress,
    /// A block was ended at another height than it was begun at.
    HeightMismatch,
    /// The delivered bytes are no transaction.
    InvalidTxBytes,
    /// A transaction of the block failed at commit.
    TxFailed { reason: ExecError },
}

/// A delivered transaction: its wire form as it came, and its value.
#[derive(Debug)]
pub struct InflightTx {
    pub bytes: Vec<u8>,
    pub tx: Transaction,
}

/// The block in flight.
#[derive(Debug)]
pub struct InflightBlock {
    pub height: u64,
    pub timestamp: u64,
    pub txs: Vec<InflightTx>,
}

/// The mathematical value of a block in flight.
pub struct InflightModel {
    pub height: u64,
    pub timestamp: u64,
    pub txs: Seq<Transaction>,
    pub bytes: Seq<Seq<u8>>,
}

/// The transactions of a list of delivered transactions.
pub open spec fn delivered_txs(list: Seq<InflightTx>) -> Seq<Transaction> {
    Seq::new(list.len(), |i: int| list[i].tx)
}

/// The wire forms of a list of delivered transactions.
pub open spec fn delivered_bytes(list: Seq<InflightTx>) -> Seq<Seq<u8>> {
    Seq::new(list.len(), |i: int| list[i].bytes@)
}

impl View for InflightBlock {
    type V = InflightModel;

    open spec fn view(&self) -> InflightModel {
        InflightModel {
            height: self.height,
            timestamp: self.timestamp,
            txs: delivered_txs(self.txs@),
            bytes: delivered_bytes(self.txs@),
        }
    }
}

/// The view of an optional block in flight.
pub open spec fn opt_inflight_view(b: Option<InflightBlock>) -> Option<InflightModel> {
    match b {
        Some(x) => Some(x@),
        None => None,
    }
}

/// The application: the current state, the store, the committed height and
/// the block in flight.
#[derive(Debug)]
pub struct LuminaApp {
    pub state: GlobalState,
    pub storage: Storage,
    pub height: u64,
    pub zk: ZkManager,
    pub inflight: Option<InflightBlock>,
}

/// The mathematical value of the application.
pub struct AppModel {
    pub state: StateModel,
    pub store: StoreModel,
    pub height: u64,
    pub inflight: Option<InflightModel>,
}

impl View for LuminaApp {
    type V = AppModel;

    open spec fn view(&self) -> AppModel {
        AppModel {
            state: self.state@,
            store: self.storage@,
            height: self.height,
            inflight: opt_inflight_view(self.inflight),
        }
    }
}

/// The state after a block's transactions and the closing of the block.
pub open spec fn block_closed(s: StateModel) -> StateModel {
    StateModel { health_index: health_index_of(s), pending_flash_mints: 0, ..s }
}

/// How a commit ends: the application after it, and the response or the
/// reason of refusal.
pub struct CommitOutcome {
    pub app: AppModel,
    pub result: Result<CommitResponse, AppError>,
}

/// The rule of commit. Without a block in flight nothing happens. The
/// transactions in flight are executed in order; the first that fails ends
/// the commit, leaving the state after the transactions before it and no
/// block in flight. Otherwise the block is closed, its height becomes the
/// committed height, and the state is kept as the latest and as the
/// snapshot of that height.
pub open spec fn commit_rule(app: AppModel, reserve_key: Seq<u8>) -> CommitOutcome {
    match app.inflight {
        None => CommitOutcome { app, result: Err(AppError::NoBlockInProgress) },
        Some(block) => {
            let done = transactions_rule(
                app.state,
                block.txs,
                block.txs.len() as int,
                block.height,
                block.timestamp,
                reserve_key,
            );
            match done.1 {
                Some(e) => CommitOutcome {
                    app: AppModel { state: done.0, inflight: None, ..app },
                    result: Err(AppError::TxFailed { reason: e }),
                },
                None => {
                    let closed = block_closed(done.0);
                    CommitOutcome {
                        app: AppModel {
                            state: closed,
                            store: StoreModel {
                                latest: Some(closed),
                                states_by_height: app.store.states_by_height.insert(
                                    block.height,
                                    closed,
                                ),
                                ..app.store
                            },
                            height: block.height,
                            inflight: None,
                        },
                        result: Ok(
                            CommitResponse {
                                height: block.height,
                                app_hash: state_root_of(closed.accounts),
                            },
                        ),
                    }
                },
            }
        },
    }
}

impl LuminaApp {
    /// An application over a store: the current state is the store's latest
    /// state, the committed height is zero and no block is in flight.
    pub fn new(storage: Storage, zk: ZkManager) -> (app: Self)
        ensures
            app@.store == storage@,
            app@.state == match storage@.latest {
                Some(s) => s,
                None => crate::state::empty_state(),
            },
            app@.height == 0,
            app@.inflight is None,
            app.zk == zk,
    {
        let state = storage.load_state();
        LuminaApp { state, storage, height: 0, zk, inflight: None }
    }

    /// Whether a block is in flight.
    pub fn has_inflight(&self) -> (r: bool)
        ensures
            r == self@.inflight.is_some(),
    {
        self.inflight.is_some()
    }

    /// Restores the committed height and the block in flight from a journal
    /// record and the values of its pending transactions. A record whose
    /// transactions do not match in number is refused.
    pub fn recover_from_wal(&mut self, wal: WalState, decoded: Vec<Transaction>) -> (r: Result<
        (),
        AppError,
    >)
        ensures
            wal.pending_txs@.len() != decoded@.len() ==> r == Err::<(), AppError>(
                AppError::InvalidTxBytes,
            ) && final(self)@ == old(self)@,
            wal.pending_txs@.len() == decoded@.len() ==> r is Ok && final(self)@ == (AppModel {
                height: wal.height,
                inflight: match wal.current_block {
                    Some(b) => Some(
                        InflightModel {
                            height: b.height,
                            timestamp: b.timestamp,
                            txs: decoded@,
                            bytes: crate::recovery::signatures_view(wal.pending_txs@),
                        },
                    ),
                    None => None,
                },
                ..old(self)@
            }),
            final(self).zk == old(self).zk,
    {
        if wal.pending_txs.len() != decoded.len() {
            return Err(AppError::InvalidTxBytes);
        }
        let n = decoded.len();
        let mut bytes = wal.pending_txs;
        let mut values = decoded;
        let mut txs: Vec<InflightTx> = Vec::new();
        let mut i: usize = 0;
        while i < n
            invariant
                i <= n,
                n == decoded@.len(),
                n == wal.pending_txs@.len(),
                bytes@ == wal.pending_txs@.skip(i as int),
                values@ == decoded@.skip(i as int),
                txs@.len() == i,
                forall|k: int|
                    0 <= k < i ==> (#[trigger] txs@[k]).tx == decoded@[k] && txs@[k].bytes@
                        == wal.pending_txs@[k]@,
            decreases n - i,
        {
            let b = bytes.remove(0);
            let tx = values.remove(0);
            assert(bytes@ =~= wal.pending_txs@.skip(i + 1));
            assert(values@ =~= decoded@.skip(i + 1));
            txs.push(InflightTx { bytes: b, tx });
            i = i + 1;
        }
        assert(delivered_txs(txs@) =~= decoded@);
        assert(delivered_bytes(txs@) =~= crate::recovery::signatures_view(wal.pending_txs@));
        self.height = wal.height;
        self.inflight = match wal.current_block {
            Some(b) => Some(InflightBlock { height: b.height, timestamp: b.timestamp, txs }),
            None => None,
        };
        Ok(())
    }

    /// The journal record of the application as it stands: the committed
    /// height, the block in flight and the wire forms delivered into it.
    pub fn wal_state(&self) -> (wal: WalState)
        ensures
            wal.height == self@.height,
            match self@.inflight {
                Some(b) => wal.current_block is Some && wal.current_block->Some_0.height == b.height
                    && wal.current_block->Some_0.timestamp == b.timestamp
                    && wal.current_block->Some_0.proposer == crate::crypto::zero_hash()
                    && crate::recovery::signatures_view(wal.pending_txs@) == b.bytes,
                None => wal.current_block is None && wal.pending_txs@.len() == 0,
            },
    {
        match &self.inflight {
            Some(b) => {
                let mut pending: Vec<Vec<u8>> = Vec::new();
                let mut i: usize = 0;
                while i < b.txs.len()
                    invariant
                        i <= b.txs@.len(),
                        pending@.len() == i,
                        forall|k: int| 0 <= k < i ==> (#[trigger] pending@[k])@ == b.txs@[k].bytes@,
                    decreases b.txs@.len() - i,
                {
                    pending.push(copy_bytes(b.txs[i].bytes.as_slice()));
                    i = i + 1;
                }
                assert(crate::recovery::signatures_view(pending@) =~= delivered_bytes(b.txs@));
                WalState {
                    height: self.height,
                    current_block: Some(
                        BeginBlockRequest {
                            height: b.height,
                            proposer: crate::crypto::zero_hash_value(),
                            timestamp: b.timestamp,
                        },
                    ),
                    pending_txs: pending,
                }
            },
            None => WalState { height: self.height, current_block: None, pending_txs: Vec::new() },
        }
    }

    /// Initialises the chain: the genesis state becomes the current state,
    /// the latest state and the snapshot of the initial height.
    pub fn init_chain(&mut self, req: InitChainRequest)
        ensures
            final(self)@ == (AppModel {
                state: req.genesis_state@,
                height: req.initial_height,
                store: StoreModel {
                    latest: Some(req.genesis_state@),
                    states_by_height: old(self)@.store.states_by_height.insert(
                        req.initial_height,
                        req.genesis_state@,
                    ),
                    ..old(self)@.store
                },
                ..old(self)@
            }),
            final(self).zk == old(self).zk,
    {
        self.state = req.genesis_state;
        self.height = req.initial_height;
        self.storage.save_state(&self.state);
        self.storage.save_state_at_height(self.height, &self.state);
    }

    /// Begins a block above the committed height; any block in flight is
    /// replaced.
    pub fn begin_block(&mut self, req: BeginBlockRequest) -> (r: Result<(), AppError>)
        ensures
            req.height <= old(self)@.height ==> r == Err::<(), AppError>(
                AppError::NonMonotonicHeight,
            ) && final(self)@ == old(self)@,
            req.height > old(self)@.height ==> r is Ok && final(self)@ == (AppModel {
                inflight: Some(
                    InflightModel {
                        height: req.height,
                        timestamp: req.timestamp,
                        txs: Seq::empty(),
                        bytes: Seq::empty(),
                    },
                ),
                ..old(self)@
            }),
            final(self).zk == old(self).zk,
    {
        if req.height <= self.height {
            return Err(AppError::NonMonotonicHeight);
        }
        let block = InflightBlock { height: req.height, timestamp: req.timestamp, txs: Vec::new() };
        assert(block@.txs =~= Seq::empty());
        assert(block@.bytes =~= Seq::empty());
        self.inflight = Some(block);
        Ok(())
    }

    /// Pre-validates a transaction by its signature alone.
    pub fn check_tx(&self, decoded: &Option<Transaction>) -> (ok: bool)
        ensures
            ok == match *decoded {
                Some(tx) => tx_signature_valid(
                    accounts_get(self@.state.accounts, tx.sender).pq_pubkey,
                    tx,
                ),
                None => false,
            },
    {
        match decoded {
            Some(tx) => signature_verdict_in(tx, &self.state),
            None => false,
        }
    }

    /// Appends a transaction to the block in flight. `decoded` is the value
    /// of the request's bytes, or nothing where they are no transaction.
    pub fn deliver_tx(&mut self, req: DeliverTxRequest, decoded: Option<Transaction>) -> (r: Result<
        (),
        AppError,
    >)
        ensures
            decoded is None ==> r == Err::<(), AppError>(AppError::InvalidTxBytes) && final(self)@
                == old(self)@,
            decoded is Some && old(self)@.inflight is None ==> r == Err::<(), AppError>(
                AppError::NoBlockInProgress,
            ) && final(self)@ == old(self)@,
            decoded is Some && old(self)@.inflight is Some ==> r is Ok && final(self)@ == (AppModel {
                inflight: Some(
                    InflightModel {
                        txs: old(self)@.inflight->Some_0.txs.push(decoded->Some_0),
                        bytes: old(self)@.inflight->Some_0.bytes.push(req.tx@),
                        ..old(self)@.inflight->Some_0
                    },
                ),
                ..old(self)@
            }),
            final(self).zk == old(self).zk,
    {
        let tx = match decoded {
            Some(tx) => tx,
            None => {
                return Err(AppError::InvalidTxBytes);
            },
        };
        let mut taken: Option<InflightBlock> = None;
        core::mem::swap(&mut taken, &mut self.inflight);
        match taken {
            Some(mut block) => {
                let ghost before = block@;
                block.txs.push(InflightTx { bytes: req.tx, tx });
                assert(block@.txs =~= before.txs.push(tx));
                assert(block@.bytes =~= before.bytes.push(req.tx@));
                self.inflight = Some(block);
                Ok(())
            },
            None => Err(AppError::NoBlockInProgress),
        }
    }

    /// Ends the block in flight; the height must be the one it was begun at.
    pub fn end_block(&self, req: EndBlockRequest) -> (r: Result<(), AppError>)
        ensures
            r == match self@.inflight {
                None => Err::<(), AppError>(AppError::NoBlockInProgress),
                Some(b) => if req.height != b.height {
                    Err::<(), AppError>(AppError::HeightMismatch)
                } else {
                    Ok::<(), AppError>(())
                },
            },
    {
        match &self.inflight {
            None => Err(AppError::NoBlockInProgress),
            Some(b) => if req.height != b.height {
                Err(AppError::HeightMismatch)
            } else {
                Ok(())
            },
        }
    }

    /// Commits the block in flight: its transactions are executed, the block
    /// is closed, and the state is kept.
    pub fn commit(&mut self) -> (r: Result<CommitResponse, AppError>)
        ensures
            final(self)@ == commit_rule(old(self)@, old(self).zk.verifying_key@).app,
            r == commit_rule(old(self)@, old(self).zk.verifying_key@).result,
            final(self).zk.verifying_key@ == old(self).zk.verifying_key@,
    {
        let mut taken: Option<InflightBlock> = None;
        core::mem::swap(&mut taken, &mut self.inflight);
        let block = match taken {
            Some(b) => b,
            None => {
                return Err(AppError::NoBlockInProgress);
            },
        };
        let mut state = GlobalState::default();
        core::mem::swap(&mut state, &mut self.state);
        let mut ctx = ExecutionContext {
            state,
            height: block.height,
            timestamp: block.timestamp,
            zk: ZkManager::new(copy_bytes(self.zk.verifying_key.as_slice())),
        };
        let mut txs: Vec<Transaction> = Vec::new();
        let mut rest = block.txs;
        let n = rest.len();
        let mut i: usize = 0;
        while i < n
            invariant
                i <= n,
                n == block.txs@.len(),
                rest@ == block.txs@.skip(i as int),
                txs@ == delivered_txs(block.txs@).take(i as int),
            decreases n - i,
        {
            let entry = rest.remove(0);
            assert(rest@ =~= block.txs@.skip(i + 1));
            txs.push(entry.tx);
            assert(txs@ =~= delivered_txs(block.txs@).take(i + 1));
            i = i + 1;
        }
        assert(txs@ =~= delivered_txs(block.txs@));
        match execute_transactions_in_order(txs.as_slice(), &mut ctx) {
            Ok(()) => {},
            Err(e) => {
                self.state = ctx.state;
                return Err(AppError::TxFailed { reason: e });
            },
        }
        end_block(&mut ctx);
        self.state = ctx.state;
        self.height = block.height;
        let app_hash = self.state.root_hash();
        self.storage.save_state(&self.state);
        self.storage.save_state_at_height(self.height, &self.state);
        Ok(CommitResponse { height: self.height, app_hash })
    }
}

} // verus!
