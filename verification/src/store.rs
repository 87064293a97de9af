//! The chain store: blocks, block metadata and state snapshots by block
//! hash; the canonical hash and state snapshot by height; the tip; and the
//! latest committed state. It is kept in memory; persistence is the
//! embedding program's concern.

use crate::block::{block_hash_of, hash_header, Block};
use crate::bytes::{addr_eq, Address};
use crate::state::{GlobalState, StateModel};
use std::collections::BTreeMap;
use vstd::prelude::*;

verus! {

/// One hash with what is kept under it.
#[derive(Debug)]
pub struct HashEntry<V> {
    pub key: Address,
    pub value: V,
}

/// Values keyed by 32-byte hash. A later write under a hash replaces what
/// was kept under it.
#[derive(Debug)]
pub struct HashIndex<V> {
    entries: Vec<HashEntry<V>>,
}

/// The map that a log of writes amounts to: each write in turn, later over
/// earlier.
pub open spec fn index_map<V>(log: Seq<HashEntry<V>>) -> Map<Address, V>
    decreases log.len(),
{
    if log.len() == 0 {
        Map::empty()
    } else {
        index_map(log.drop_last()).insert(log.last().key, log.last().value)
    }
}

/// With no write under `key` from `from` on, the map at `key` is that of the
/// log before `from`.
pub proof fn lemma_index_map_tail<V>(log: Seq<HashEntry<V>>, key: Address, from: int)
    requires
        0 <= from <= log.len(),
        forall|j: int| from <= j < log.len() ==> log[j].key != key,
    ensures
        index_map(log).contains_key(key) == index_map(log.take(from)).contains_key(key),
        index_map(log).contains_key(key) ==> index_map(log)[key] == index_map(log.take(from))[key],
    decreases log.len() - from,
{
    if from < log.len() {
        let shorter = log.drop_last();
        assert(shorter.take(from) =~= log.take(from));
        lemma_index_map_tail(shorter, key, from);
    } else {
        assert(log.take(from) =~= log);
    }
}

impl<V> View for HashIndex<V> {
    type V = Map<Address, V>;

    closed spec fn view(&self) -> Map<Address, V> {
        index_map(self.entries@)
    }
}

impl<V> HashIndex<V> {
    /// An index without entries.
    pub fn new() -> (r: Self)
        ensures
            r@ == Map::<Address, V>::empty(),
    {
        HashIndex { entries: Vec::new() }
    }

    /// What is kept under `key`, if anything.
    pub fn get(&self, key: &Address) -> (r: Option<&V>)
        ensures
            r.is_some() == self@.contains_key(*key),
            r matches Some(v) ==> *v == self@[*key],
    {
        let mut i: usize = self.entries.len();
        while i > 0
            invariant
                i <= self.entries@.len(),
                forall|j: int| i <= j < self.entries@.len() ==> self.entries@[j].key != *key,
            decreases i,
        {
            if addr_eq(&self.entries[i - 1].key, key) {
                proof {
                    lemma_index_map_tail(self.entries@, *key, i as int);
                    assert(self.entries@.take(i as int).drop_last() =~= self.entries@.take(i - 1));
                }
                return Some(&self.entries[i - 1].value);
            }
            i = i - 1;
        }
        proof {
            lemma_index_map_tail(self.entries@, *key, 0);
        }
        None
    }

    /// Whether anything is kept under `key`.
    pub fn contains_key(&self, key: &Address) -> (r: bool)
        ensures
            r == self@.contains_key(*key),
    {
        self.get(key).is_some()
    }

    /// Keeps `value` under `key`.
    pub fn insert(&mut self, key: Address, value: V)
        ensures
            final(self)@ == old(self)@.insert(key, value),
    {
        self.entries.push(HashEntry { key, value });
        assert(self.entries@.drop_last() =~= old(self).entries@);
    }
}

/// Height and parent hash of a block.
#[derive(Debug, Clone, Copy)]
pub struct BlockMeta {
    pub height: u64,
    pub parent_hash: [u8; 32],
}

/// Height and hash of the canonical tip.
#[derive(Debug, Clone, Copy)]
pub struct Tip {
    pub height: u64,
    pub hash: [u8; 32],
}

/// The chain store.
#[derive(Debug)]
pub struct Storage {
    latest: Option<GlobalState>,
    canonical: BTreeMap<u64, [u8; 32]>,
    blocks: HashIndex<Block>,
    states_by_height: BTreeMap<u64, GlobalState>,
    states_by_hash: HashIndex<GlobalState>,
    metas: HashIndex<BlockMeta>,
    tip: Option<Tip>,
}

/// The mathematical value of the store.
pub struct StoreModel {
    /// The latest committed state.
    pub latest: Option<StateModel>,
    /// The canonical block hash at each height.
    pub canonical: Map<u64, [u8; 32]>,
    /// Every block that was imported, by hash.
    pub blocks: Map<Address, Block>,
    /// The canonical state snapshot at each height.
    pub states_by_height: Map<u64, StateModel>,
    /// The state after each imported block, by block hash.
    pub states_by_hash: Map<Address, StateModel>,
    /// Height and parent of each imported block, by hash.
    pub metas: Map<Address, BlockMeta>,
    /// The canonical tip.
    pub tip: Option<Tip>,
}

/// The empty store.
pub open spec fn empty_store() -> StoreModel {
    StoreModel {
        latest: None,
        canonical: Map::empty(),
        blocks: Map::empty(),
        states_by_height: Map::empty(),
        states_by_hash: Map::empty(),
        metas: Map::empty(),
        tip: None,
    }
}

/// The views of the states of a map.
pub open spec fn states_view<K>(m: Map<K, GlobalState>) -> Map<K, StateModel> {
    Map::new(|k: K| m.contains_key(k), |k: K| m[k]@)
}

/// The view of an optional state.
pub open spec fn opt_state_view(s: Option<GlobalState>) -> Option<StateModel> {
    match s {
        Some(x) => Some(x@),
        None => None,
    }
}

impl View for Storage {
    type V = StoreModel;

    closed spec fn view(&self) -> StoreModel {
        StoreModel {
            latest: opt_state_view(self.latest),
            canonical: self.canonical@,
            blocks: self.blocks@,
            states_by_height: states_view(self.states_by_height@),
            states_by_hash: states_view(self.states_by_hash@),
            metas: self.metas@,
            tip: self.tip,
        }
    }
}

impl Storage {
    /// An empty store.
    pub fn new() -> (r: Self)
        ensures
            r@ == empty_store(),
    {
        let r = Storage {
            latest: None,
            canonical: BTreeMap::new(),
            blocks: HashIndex::new(),
            states_by_height: BTreeMap::new(),
            states_by_hash: HashIndex::new(),
            metas: HashIndex::new(),
            tip: None,
        };
        assert(r@.states_by_height =~= Map::empty());
        assert(r@.states_by_hash =~= Map::empty());
        r
    }

    /// Keeps a copy of `state` as the latest committed state.
    pub fn save_state(&mut self, state: &GlobalState)
        ensures
            final(self)@ == (StoreModel { latest: Some(state@), ..old(self)@ }),
    {
        self.latest = Some(state.clone());
    }

    /// Keeps a copy of `state` as the canonical snapshot at `height`.
    pub fn save_state_at_height(&mut self, height: u64, state: &GlobalState)
        ensures
            final(self)@ == (StoreModel {
                states_by_height: old(self)@.states_by_height.insert(height, state@),
                ..old(self)@
            }),
    {
        let copy = state.clone();
        self.states_by_height.insert(height, copy);
        assert(states_view(self.states_by_height@) =~= states_view(
            old(self).states_by_height@,
        ).insert(height, state@));
    }

    /// Keeps `state` as the canonical snapshot at `height`.
    pub fn adopt_state_at_height(&mut self, height: u64, state: GlobalState)
        ensures
            final(self)@ == (StoreModel {
                states_by_height: old(self)@.states_by_height.insert(height, state@),
                ..old(self)@
            }),
    {
        self.states_by_height.insert(height, state);
        assert(states_view(self.states_by_height@) =~= states_view(
            old(self).states_by_height@,
        ).insert(height, state@));
    }

    /// Whether the state after the block with the hash is kept.
    pub fn has_state_by_hash(&self, block_hash: &[u8; 32]) -> (r: bool)
        ensures
            r == self@.states_by_hash.contains_key(*block_hash),
    {
        self.states_by_hash.contains_key(block_hash)
    }

    /// A copy of the latest committed state; the empty state where none was
    /// committed.
    pub fn load_state(&self) -> (r: GlobalState)
        ensures
            r@ == match self@.latest {
                Some(s) => s,
                None => crate::state::empty_state(),
            },
    {
        match &self.latest {
            Some(s) => s.clone(),
            None => GlobalState::default(),
        }
    }

    /// A copy of the canonical snapshot at `height`, if there is one.
    pub fn load_state_by_height(&self, height: u64) -> (r: Option<GlobalState>)
        ensures
            r.is_some() == self@.states_by_height.contains_key(height),
            r matches Some(s) ==> s@ == self@.states_by_height[height],
    {
        match self.states_by_height.get(&height) {
            Some(s) => Some(s.clone()),
            None => None,
        }
    }

    /// Keeps a copy of `state` as the state after the block with the hash.
    pub fn save_state_by_hash(&mut self, block_hash: [u8; 32], state: &GlobalState)
        ensures
            final(self)@ == (StoreModel {
                states_by_hash: old(self)@.states_by_hash.insert(block_hash, state@),
                ..old(self)@
            }),
    {
        let copy = state.clone();
        self.states_by_hash.insert(block_hash, copy);
        assert(states_view(self.states_by_hash@) =~= states_view(old(self).states_by_hash@).insert(
            block_hash,
            state@,
        ));
    }

    /// A copy of the state after the block with the hash, if it is kept.
    pub fn load_state_by_hash(&self, block_hash: &[u8; 32]) -> (r: Option<GlobalState>)
        ensures
            r.is_some() == self@.states_by_hash.contains_key(*block_hash),
            r matches Some(s) ==> s@ == self@.states_by_hash[*block_hash],
    {
        match self.states_by_hash.get(block_hash) {
            Some(s) => Some(s.clone()),
            None => None,
        }
    }

    /// Keeps a block under its hash.
    pub fn save_block(&mut self, block: Block)
        ensures
            final(self)@ == (StoreModel {
                blocks: old(self)@.blocks.insert(block_hash_of(block.header), block),
                ..old(self)@
            }),
    {
        let hash = hash_header(&block.header);
        self.blocks.insert(hash, block);
    }

    /// Makes the hash the canonical block at `height`.
    pub fn save_canonical_block_at_height(&mut self, height: u64, block_hash: [u8; 32])
        ensures
            final(self)@ == (StoreModel {
                canonical: old(self)@.canonical.insert(height, block_hash),
                ..old(self)@
            }),
    {
        self.canonical.insert(height, block_hash);
    }

    /// The canonical block at `height`, if the height has one and the block
    /// is kept.
    pub fn load_block_by_height(&self, height: u64) -> (r: Option<&Block>)
        ensures
            r.is_some() == (self@.canonical.contains_key(height) && self@.blocks.contains_key(
                self@.canonical[height],
            )),
            r matches Some(b) ==> *b == self@.blocks[self@.canonical[height]],
    {
        match self.canonical.get(&height) {
            Some(h) => self.blocks.get(h),
            None => None,
        }
    }

    /// The block with the hash, if it is kept.
    pub fn load_block_by_hash(&self, hash: &[u8; 32]) -> (r: Option<&Block>)
        ensures
            r.is_some() == self@.blocks.contains_key(*hash),
            r matches Some(b) ==> *b == self@.blocks[*hash],
    {
        self.blocks.get(hash)
    }

    /// Keeps height and parent of the block with the hash.
    pub fn save_block_meta(&mut self, block_hash: [u8; 32], height: u64, parent_hash: [u8; 32])
        ensures
            final(self)@ == (StoreModel {
                metas: old(self)@.metas.insert(block_hash, BlockMeta { height, parent_hash }),
                ..old(self)@
            }),
    {
        self.metas.insert(block_hash, BlockMeta { height, parent_hash });
    }

    /// Height and parent of the block with the hash, if it was imported.
    pub fn load_block_meta(&self, block_hash: &[u8; 32]) -> (r: Option<BlockMeta>)
        ensures
            r.is_some() == self@.metas.contains_key(*block_hash),
            r matches Some(m) ==> m == self@.metas[*block_hash],
    {
        match self.metas.get(block_hash) {
            Some(m) => Some(*m),
            None => None,
        }
    }

    /// Makes height and hash the canonical tip.
    pub fn save_tip(&mut self, height: u64, hash: [u8; 32])
        ensures
            final(self)@ == (StoreModel { tip: Some(Tip { height, hash }), ..old(self)@ }),
    {
        self.tip = Some(Tip { height, hash });
    }

    /// The canonical tip, if one was saved.
    pub fn load_tip(&self) -> (r: Option<Tip>)
        ensures
            r == self@.tip,
    {
        self.tip
    }
}

} // verus!
