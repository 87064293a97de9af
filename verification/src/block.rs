//! Blocks, their hash and the Merkle root over their transactions.

use crate::bytes::{append_bytes};
use crate::crypto::{hash32, hash_bytes, zero_hash, zero_hash_value};
use crate::encoding::{put_addr, put_u64};
use crate::transaction::{tx_id, Transaction};
use vstd::bytes::spec_u64_to_le_bytes;
use vstd::prelude::*;

verus! {

/// The header of a block.
#[derive(Debug, Clone, Copy)]
pub struct BlockHeader {
    pub height: u64,
    pub prev_hash: [u8; 32],
    pub transactions_root: [u8; 32],
    pub state_root: [u8; 32],
    pub timestamp: u64,
    pub proposer: [u8; 32],
}

/// A validator's vote on a block; filled in by consensus.
#[derive(Debug, Clone, PartialEq)]
pub struct Vote {
    pub validator: [u8; 32],
    pub signature: Vec<u8>,
}

/// A block: header, ordered transactions and votes.
#[derive(Debug, Clone)]
pub struct Block {
    pub header: BlockHeader,
    pub transactions: Vec<Transaction>,
    pub votes: Vec<Vote>,
}

/// The digest of two hashes, one after the other.
pub open spec fn hash_pair(left: [u8; 32], right: [u8; 32]) -> [u8; 32] {
    hash32(left@ + right@)
}

/// The level above a Merkle level: each pair of neighbours hashed together,
/// a last node without a neighbour hashed with itself.
pub open spec fn merkle_parent_level(level: Seq<[u8; 32]>) -> Seq<[u8; 32]> {
    Seq::new(
        ((level.len() + 1) / 2) as nat,
        |i: int|
            hash_pair(
                level[2 * i],
                if 2 * i + 1 < level.len() {
                    level[2 * i + 1]
                } else {
                    level[2 * i]
                },
            ),
    )
}

/// The root above a Merkle level; the zero hash above an empty one.
pub open spec fn merkle_root(level: Seq<[u8; 32]>) -> [u8; 32]
    decreases level.len(),
{
    if level.len() == 0 {
        zero_hash()
    } else if level.len() == 1 {
        level[0]
    } else {
        merkle_root(merkle_parent_level(level))
    }
}

/// The ids of a list of transactions.
pub open spec fn tx_ids(txs: Seq<Transaction>) -> Seq<[u8; 32]> {
    Seq::new(txs.len(), |i: int| tx_id(txs[i]))
}

/// The Merkle root over the ids of a list of transactions.
pub open spec fn transactions_root_of(txs: Seq<Transaction>) -> [u8; 32] {
    merkle_root(tx_ids(txs))
}

/// The wire form of a header.
pub open spec fn enc_header(h: BlockHeader) -> Seq<u8> {
    Seq::<u8>::empty() + spec_u64_to_le_bytes(h.height) + h.prev_hash@ + h.transactions_root@
        + h.state_root@ + spec_u64_to_le_bytes(h.timestamp) + h.proposer@
}

/// The hash of a block: the digest of its header's wire form.
pub open spec fn block_hash_of(h: BlockHeader) -> [u8; 32] {
    hash32(enc_header(h))
}

/// Hashes two nodes together.
pub fn hash_concat(left: &[u8; 32], right: &[u8; 32]) -> (h: [u8; 32])
    ensures
        h == hash_pair(*left, *right),
{
    let mut preimage: Vec<u8> = Vec::new();
    append_bytes(&mut preimage, left.as_slice());
    append_bytes(&mut preimage, right.as_slice());
    assert(preimage@ =~= left@ + right@);
    hash_bytes(preimage.as_slice())
}

/// The Merkle root above a level of hashes.
pub fn merkle_root_of_level(ids: Vec<[u8; 32]>) -> (root: [u8; 32])
    ensures
        root == merkle_root(ids@),
{
    let mut level = ids;
    if level.len() == 0 {
        return zero_hash_value();
    }
    while level.len() > 1
        invariant
            level@.len() >= 1,
            merkle_root(level@) == merkle_root(ids@),
        decreases level@.len(),
    {
        let mut next: Vec<[u8; 32]> = Vec::new();
        let mut i: usize = 0;
        while i < level.len()
            invariant
                i % 2 == 0 || i == level@.len(),
                i <= level@.len(),
                next@.len() == (i + 1) / 2,
                forall|k: int| 0 <= k < next@.len() ==> next@[k] == merkle_parent_level(level@)[k],
            decreases level@.len() - i,
        {
            let left = level[i];
            if i + 1 < level.len() {
                let right = level[i + 1];
                next.push(hash_concat(&left, &right));
                i = i + 2;
            } else {
                next.push(hash_concat(&left, &left));
                i = i + 1;
            }
        }
        assert(next@ =~= merkle_parent_level(level@));
        level = next;
    }
    level[0]
}

impl Block {
    /// The Merkle root over the ids of `txs`: a binary tree in which a level
    /// of odd length repeats its last node; the zero hash for no transaction.
    pub fn transactions_root(txs: &[Transaction]) -> (root: [u8; 32])
        ensures
            root == transactions_root_of(txs@),
    {
        let mut ids: Vec<[u8; 32]> = Vec::new();
        let mut i: usize = 0;
        while i < txs.len()
            invariant
                i <= txs@.len(),
                ids@.len() == i,
                forall|k: int| 0 <= k < i ==> ids@[k] == tx_id(txs@[k]),
            decreases txs@.len() - i,
        {
            ids.push(txs[i].id());
            i = i + 1;
        }
        assert(ids@ =~= tx_ids(txs@));
        merkle_root_of_level(ids)
    }

    /// The block's hash.
    pub fn hash(&self) -> (h: [u8; 32])
        ensures
            h == block_hash_of(self.header),
    {
        hash_header(&self.header)
    }
}

/// The hash of a header.
pub fn hash_header(header: &BlockHeader) -> (h: [u8; 32])
    ensures
        h == block_hash_of(*header),
{
    let mut b: Vec<u8> = Vec::new();
    put_u64(&mut b, header.height);
    put_addr(&mut b, &header.prev_hash);
    put_addr(&mut b, &header.transactions_root);
    put_addr(&mut b, &header.state_root);
    put_u64(&mut b, header.timestamp);
    put_addr(&mut b, &header.proposer);
    hash_bytes(b.as_slice())
}

} // verus!
