//! The messages by which peers ask each other for what they miss.

use vstd::prelude::*;

verus! {

/// A request to a peer.
#[derive(Debug, Clone)]
pub enum SyncRequest {
    BlockByHeight(u64),
    ZkProofByBlock([u8; 32]),
}

/// A peer's answer.
#[derive(Debug, Clone)]
pub enum SyncResponse {
    Block(Option<Vec<u8>>),
    ZkProof(Option<Vec<u8>>),
    Error(String),
}

} // verus!
