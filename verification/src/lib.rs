//! Deterministic execution core of a stablecoin-oriented chain: the account
//! state, its trie commitment, the instruction executor, the transaction
//! pipeline, block building and import, fork choice, and the in-flight journal.

pub mod bytes;
pub mod crypto;
pub mod instruction;
pub mod account;
pub mod accounts;
pub mod state;
pub mod rules;
pub mod handlers;
pub mod proofs;
pub mod signatures;
pub mod recovery;
pub mod encoding;
pub mod transaction;
pub mod block;
pub mod execution;
pub mod pipeline;
pub mod trie;
pub mod store;
pub mod chain;
pub mod app;
pub mod genesis;
pub mod oracle;
pub mod network;
pub mod simulation;
pub mod laws;
