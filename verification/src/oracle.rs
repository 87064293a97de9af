//! Oracle reporters and the regimes that a price feed reports.

use crate::bytes::{addr_list_contains, Address};
use vstd::prelude::*;

verus! {

/// How calm a market is.
#[derive(Debug, Clone, Copy, PartialEq, Eq, Structural)]
pub enum OracleRegime {
    Stable,
    Volatile,
    Stress,
}

/// The public keys of the authorised price reporters.
#[derive(Debug)]
pub struct OracleManager {
    pub reporters: Vec<[u8; 32]>,
}

impl OracleManager {
    /// A manager without reporters.
    pub fn new() -> (r: Self)
        ensures
            r.reporters@.len() == 0,
    {
        OracleManager { reporters: Vec::new() }
    }

    /// Whether the key belongs to an authorised reporter.
    pub fn is_reporter(&self, key: &Address) -> (r: bool)
        ensures
            r == self.reporters@.contains(*key),
    {
        addr_list_contains(&self.reporters, key)
    }
}

} // verus!
