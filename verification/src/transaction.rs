//! Signed transactions.

use crate::bytes::{append_bytes, Address};
use crate::crypto::{hash32, hash_bytes};
use crate::encoding::{enc_signing, encode_signing};
use crate::instruction::StablecoinInstruction;
use vstd::prelude::*;

verus! {

/// One signed transaction.
#[derive(Debug, Clone, PartialEq)]
pub struct Transaction {
    pub sender: Address,
    /// Must equal the sender's next nonce.
    pub nonce: u64,
    pub instruction: StablecoinInstruction,
    pub signature: Vec<u8>,
    pub gas_limit: u64,
    pub gas_price: u64,
}

/// The bytes that the signature of a transaction covers.
pub open spec fn signing_bytes_of(tx: Transaction) -> Seq<u8> {
    enc_signing(tx.sender, tx.nonce, tx.instruction, tx.gas_limit, tx.gas_price)
}

/// The id of a transaction: the digest of its signing bytes followed by its
/// signature.
pub open spec fn tx_id(tx: Transaction) -> [u8; 32] {
    hash32(signing_bytes_of(tx) + tx.signature@)
}

impl Transaction {
    /// The bytes that the signature covers: everything but the signature.
    pub fn signing_bytes(&self) -> (b: Vec<u8>)
        ensures
            b@ == signing_bytes_of(*self),
    {
        encode_signing(&self.sender, self.nonce, &self.instruction, self.gas_limit, self.gas_price)
    }

    /// The transaction's id.
    pub fn id(&self) -> (h: [u8; 32])
        ensures
            h == tx_id(*self),
    {
        let mut preimage = self.signing_bytes();
        append_bytes(&mut preimage, self.signature.as_slice());
        hash_bytes(preimage.as_slice())
    }
}

} // verus!
