//! Plain-value records shared by the sequencing components.

use vstd::prelude::*;

verus! {

/// A 256-bit hash value, held as two 128-bit halves (`hi` holds the most
/// significant bits).
#[derive(Clone, Copy, Debug, PartialEq, Eq, Hash)]
pub struct BlockHash {
    pub hi: u128,
    pub lo: u128,
}

impl BlockHash {
    /// The all-zero hash, used by the genesis batch, which has no predecessor.
    pub open spec fn spec_is_zero(self) -> bool {
        self.hi == 0 && self.lo == 0
    }

    pub fn is_zero(&self) -> (r: bool)
        ensures
            r == self.spec_is_zero(),
    {
        self.hi == 0 && self.lo == 0
    }
}

/// A 160-bit account address: 32 high bits and 128 low bits.
#[derive(Clone, Copy, Debug, PartialEq, Eq, Hash)]
pub struct AccountAddress {
    pub hi: u32,
    pub lo: u128,
}

/// Resolved bytecode of one base system contract together with its hash.
#[derive(Clone, Debug, PartialEq, Eq)]
pub struct ContractCode {
    pub hash: BlockHash,
    pub code: Vec<u8>,
}

/// The two base system contracts an executor needs, resolved to bytecode.
#[derive(Clone, Debug, PartialEq, Eq)]
pub struct ResolvedContracts {
    pub bootloader: ContractCode,
    pub default_account: ContractCode,
}

/// Header of a sealed sub-block, as read back from the store.
#[derive(Clone, Copy, Debug, PartialEq, Eq)]
pub struct SubBlockHeader {
    pub number: u32,
    pub timestamp: u64,
    pub hash: BlockHash,
}

/// One transaction as originally submitted.
#[derive(Clone, Debug, PartialEq, Eq)]
pub struct Transaction {
    pub hash: BlockHash,
    pub payload: Vec<u8>,
}

/// A not-yet-sealed sub-block together with its transactions in submission
/// order.
#[derive(Clone, Debug, PartialEq, Eq)]
pub struct SubBlockWithTxs {
    pub number: u32,
    pub timestamp: u64,
    pub txs: Vec<Transaction>,
}

/// The durable record written once a batch's parameters are decided, and read
/// back for every later batch.  One row per batch number, append-only.
#[derive(Clone, Copy, Debug, PartialEq, Eq)]
pub struct PersistedBatchInitParams {
    pub number: u32,
    pub timestamp: u64,
    pub fee_account: AccountAddress,
    pub base_fee_per_gas: u64,
    pub l1_gas_price: u64,
    pub l2_fair_gas_price: u64,
    pub bootloader_hash: BlockHash,
    pub default_account_hash: BlockHash,
    pub protocol_version: u16,
}

} // verus!
