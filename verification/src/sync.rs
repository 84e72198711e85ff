//! Decision layer of the read-only synchronization endpoint, which
//! republishes already-sealed sub-blocks to other nodes.
//!
//! The endpoint's SQL runs outside the library; what the fetched row and
//! transaction list turn into — the fee-account fallback, the last-in-batch
//! flag, the transaction pass-through — is decided and verified here.

use vstd::prelude::*;
use crate::types::{AccountAddress, BlockHash, Transaction};

verus! {

/// What the store records about one sub-block for synchronization.
#[derive(Clone, Copy, Debug, PartialEq, Eq)]
pub struct SyncBlockRow {
    pub number: u32,
    pub batch_number: u32,
    /// Highest sub-block number recorded for the same batch, once known.
    pub last_sub_block_in_batch: Option<u32>,
    pub timestamp: u64,
    pub root_hash: Option<BlockHash>,
    pub l1_gas_price: u64,
    pub l2_fair_gas_price: u64,
    pub bootloader_hash: BlockHash,
    pub default_account_hash: BlockHash,
    pub virtual_blocks: u32,
    pub hash: BlockHash,
    pub protocol_version: u16,
    /// Absent on rows written before the fee account was recorded per batch.
    pub fee_account: Option<AccountAddress>,
}

/// The payload republished to synchronizing nodes.
#[derive(Clone, Debug, PartialEq, Eq)]
pub struct SyncBlock {
    pub number: u32,
    pub batch_number: u32,
    pub last_in_batch: bool,
    pub timestamp: u64,
    pub root_hash: Option<BlockHash>,
    pub l1_gas_price: u64,
    pub l2_fair_gas_price: u64,
    pub bootloader_hash: BlockHash,
    pub default_account_hash: BlockHash,
    pub virtual_blocks: u32,
    pub hash: BlockHash,
    pub protocol_version: u16,
    pub fee_account: AccountAddress,
    pub transactions: Option<Vec<Transaction>>,
}

/// Decision layer over the synchronization rows.  The endpoint's SQL runs
/// outside the library; row values come in and the published payload goes
/// out as plain values.
#[derive(Clone, Copy, Debug, PartialEq, Eq)]
pub struct SyncDal {}

impl SyncDal {
    pub fn new() -> SyncDal {
        SyncDal {  }
    }

    /// Assembles the block to republish: an absent row publishes nothing; a
    /// present one carries its recorded facts verbatim, with the fee account
    /// falling back to the node operator's where the row predates its
    /// recording, the last-in-batch flag set exactly when the batch's
    /// recorded maximum is this block, and the transactions passed through
    /// exactly as fetched (absent when the caller did not ask for them).
    pub fn sync_block(
        &self,
        row: Option<SyncBlockRow>,
        current_operator_address: AccountAddress,
        transactions: Option<Vec<Transaction>>,
    ) -> (r: Option<SyncBlock>)
        ensures
            row is None ==> r is None,
            row matches Some(b) ==> (r matches Some(s) && s == (SyncBlock {
                number: b.number,
                batch_number: b.batch_number,
                last_in_batch: b.last_sub_block_in_batch == Some(b.number),
                timestamp: b.timestamp,
                root_hash: b.root_hash,
                l1_gas_price: b.l1_gas_price,
                l2_fair_gas_price: b.l2_fair_gas_price,
                bootloader_hash: b.bootloader_hash,
                default_account_hash: b.default_account_hash,
                virtual_blocks: b.virtual_blocks,
                hash: b.hash,
                protocol_version: b.protocol_version,
                fee_account: match b.fee_account {
                    Some(recorded) => recorded,
                    None => current_operator_address,
                },
                transactions,
            })),
    {
        match row {
            None => None,
            Some(b) => {
                let last_in_batch = match b.last_sub_block_in_batch {
                    Some(last) => last == b.number,
                    None => false,
                };
                let fee_account = match b.fee_account {
                    Some(recorded) => recorded,
                    None => current_operator_address,
                };
                Some(
                    SyncBlock {
                        number: b.number,
                        batch_number: b.batch_number,
                        last_in_batch,
                        timestamp: b.timestamp,
                        root_hash: b.root_hash,
                        l1_gas_price: b.l1_gas_price,
                        l2_fair_gas_price: b.l2_fair_gas_price,
                        bootloader_hash: b.bootloader_hash,
                        default_account_hash: b.default_account_hash,
                        virtual_blocks: b.virtual_blocks,
                        hash: b.hash,
                        protocol_version: b.protocol_version,
                        fee_account,
                        transactions,
                    },
                )
            },
        }
    }
}

} // verus!
