//! Batch environment builder: the pure transformation from persisted chain
//! parameters to the two immutable descriptors the executor consumes.

use vstd::prelude::*;
use crate::types::{AccountAddress, BlockHash, ResolvedContracts};

verus! {

/// Execution gas ceiling of a batch, a fixed network constant.
pub const BATCH_GAS_CEILING: u32 = u32::MAX;

/// Whether the auxiliary data-availability tree is enabled on this network.
pub const PORTER_AVAILABLE: bool = false;

/// How the executor treats the transactions it is fed.  Sequencing always
/// verifies and executes in full, so a single variant is in scope.
#[derive(Clone, Copy, Debug, PartialEq, Eq)]
pub enum ExecutionMode {
    VerifyExecute,
}

/// Chain-level descriptor consumed by the executor: constructed fresh for
/// every batch and never mutated.
#[derive(Clone, Debug, PartialEq, Eq)]
pub struct ChainExecutionConfig {
    pub porter_available: bool,
    pub version: u16,
    pub base_system_contracts: ResolvedContracts,
    pub gas_limit: u32,
    pub execution_mode: ExecutionMode,
    pub default_validation_gas_limit: u32,
    pub chain_id: u64,
}

/// Descriptor of the first sub-block of a new batch.
#[derive(Clone, Copy, Debug, PartialEq, Eq)]
pub struct FirstSubBlock {
    pub number: u32,
    pub timestamp: u64,
    pub prev_block_hash: BlockHash,
    pub max_virtual_blocks_to_create: u32,
}

/// Execution-level descriptor of one batch, paired with a
/// [`ChainExecutionConfig`]: built once per batch and never mutated.
#[derive(Clone, Copy, Debug, PartialEq, Eq)]
pub struct BatchExecutionParams {
    pub previous_batch_hash: Option<BlockHash>,
    pub number: u32,
    pub timestamp: u64,
    pub l1_gas_price: u64,
    pub fair_l2_gas_price: u64,
    pub fee_account: AccountAddress,
    pub enforced_base_fee: Option<u64>,
    pub first_l2_block: FirstSubBlock,
}

/// The chain-level descriptor as a function of its inputs.
pub open spec fn spec_chain_config(
    base_system_contracts: ResolvedContracts,
    validation_gas_limit: u32,
    protocol_version: u16,
    chain_id: u64,
) -> ChainExecutionConfig {
    ChainExecutionConfig {
        porter_available: PORTER_AVAILABLE,
        version: protocol_version,
        base_system_contracts,
        gas_limit: BATCH_GAS_CEILING,
        execution_mode: ExecutionMode::VerifyExecute,
        default_validation_gas_limit: validation_gas_limit,
        chain_id,
    }
}

/// The execution-level descriptor as a function of its inputs.  The previous
/// batch hash is recorded only when it is non-zero: the genesis batch has no
/// predecessor, and the zero hash stands for its absence.
pub open spec fn spec_batch_params(
    batch_number: u32,
    fee_account: AccountAddress,
    batch_timestamp: u64,
    previous_batch_hash: BlockHash,
    l1_gas_price: u64,
    fair_l2_gas_price: u64,
    first_sub_block_number: u32,
    prev_sub_block_hash: BlockHash,
    virtual_blocks: u32,
) -> BatchExecutionParams {
    BatchExecutionParams {
        previous_batch_hash: if previous_batch_hash.spec_is_zero() {
            None
        } else {
            Some(previous_batch_hash)
        },
        number: batch_number,
        timestamp: batch_timestamp,
        l1_gas_price,
        fair_l2_gas_price,
        fee_account,
        enforced_base_fee: None,
        first_l2_block: FirstSubBlock {
            number: first_sub_block_number,
            timestamp: batch_timestamp,
            prev_block_hash: prev_sub_block_hash,
            max_virtual_blocks_to_create: virtual_blocks,
        },
    }
}

/// Returns the parameters required to configure the executor for the next
/// batch.  Pure: every field of the result is pinned to the inputs, with no
/// clock or store dependence.
pub fn l1_batch_params(
    batch_number: u32,
    fee_account: AccountAddress,
    batch_timestamp: u64,
    previous_batch_hash: BlockHash,
    l1_gas_price: u64,
    fair_l2_gas_price: u64,
    first_sub_block_number: u32,
    prev_sub_block_hash: BlockHash,
    base_system_contracts: ResolvedContracts,
    validation_gas_limit: u32,
    protocol_version: u16,
    virtual_blocks: u32,
    chain_id: u64,
) -> (r: (ChainExecutionConfig, BatchExecutionParams))
    ensures
        r.0 == spec_chain_config(
            base_system_contracts,
            validation_gas_limit,
            protocol_version,
            chain_id,
        ),
        r.1 == spec_batch_params(
            batch_number,
            fee_account,
            batch_timestamp,
            previous_batch_hash,
            l1_gas_price,
            fair_l2_gas_price,
            first_sub_block_number,
            prev_sub_block_hash,
            virtual_blocks,
        ),
        r.1.first_l2_block.number == first_sub_block_number,
        r.1.first_l2_block.timestamp == batch_timestamp,
        r.1.enforced_base_fee is None,
        r.1.previous_batch_hash is Some <==> !previous_batch_hash.spec_is_zero(),
        r.1.previous_batch_hash matches Some(h) ==> h == previous_batch_hash,
{
    let previous = if previous_batch_hash.is_zero() {
        None
    } else {
        Some(previous_batch_hash)
    };
    (
        ChainExecutionConfig {
            porter_available: PORTER_AVAILABLE,
            version: protocol_version,
            base_system_contracts,
            gas_limit: BATCH_GAS_CEILING,
            execution_mode: ExecutionMode::VerifyExecute,
            default_validation_gas_limit: validation_gas_limit,
            chain_id,
        },
        BatchExecutionParams {
            previous_batch_hash: previous,
            number: batch_number,
            timestamp: batch_timestamp,
            l1_gas_price,
            fair_l2_gas_price,
            fee_account,
            enforced_base_fee: None,
            first_l2_block: FirstSubBlock {
                number: first_sub_block_number,
                timestamp: batch_timestamp,
                prev_block_hash: prev_sub_block_hash,
                max_virtual_blocks_to_create: virtual_blocks,
            },
        },
    )
}

/// Law: the builder is pure.  Two environment pairs derived from identical
/// inputs are structurally identical.
pub proof fn lemma_builder_deterministic(
    r1: (ChainExecutionConfig, BatchExecutionParams),
    r2: (ChainExecutionConfig, BatchExecutionParams),
    batch_number: u32,
    fee_account: AccountAddress,
    batch_timestamp: u64,
    previous_batch_hash: BlockHash,
    l1_gas_price: u64,
    fair_l2_gas_price: u64,
    first_sub_block_number: u32,
    prev_sub_block_hash: BlockHash,
    base_system_contracts: ResolvedContracts,
    validation_gas_limit: u32,
    protocol_version: u16,
    virtual_blocks: u32,
    chain_id: u64,
)
    requires
        r1.0 == spec_chain_config(
            base_system_contracts,
            validation_gas_limit,
            protocol_version,
            chain_id,
        ),
        r2.0 == spec_chain_config(
            base_system_contracts,
            validation_gas_limit,
            protocol_version,
            chain_id,
        ),
        r1.1 == spec_batch_params(
            batch_number,
            fee_account,
            batch_timestamp,
            previous_batch_hash,
            l1_gas_price,
            fair_l2_gas_price,
            first_sub_block_number,
            prev_sub_block_hash,
            virtual_blocks,
        ),
        r2.1 == spec_batch_params(
            batch_number,
            fee_account,
            batch_timestamp,
            previous_batch_hash,
            l1_gas_price,
            fair_l2_gas_price,
            first_sub_block_number,
            prev_sub_block_hash,
            virtual_blocks,
        ),
    ensures
        r1 == r2,
{
}

} // verus!
