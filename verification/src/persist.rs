//! Batch initial-params writer: computes the durable record of a batch's
//! decided parameters.  The caller persists the record (the write itself is
//! store I/O and happens outside the library) and must do so before any
//! sub-block of that batch is persisted, so that "init params but no
//! sub-blocks yet" is always the worst state a crash can leave behind.

use vstd::prelude::*;
use vstd::arithmetic::div_mod::lemma_multiply_divide_lt;
use crate::env::{BatchExecutionParams, ChainExecutionConfig};
use crate::types::PersistedBatchInitParams;

verus! {

/// L1 gas spent for publishing one byte of pubdata.
pub const L1_GAS_PER_PUBDATA_BYTE: u64 = 17;

/// Ceiling on the L2 gas charged per published byte.
pub const MAX_GAS_PER_PUBDATA_BYTE: u64 = 20_000;

/// Base fee derived from the two gas prices at decision time: the fair L2
/// price, raised if needed so that publishing a byte never costs more than
/// [`MAX_GAS_PER_PUBDATA_BYTE`] gas.
pub open spec fn spec_base_fee_per_gas(l1_gas_price: u64, fair_l2_gas_price: u64) -> int {
    let pubdata_eth_price = l1_gas_price * L1_GAS_PER_PUBDATA_BYTE;
    let gas_price_for_pubdata = (pubdata_eth_price + MAX_GAS_PER_PUBDATA_BYTE - 1)
        / (MAX_GAS_PER_PUBDATA_BYTE as int);
    if fair_l2_gas_price >= gas_price_for_pubdata {
        fair_l2_gas_price as int
    } else {
        gas_price_for_pubdata
    }
}

/// The base fee a batch will actually charge: the enforced override when one
/// is set, otherwise the derived fee.
pub open spec fn spec_effective_base_fee(params: BatchExecutionParams) -> int {
    match params.enforced_base_fee {
        Some(fee) => fee as int,
        None => spec_base_fee_per_gas(params.l1_gas_price, params.fair_l2_gas_price),
    }
}

/// Computes the derived base fee; the result always fits in 64 bits.
pub fn base_fee_per_gas(l1_gas_price: u64, fair_l2_gas_price: u64) -> (r: u64)
    ensures
        r == spec_base_fee_per_gas(l1_gas_price, fair_l2_gas_price),
{
    let pubdata_eth_price: u128 = (l1_gas_price as u128) * (L1_GAS_PER_PUBDATA_BYTE as u128);
    proof {
        assert(pubdata_eth_price <= (u64::MAX as u128) * (L1_GAS_PER_PUBDATA_BYTE as u128))
            by (nonlinear_arith)
            requires
                pubdata_eth_price == (l1_gas_price as u128) * (L1_GAS_PER_PUBDATA_BYTE as u128),
                l1_gas_price <= u64::MAX,
        ;
    }
    let gas_price_for_pubdata: u128 = (pubdata_eth_price + (MAX_GAS_PER_PUBDATA_BYTE as u128)
        - 1) / (MAX_GAS_PER_PUBDATA_BYTE as u128);
    proof {
        lemma_multiply_divide_lt(
            pubdata_eth_price + MAX_GAS_PER_PUBDATA_BYTE - 1,
            MAX_GAS_PER_PUBDATA_BYTE as int,
            0x1_0000_0000_0000_0000,
        );
    }
    let gas_price_for_pubdata_64: u64 = gas_price_for_pubdata as u64;
    if fair_l2_gas_price >= gas_price_for_pubdata_64 {
        fair_l2_gas_price
    } else {
        gas_price_for_pubdata_64
    }
}

/// The durable record as a function of the decided environment pair.
pub open spec fn spec_init_params_record(
    config: ChainExecutionConfig,
    params: BatchExecutionParams,
) -> PersistedBatchInitParams {
    PersistedBatchInitParams {
        number: params.number,
        timestamp: params.timestamp,
        fee_account: params.fee_account,
        base_fee_per_gas: spec_effective_base_fee(params) as u64,
        l1_gas_price: params.l1_gas_price,
        l2_fair_gas_price: params.fair_l2_gas_price,
        bootloader_hash: config.base_system_contracts.bootloader.hash,
        default_account_hash: config.base_system_contracts.default_account.hash,
        protocol_version: config.version,
    }
}

/// Builds the record of "this batch has started" from the just-decided
/// environment pair, computing the effective base fee per gas on the way.
pub fn batch_init_params_record(
    config: &ChainExecutionConfig,
    params: &BatchExecutionParams,
) -> (rec: PersistedBatchInitParams)
    ensures
        rec == spec_init_params_record(*config, *params),
        rec.number == params.number,
        rec.timestamp == params.timestamp,
        rec.base_fee_per_gas == spec_effective_base_fee(*params),
{
    let base_fee: u64 = match params.enforced_base_fee {
        Some(fee) => fee,
        None => base_fee_per_gas(params.l1_gas_price, params.fair_l2_gas_price),
    };
    PersistedBatchInitParams {
        number: params.number,
        timestamp: params.timestamp,
        fee_account: params.fee_account,
        base_fee_per_gas: base_fee,
        l1_gas_price: params.l1_gas_price,
        l2_fair_gas_price: params.fair_l2_gas_price,
        bootloader_hash: config.base_system_contracts.bootloader.hash,
        default_account_hash: config.base_system_contracts.default_account.hash,
        protocol_version: config.version,
    }
}

} // verus!
