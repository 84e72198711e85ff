use sequencer_core::loader::{
    advance, begin, replay, FatalError, LoaderConfig, LoaderOutcome, LoaderState, StoreRequest,
    StoreResponse,
};
use sequencer_core::types::{
    AccountAddress, BlockHash, ContractCode, PersistedBatchInitParams, ResolvedContracts,
    SubBlockHeader,
};

fn hash_of_batch_5() -> BlockHash {
    BlockHash { hi: 5, lo: 5 }
}

fn hash_of_sub_block_41() -> BlockHash {
    BlockHash { hi: 41, lo: 41 }
}

fn init_params_for_batch_6(timestamp: u64) -> PersistedBatchInitParams {
    PersistedBatchInitParams {
        number: 6,
        timestamp,
        fee_account: AccountAddress { hi: 1, lo: 2 },
        base_fee_per_gas: 250,
        l1_gas_price: 31,
        l2_fair_gas_price: 41,
        bootloader_hash: BlockHash { hi: 11, lo: 12 },
        default_account_hash: BlockHash { hi: 13, lo: 14 },
        protocol_version: 17,
    }
}

fn contracts() -> ResolvedContracts {
    ResolvedContracts {
        bootloader: ContractCode {
            hash: BlockHash { hi: 11, lo: 12 },
            code: vec![0x01],
        },
        default_account: ContractCode {
            hash: BlockHash { hi: 13, lo: 14 },
            code: vec![0x02],
        },
    }
}

/// The store of the end-to-end scenario: batch 5 sealed with last sub-block
/// #41, virtual-block count 3 recorded for sub-block #42.
fn sealed_store(request: &StoreRequest, init_timestamp: u64) -> StoreResponse {
    match request {
        StoreRequest::GetBatchInitParams { batch: 6 } => {
            StoreResponse::BatchInitParams(Some(init_params_for_batch_6(init_timestamp)))
        }
        StoreRequest::GetSubBlockRange { batch: 5 } => {
            StoreResponse::SubBlockRange(Some((35, 41)))
        }
        StoreRequest::GetVirtualBlockCount { sub_block: 42 } => {
            StoreResponse::VirtualBlockCount(Some(3))
        }
        StoreRequest::GetPreviousBatchHashAndTimestamp { batch: 5 } => {
            StoreResponse::PreviousBatchHashAndTimestamp(Some((hash_of_batch_5(), 1000)))
        }
        StoreRequest::GetSubBlockHeader { sub_block: 41 } => {
            StoreResponse::SubBlockHeader(Some(SubBlockHeader {
                number: 41,
                timestamp: 1000,
                hash: hash_of_sub_block_41(),
            }))
        }
        StoreRequest::GetResolvedContracts { .. } => StoreResponse::Contracts(contracts()),
        other => panic!("unexpected request {other:?}"),
    }
}

fn run_loader(
    cfg: &LoaderConfig,
    store: impl Fn(&StoreRequest) -> StoreResponse,
) -> LoaderOutcome {
    let (mut state, mut request) = begin(cfg);
    loop {
        match advance(cfg, state, store(&request)) {
            LoaderOutcome::Next { state: s, request: r } => {
                state = s;
                request = r;
            }
            LoaderOutcome::Wait { state: s, request: r } => {
                // A real driver sleeps one polling tick here.
                state = s;
                request = r;
            }
            outcome => return outcome,
        }
    }
}

fn config_for_batch_6() -> LoaderConfig {
    LoaderConfig {
        batch_number: 6,
        validation_gas_limit: 300_000,
        chain_id: 270,
        poll_attempts: 3,
    }
}

#[test]
fn end_to_end_load_for_batch_6() {
    let cfg = config_for_batch_6();
    let outcome = run_loader(&cfg, |req| sealed_store(req, 1001));
    match outcome {
        LoaderOutcome::Ready { config, params } => {
            assert_eq!(config.version, 17);
            assert_eq!(config.chain_id, 270);
            assert_eq!(config.default_validation_gas_limit, 300_000);
            assert_eq!(config.base_system_contracts, contracts());
            assert_eq!(params.number, 6);
            assert!(params.timestamp > 1000);
            assert_eq!(params.timestamp, 1001);
            assert_eq!(params.previous_batch_hash, Some(hash_of_batch_5()));
            assert_eq!(params.first_l2_block.number, 42);
            assert_eq!(params.first_l2_block.prev_block_hash, hash_of_sub_block_41());
            assert_eq!(params.first_l2_block.max_virtual_blocks_to_create, 3);
        }
        other => panic!("expected a ready environment, got {other:?}"),
    }
}

#[test]
fn no_init_params_means_nothing_to_load() {
    let cfg = config_for_batch_6();
    let outcome = run_loader(&cfg, |req| match req {
        StoreRequest::GetBatchInitParams { batch: 6 } => StoreResponse::BatchInitParams(None),
        other => panic!("unexpected request {other:?}"),
    });
    assert_eq!(outcome, LoaderOutcome::NothingToLoad);
}

#[test]
fn no_pending_sub_block_means_nothing_to_load() {
    let cfg = config_for_batch_6();
    let outcome = run_loader(&cfg, |req| match req {
        StoreRequest::GetVirtualBlockCount { sub_block: 42 } => {
            StoreResponse::VirtualBlockCount(None)
        }
        other => sealed_store(other, 1001),
    });
    assert_eq!(outcome, LoaderOutcome::NothingToLoad);
}

#[test]
fn non_monotonic_timestamp_is_fatal() {
    let cfg = config_for_batch_6();
    // Candidate timestamp equal to the previous batch's: must fail fatally.
    let outcome = run_loader(&cfg, |req| sealed_store(req, 1000));
    assert_eq!(
        outcome,
        LoaderOutcome::Fatal {
            error: FatalError::NonMonotonicTimestamps {
                prev_timestamp: 1000,
                batch_timestamp: 1000,
            }
        }
    );
}

#[test]
fn previous_batch_hash_wait_is_bounded() {
    let cfg = config_for_batch_6();
    let polls = std::cell::Cell::new(0u64);
    let outcome = run_loader(&cfg, |req| match req {
        StoreRequest::GetPreviousBatchHashAndTimestamp { batch: 5 } => {
            polls.set(polls.get() + 1);
            StoreResponse::PreviousBatchHashAndTimestamp(None)
        }
        other => sealed_store(other, 1001),
    });
    assert_eq!(polls.get(), 3);
    assert_eq!(
        outcome,
        LoaderOutcome::Fatal {
            error: FatalError::PreviousBatchHashUnavailable { batch: 5 }
        }
    );
}

#[test]
fn previous_batch_hash_appearing_late_is_used() {
    let cfg = config_for_batch_6();
    let polls = std::cell::Cell::new(0u64);
    let outcome = run_loader(&cfg, |req| match req {
        StoreRequest::GetPreviousBatchHashAndTimestamp { batch: 5 } => {
            polls.set(polls.get() + 1);
            if polls.get() < 3 {
                StoreResponse::PreviousBatchHashAndTimestamp(None)
            } else {
                StoreResponse::PreviousBatchHashAndTimestamp(Some((hash_of_batch_5(), 1000)))
            }
        }
        other => sealed_store(other, 1001),
    });
    match outcome {
        LoaderOutcome::Ready { params, .. } => {
            assert_eq!(params.previous_batch_hash, Some(hash_of_batch_5()));
        }
        other => panic!("expected a ready environment, got {other:?}"),
    }
}

#[test]
fn missing_sub_block_range_is_fatal() {
    let cfg = config_for_batch_6();
    let outcome = run_loader(&cfg, |req| match req {
        StoreRequest::GetSubBlockRange { batch: 5 } => StoreResponse::SubBlockRange(None),
        other => sealed_store(other, 1001),
    });
    assert_eq!(
        outcome,
        LoaderOutcome::Fatal {
            error: FatalError::MissingSubBlockRange { batch: 5 }
        }
    );
}

#[test]
fn missing_previous_sub_block_header_is_fatal() {
    let cfg = config_for_batch_6();
    let outcome = run_loader(&cfg, |req| match req {
        StoreRequest::GetSubBlockHeader { sub_block: 41 } => StoreResponse::SubBlockHeader(None),
        other => sealed_store(other, 1001),
    });
    assert_eq!(
        outcome,
        LoaderOutcome::Fatal {
            error: FatalError::MissingPrevSubBlockHeader { sub_block: 41 }
        }
    );
}

#[test]
fn replay_is_deterministic() {
    let cfg = config_for_batch_6();
    let responses = vec![
        StoreResponse::BatchInitParams(Some(init_params_for_batch_6(1001))),
        StoreResponse::SubBlockRange(Some((35, 41))),
        StoreResponse::VirtualBlockCount(Some(3)),
        // The previous batch hash appears only on the second poll.
        StoreResponse::PreviousBatchHashAndTimestamp(None),
        StoreResponse::PreviousBatchHashAndTimestamp(Some((hash_of_batch_5(), 1000))),
        StoreResponse::SubBlockHeader(Some(SubBlockHeader {
            number: 41,
            timestamp: 1000,
            hash: hash_of_sub_block_41(),
        })),
        StoreResponse::Contracts(contracts()),
    ];
    let first = replay(&cfg, responses.clone()).expect("the answers reach a terminal outcome");
    let second = replay(&cfg, responses).expect("the answers reach a terminal outcome");
    assert_eq!(first, second);
    match first {
        LoaderOutcome::Ready { params, .. } => {
            assert_eq!(params.number, 6);
            assert_eq!(params.first_l2_block.number, 42);
        }
        other => panic!("expected a ready environment, got {other:?}"),
    }
}

#[test]
fn replay_without_answers_decides_nothing() {
    let cfg = config_for_batch_6();
    assert_eq!(replay(&cfg, Vec::new()), None);
}

#[test]
fn begin_asks_for_the_batch_init_params() {
    let cfg = config_for_batch_6();
    let (state, request) = begin(&cfg);
    assert_eq!(state, LoaderState::AwaitInitParams);
    assert_eq!(request, StoreRequest::GetBatchInitParams { batch: 6 });
}
