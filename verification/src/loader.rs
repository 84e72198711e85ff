//! Batch parameter loader: the decision core of preparing the next batch's
//! execution environment.
//!
//! The loader is a step machine.  [`begin`] names the first store read;
//! every answer is handed back to [`advance`], which either asks for the
//! next read ([`LoaderOutcome::Next`]), asks the caller to sleep one polling
//! tick and repeat a read ([`LoaderOutcome::Wait`]), reports that there is
//! nothing to sequence yet ([`LoaderOutcome::NothingToLoad`]), fails fatally
//! ([`LoaderOutcome::Fatal`]), or returns the finished environment pair
//! ([`LoaderOutcome::Ready`]).  The caller performs the reads and the
//! sleeps; every decision in between is made, and verified, here.

use vstd::prelude::*;
use vstd::pervasive::unreached;
use crate::env::{
    spec_batch_params, spec_chain_config, l1_batch_params, BatchExecutionParams,
    ChainExecutionConfig,
};
use crate::types::{BlockHash, PersistedBatchInitParams, ResolvedContracts, SubBlockHeader};

verus! {

/// Fixed inputs of one load attempt.
#[derive(Clone, Copy, Debug, PartialEq, Eq)]
pub struct LoaderConfig {
    /// Number of the batch whose environment is being prepared.
    pub batch_number: u32,
    /// Per-transaction validation gas ceiling.
    pub validation_gas_limit: u32,
    /// Chain identifier.
    pub chain_id: u64,
    /// How many polling ticks the bounded wait for the previous batch hash
    /// may take before its absence becomes fatal.
    pub poll_attempts: u64,
}

/// The loader prepares a batch that has a predecessor, and polls at least
/// once.
pub open spec fn wf_config(cfg: LoaderConfig) -> bool {
    &&& cfg.batch_number >= 1
    &&& cfg.poll_attempts >= 1
}

/// One read the loader asks its caller to perform against the store.
#[derive(Clone, Copy, Debug, PartialEq, Eq)]
pub enum StoreRequest {
    GetBatchInitParams { batch: u32 },
    GetSubBlockRange { batch: u32 },
    GetVirtualBlockCount { sub_block: u32 },
    GetPreviousBatchHashAndTimestamp { batch: u32 },
    GetSubBlockHeader { sub_block: u32 },
    GetResolvedContracts { bootloader_hash: BlockHash, default_account_hash: BlockHash },
}

/// The store's answer to the matching [`StoreRequest`].
#[derive(Clone, Debug, PartialEq, Eq)]
pub enum StoreResponse {
    BatchInitParams(Option<PersistedBatchInitParams>),
    SubBlockRange(Option<(u32, u32)>),
    VirtualBlockCount(Option<u32>),
    PreviousBatchHashAndTimestamp(Option<(BlockHash, u64)>),
    SubBlockHeader(Option<SubBlockHeader>),
    Contracts(ResolvedContracts),
}

/// Where the loader stands between two store reads, carrying every fact
/// gathered so far.
#[derive(Clone, Copy, Debug, PartialEq, Eq)]
pub enum LoaderState {
    AwaitInitParams,
    AwaitSubBlockRange {
        init: PersistedBatchInitParams,
    },
    AwaitVirtualBlocks {
        init: PersistedBatchInitParams,
        pending_sub_block: u32,
    },
    AwaitPrevBatch {
        init: PersistedBatchInitParams,
        pending_sub_block: u32,
        virtual_blocks: u32,
        attempts_left: u64,
    },
    AwaitPrevSubBlockHeader {
        init: PersistedBatchInitParams,
        pending_sub_block: u32,
        virtual_blocks: u32,
        previous_batch_hash: BlockHash,
    },
    AwaitContracts {
        init: PersistedBatchInitParams,
        pending_sub_block: u32,
        virtual_blocks: u32,
        previous_batch_hash: BlockHash,
        prev_sub_block_hash: BlockHash,
    },
}

/// Conditions under which sequencing must stop rather than produce a batch
/// the downstream verifier would reject.  Distinct from store failures,
/// which the caller propagates, and from "nothing to sequence yet".
#[derive(Clone, Copy, Debug, PartialEq, Eq)]
pub enum FatalError {
    /// The previous batch has no recorded sub-block range although its init
    /// params exist.
    MissingSubBlockRange { batch: u32 },
    /// The previous batch's hash never appeared within the wait ceiling.
    PreviousBatchHashUnavailable { batch: u32 },
    /// The candidate batch timestamp does not exceed the previous batch's.
    NonMonotonicTimestamps { prev_timestamp: u64, batch_timestamp: u64 },
    /// The sub-block right before the pending one has no header although one
    /// is structurally required.
    MissingPrevSubBlockHeader { sub_block: u32 },
}

/// What one loader step decides.
#[derive(Clone, Debug, PartialEq, Eq)]
pub enum LoaderOutcome {
    /// Perform `request` now and feed the answer back.
    Next { state: LoaderState, request: StoreRequest },
    /// Sleep one polling tick, then perform `request` and feed the answer
    /// back.
    Wait { state: LoaderState, request: StoreRequest },
    /// Nothing to sequence yet; not an error.
    NothingToLoad,
    /// The finished environment pair.
    Ready { config: ChainExecutionConfig, params: BatchExecutionParams },
    /// Sequencing must stop.
    Fatal { error: FatalError },
}

/// Numeric facts every reachable state satisfies.
pub open spec fn wf_state(cfg: LoaderConfig, state: LoaderState) -> bool {
    match state {
        LoaderState::AwaitInitParams => true,
        LoaderState::AwaitSubBlockRange { .. } => true,
        LoaderState::AwaitVirtualBlocks { pending_sub_block, .. } => pending_sub_block >= 1,
        LoaderState::AwaitPrevBatch { pending_sub_block, attempts_left, .. } => {
            &&& pending_sub_block >= 1
            &&& 1 <= attempts_left <= cfg.poll_attempts
        },
        LoaderState::AwaitPrevSubBlockHeader { pending_sub_block, .. } => pending_sub_block >= 1,
        LoaderState::AwaitContracts { pending_sub_block, .. } => pending_sub_block >= 1,
    }
}

/// The response answers the read the state is waiting for, and its numbers
/// leave room for the arithmetic the step performs.
pub open spec fn response_fits(state: LoaderState, response: StoreResponse) -> bool {
    match state {
        LoaderState::AwaitInitParams => response is BatchInitParams,
        LoaderState::AwaitSubBlockRange { .. } => {
            &&& response is SubBlockRange
            &&& response matches StoreResponse::SubBlockRange(Some(range)) ==> range.1 < u32::MAX
        },
        LoaderState::AwaitVirtualBlocks { .. } => response is VirtualBlockCount,
        LoaderState::AwaitPrevBatch { .. } => response is PreviousBatchHashAndTimestamp,
        LoaderState::AwaitPrevSubBlockHeader { .. } => response is SubBlockHeader,
        LoaderState::AwaitContracts { .. } => response is Contracts,
    }
}

/// The loader's transition function: what one step decides, given the
/// configuration, the waiting state and the store's answer.
pub open spec fn spec_advance(
    cfg: LoaderConfig,
    state: LoaderState,
    response: StoreResponse,
) -> LoaderOutcome
    recommends
        wf_config(cfg),
        wf_state(cfg, state),
        response_fits(state, response),
{
    match state {
        LoaderState::AwaitInitParams => match response {
            StoreResponse::BatchInitParams(None) => LoaderOutcome::NothingToLoad,
            StoreResponse::BatchInitParams(Some(init)) => LoaderOutcome::Next {
                state: LoaderState::AwaitSubBlockRange { init },
                request: StoreRequest::GetSubBlockRange {
                    batch: (cfg.batch_number - 1) as u32,
                },
            },
            _ => arbitrary(),
        },
        LoaderState::AwaitSubBlockRange { init } => match response {
            StoreResponse::SubBlockRange(None) => LoaderOutcome::Fatal {
                error: FatalError::MissingSubBlockRange { batch: (cfg.batch_number - 1) as u32 },
            },
            StoreResponse::SubBlockRange(Some(range)) => LoaderOutcome::Next {
                state: LoaderState::AwaitVirtualBlocks {
                    init,
                    pending_sub_block: (range.1 + 1) as u32,
                },
                request: StoreRequest::GetVirtualBlockCount {
                    sub_block: (range.1 + 1) as u32,
                },
            },
            _ => arbitrary(),
        },
        LoaderState::AwaitVirtualBlocks { init, pending_sub_block } => match response {
            StoreResponse::VirtualBlockCount(None) => LoaderOutcome::NothingToLoad,
            StoreResponse::VirtualBlockCount(Some(virtual_blocks)) => LoaderOutcome::Next {
                state: LoaderState::AwaitPrevBatch {
                    init,
                    pending_sub_block,
                    virtual_blocks,
                    attempts_left: cfg.poll_attempts,
                },
                request: StoreRequest::GetPreviousBatchHashAndTimestamp {
                    batch: (cfg.batch_number - 1) as u32,
                },
            },
            _ => arbitrary(),
        },
        LoaderState::AwaitPrevBatch { init, pending_sub_block, virtual_blocks, attempts_left } => {
            match response {
                StoreResponse::PreviousBatchHashAndTimestamp(None) => if attempts_left > 1 {
                    LoaderOutcome::Wait {
                        state: LoaderState::AwaitPrevBatch {
                            init,
                            pending_sub_block,
                            virtual_blocks,
                            attempts_left: (attempts_left - 1) as u64,
                        },
                        request: StoreRequest::GetPreviousBatchHashAndTimestamp {
                            batch: (cfg.batch_number - 1) as u32,
                        },
                    }
                } else {
                    LoaderOutcome::Fatal {
                        error: FatalError::PreviousBatchHashUnavailable {
                            batch: (cfg.batch_number - 1) as u32,
                        },
                    }
                },
                StoreResponse::PreviousBatchHashAndTimestamp(Some(hash_and_ts)) => {
                    if hash_and_ts.1 >= init.timestamp {
                        LoaderOutcome::Fatal {
                            error: FatalError::NonMonotonicTimestamps {
                                prev_timestamp: hash_and_ts.1,
                                batch_timestamp: init.timestamp,
                            },
                        }
                    } else {
                        LoaderOutcome::Next {
                            state: LoaderState::AwaitPrevSubBlockHeader {
                                init,
                                pending_sub_block,
                                virtual_blocks,
                                previous_batch_hash: hash_and_ts.0,
                            },
                            request: StoreRequest::GetSubBlockHeader {
                                sub_block: (pending_sub_block - 1) as u32,
                            },
                        }
                    }
                },
                _ => arbitrary(),
            }
        },
        LoaderState::AwaitPrevSubBlockHeader {
            init,
            pending_sub_block,
            virtual_blocks,
            previous_batch_hash,
        } => match response {
            StoreResponse::SubBlockHeader(None) => LoaderOutcome::Fatal {
                error: FatalError::MissingPrevSubBlockHeader {
                    sub_block: (pending_sub_block - 1) as u32,
                },
            },
            StoreResponse::SubBlockHeader(Some(header)) => LoaderOutcome::Next {
                state: LoaderState::AwaitContracts {
                    init,
                    pending_sub_block,
                    virtual_blocks,
                    previous_batch_hash,
                    prev_sub_block_hash: header.hash,
                },
                request: StoreRequest::GetResolvedContracts {
                    bootloader_hash: init.bootloader_hash,
                    default_account_hash: init.default_account_hash,
                },
            },
            _ => arbitrary(),
        },
        LoaderState::AwaitContracts {
            init,
            pending_sub_block,
            virtual_blocks,
            previous_batch_hash,
            prev_sub_block_hash,
        } => match response {
            StoreResponse::Contracts(contracts) => LoaderOutcome::Ready {
                config: spec_chain_config(
                    contracts,
                    cfg.validation_gas_limit,
                    init.protocol_version,
                    cfg.chain_id,
                ),
                params: spec_batch_params(
                    cfg.batch_number,
                    init.fee_account,
                    init.timestamp,
                    previous_batch_hash,
                    init.l1_gas_price,
                    init.l2_fair_gas_price,
                    pending_sub_block,
                    prev_sub_block_hash,
                    virtual_blocks,
                ),
            },
            _ => arbitrary(),
        },
    }
}

/// Upper bound on the store reads a load attempt still performs from this
/// state on.  Every step strictly decreases it, so an attempt ends after at
/// most `5 + cfg.poll_attempts` reads: the bounded wait has a finite
/// ceiling and can never stall the sequencer indefinitely.
pub open spec fn spec_steps_left(cfg: LoaderConfig, state: LoaderState) -> int {
    match state {
        LoaderState::AwaitInitParams => 5 + cfg.poll_attempts,
        LoaderState::AwaitSubBlockRange { .. } => 4 + cfg.poll_attempts,
        LoaderState::AwaitVirtualBlocks { .. } => 3 + cfg.poll_attempts,
        LoaderState::AwaitPrevBatch { attempts_left, .. } => 2 + attempts_left,
        LoaderState::AwaitPrevSubBlockHeader { .. } => 2,
        LoaderState::AwaitContracts { .. } => 1,
    }
}

/// Opens a load attempt: the loader first asks for the batch's own
/// previously decided init params.
pub fn begin(cfg: &LoaderConfig) -> (r: (LoaderState, StoreRequest))
    requires
        wf_config(*cfg),
    ensures
        r.0 == LoaderState::AwaitInitParams,
        r.1 == (StoreRequest::GetBatchInitParams { batch: cfg.batch_number }),
        wf_state(*cfg, r.0),
{
    (
        LoaderState::AwaitInitParams,
        StoreRequest::GetBatchInitParams { batch: cfg.batch_number },
    )
}

/// Takes one step: decides from the store's answer what to do next.
///
/// The outcome is exactly [`spec_advance`].  In particular an absent init
/// row means nothing is ready to sequence, and a previous-batch timestamp
/// at or above the candidate's is fatal, never returned as an environment.
pub fn advance(cfg: &LoaderConfig, state: LoaderState, response: StoreResponse) -> (r:
    LoaderOutcome)
    requires
        wf_config(*cfg),
        wf_state(*cfg, state),
        response_fits(state, response),
    ensures
        r == spec_advance(*cfg, state, response),
        r matches LoaderOutcome::Next { state: s, .. } ==> wf_state(*cfg, s)
            && spec_steps_left(*cfg, s) < spec_steps_left(*cfg, state),
        r matches LoaderOutcome::Wait { state: s, .. } ==> wf_state(*cfg, s)
            && spec_steps_left(*cfg, s) < spec_steps_left(*cfg, state),
        state is AwaitInitParams ==> ((response matches StoreResponse::BatchInitParams(None))
            ==> r is NothingToLoad),
        state matches LoaderState::AwaitPrevBatch { init, .. } ==> (response matches
            StoreResponse::PreviousBatchHashAndTimestamp(Some(hash_and_ts)) ==> (hash_and_ts.1
            >= init.timestamp ==> r == (LoaderOutcome::Fatal {
            error: FatalError::NonMonotonicTimestamps {
                prev_timestamp: hash_and_ts.1,
                batch_timestamp: init.timestamp,
            },
        }))),
{
    match state {
        LoaderState::AwaitInitParams => match response {
            StoreResponse::BatchInitParams(None) => LoaderOutcome::NothingToLoad,
            StoreResponse::BatchInitParams(Some(init)) => LoaderOutcome::Next {
                state: LoaderState::AwaitSubBlockRange { init },
                request: StoreRequest::GetSubBlockRange { batch: cfg.batch_number - 1 },
            },
            _ => unreached(),
        },
        LoaderState::AwaitSubBlockRange { init } => match response {
            StoreResponse::SubBlockRange(None) => LoaderOutcome::Fatal {
                error: FatalError::MissingSubBlockRange { batch: cfg.batch_number - 1 },
            },
            StoreResponse::SubBlockRange(Some(range)) => {
                let pending_sub_block = range.1 + 1;
                LoaderOutcome::Next {
                    state: LoaderState::AwaitVirtualBlocks { init, pending_sub_block },
                    request: StoreRequest::GetVirtualBlockCount { sub_block: pending_sub_block },
                }
            },
            _ => unreached(),
        },
        LoaderState::AwaitVirtualBlocks { init, pending_sub_block } => match response {
            StoreResponse::VirtualBlockCount(None) => LoaderOutcome::NothingToLoad,
            StoreResponse::VirtualBlockCount(Some(virtual_blocks)) => LoaderOutcome::Next {
                state: LoaderState::AwaitPrevBatch {
                    init,
                    pending_sub_block,
                    virtual_blocks,
                    attempts_left: cfg.poll_attempts,
                },
                request: StoreRequest::GetPreviousBatchHashAndTimestamp {
                    batch: cfg.batch_number - 1,
                },
            },
            _ => unreached(),
        },
        LoaderState::AwaitPrevBatch { init, pending_sub_block, virtual_blocks, attempts_left } => {
            match response {
                StoreResponse::PreviousBatchHashAndTimestamp(None) => if attempts_left > 1 {
                    LoaderOutcome::Wait {
                        state: LoaderState::AwaitPrevBatch {
                            init,
                            pending_sub_block,
                            virtual_blocks,
                            attempts_left: attempts_left - 1,
                        },
                        request: StoreRequest::GetPreviousBatchHashAndTimestamp {
                            batch: cfg.batch_number - 1,
                        },
                    }
                } else {
                    LoaderOutcome::Fatal {
                        error: FatalError::PreviousBatchHashUnavailable {
                            batch: cfg.batch_number - 1,
                        },
                    }
                },
                StoreResponse::PreviousBatchHashAndTimestamp(Some(hash_and_ts)) => {
                    let (previous_batch_hash, prev_timestamp) = hash_and_ts;
                    if prev_timestamp >= init.timestamp {
                        LoaderOutcome::Fatal {
                            error: FatalError::NonMonotonicTimestamps {
                                prev_timestamp,
                                batch_timestamp: init.timestamp,
                            },
                        }
                    } else {
                        LoaderOutcome::Next {
                            state: LoaderState::AwaitPrevSubBlockHeader {
                                init,
                                pending_sub_block,
                                virtual_blocks,
                                previous_batch_hash,
                            },
                            request: StoreRequest::GetSubBlockHeader {
                                sub_block: pending_sub_block - 1,
                            },
                        }
                    }
                },
                _ => unreached(),
            }
        },
        LoaderState::AwaitPrevSubBlockHeader {
            init,
            pending_sub_block,
            virtual_blocks,
            previous_batch_hash,
        } => match response {
            StoreResponse::SubBlockHeader(None) => LoaderOutcome::Fatal {
                error: FatalError::MissingPrevSubBlockHeader { sub_block: pending_sub_block - 1 },
            },
            StoreResponse::SubBlockHeader(Some(header)) => LoaderOutcome::Next {
                state: LoaderState::AwaitContracts {
                    init,
                    pending_sub_block,
                    virtual_blocks,
                    previous_batch_hash,
                    prev_sub_block_hash: header.hash,
                },
                request: StoreRequest::GetResolvedContracts {
                    bootloader_hash: init.bootloader_hash,
                    default_account_hash: init.default_account_hash,
                },
            },
            _ => unreached(),
        },
        LoaderState::AwaitContracts {
            init,
            pending_sub_block,
            virtual_blocks,
            previous_batch_hash,
            prev_sub_block_hash,
        } => match response {
            StoreResponse::Contracts(contracts) => {
                let (config, params) = l1_batch_params(
                    cfg.batch_number,
                    init.fee_account,
                    init.timestamp,
                    previous_batch_hash,
                    init.l1_gas_price,
                    init.l2_fair_gas_price,
                    pending_sub_block,
                    prev_sub_block_hash,
                    contracts,
                    cfg.validation_gas_limit,
                    init.protocol_version,
                    virtual_blocks,
                    cfg.chain_id,
                );
                LoaderOutcome::Ready { config, params }
            },
            _ => unreached(),
        },
    }
}

/// A load attempt replayed over the answers a store gave, in order: the
/// terminal outcome, or `None` when the answers run out first.
pub open spec fn spec_run(
    cfg: LoaderConfig,
    state: LoaderState,
    responses: Seq<StoreResponse>,
) -> Option<LoaderOutcome>
    decreases responses.len(),
{
    if responses.len() == 0 {
        None
    } else {
        match spec_advance(cfg, state, responses[0]) {
            LoaderOutcome::Next { state: s, .. } => spec_run(cfg, s, responses.drop_first()),
            LoaderOutcome::Wait { state: s, .. } => spec_run(cfg, s, responses.drop_first()),
            outcome => Some(outcome),
        }
    }
}

/// Each answer in turn fits the state the loader has reached by then.
pub open spec fn spec_responses_fit(
    cfg: LoaderConfig,
    state: LoaderState,
    responses: Seq<StoreResponse>,
) -> bool
    decreases responses.len(),
{
    responses.len() == 0 || {
        &&& response_fits(state, responses[0])
        &&& match spec_advance(cfg, state, responses[0]) {
            LoaderOutcome::Next { state: s, .. } => spec_responses_fit(
                cfg,
                s,
                responses.drop_first(),
            ),
            LoaderOutcome::Wait { state: s, .. } => spec_responses_fit(
                cfg,
                s,
                responses.drop_first(),
            ),
            _ => true,
        }
    }
}

/// Replays a whole load attempt over answers already read from the store,
/// in the order they were given.  This is the deterministic re-derivation
/// that crash recovery rests on: the outcome is a function of the answers
/// alone.
pub fn replay(cfg: &LoaderConfig, responses: Vec<StoreResponse>) -> (r: Option<LoaderOutcome>)
    requires
        wf_config(*cfg),
        spec_responses_fit(*cfg, LoaderState::AwaitInitParams, responses@),
    ensures
        r == spec_run(*cfg, LoaderState::AwaitInitParams, responses@),
{
    let (mut state, _request) = begin(cfg);
    let mut remaining = responses;
    loop
        invariant
            wf_config(*cfg),
            wf_state(*cfg, state),
            spec_responses_fit(*cfg, state, remaining@),
            spec_run(*cfg, LoaderState::AwaitInitParams, responses@) == spec_run(
                *cfg,
                state,
                remaining@,
            ),
        decreases remaining@.len(),
    {
        if remaining.len() == 0 {
            return None;
        }
        let ghost before = remaining@;
        let response = remaining.remove(0);
        proof {
            assert(remaining@ =~= before.drop_first());
        }
        match advance(cfg, state, response) {
            LoaderOutcome::Next { state: s, .. } => {
                state = s;
            },
            LoaderOutcome::Wait { state: s, .. } => {
                state = s;
            },
            outcome => {
                return Some(outcome);
            },
        }
    }
}

/// Law: a load attempt is a function of the store's answers — replayed
/// twice over an unchanged sequence of answers, it ends in identical
/// outcomes.
pub proof fn lemma_load_deterministic(
    cfg: LoaderConfig,
    responses: Seq<StoreResponse>,
    r1: Option<LoaderOutcome>,
    r2: Option<LoaderOutcome>,
)
    requires
        r1 == spec_run(cfg, LoaderState::AwaitInitParams, responses),
        r2 == spec_run(cfg, LoaderState::AwaitInitParams, responses),
    ensures
        r1 == r2,
{
}

} // verus!
