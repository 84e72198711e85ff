//! Pending-state recovery: packages the batch left mid-sequencing by a
//! crash, so the executor can replay exactly what had been computed but not
//! yet sealed.
//!
//! At startup the caller drives the loader ([`crate::loader`]); when it ends
//! in [`LoaderOutcome::Ready`] the caller additionally reads every sub-block
//! after the last sealed one, with its transactions in submission order, and
//! hands both here.  Recovery itself is read-only: it decides and packages,
//! and writes nothing.

use vstd::prelude::*;
use vstd::pervasive::unreached;
use crate::env::{BatchExecutionParams, ChainExecutionConfig};
use crate::loader::LoaderOutcome;
use crate::types::SubBlockWithTxs;

verus! {

/// The packaged pending state handed to the executor at startup: the
/// environment pair of the batch in progress plus its unsealed sub-blocks.
#[derive(Clone, Debug, PartialEq, Eq)]
pub struct PendingRecoveryBundle {
    pub config: ChainExecutionConfig,
    pub params: BatchExecutionParams,
    pub sub_blocks: Vec<SubBlockWithTxs>,
}

/// The bundle as a function of its parts.
pub open spec fn spec_pending_bundle(
    config: ChainExecutionConfig,
    params: BatchExecutionParams,
    sub_blocks: Vec<SubBlockWithTxs>,
) -> PendingRecoveryBundle {
    PendingRecoveryBundle { config, params, sub_blocks }
}

/// Turns the loader's terminal outcome into the recovery result: nothing to
/// recover when there was nothing to load, otherwise the bundle, with the
/// unsealed sub-blocks exactly as read — none skipped, none repeated, none
/// reordered.
///
/// A fatal loader outcome must be handled by the caller before this point,
/// and `unsealed_sub_blocks` is what the store returned for the batch in
/// progress (empty when nothing was loaded).
pub fn load_pending_batch(
    outcome: LoaderOutcome,
    unsealed_sub_blocks: Vec<SubBlockWithTxs>,
) -> (r: Option<PendingRecoveryBundle>)
    requires
        outcome is NothingToLoad || outcome is Ready,
    ensures
        outcome is NothingToLoad ==> r is None,
        outcome matches LoaderOutcome::Ready { config, params } ==> r == Some(
            spec_pending_bundle(config, params, unsealed_sub_blocks),
        ),
        r is Some <==> outcome is Ready,
{
    match outcome {
        LoaderOutcome::NothingToLoad => None,
        LoaderOutcome::Ready { config, params } => Some(
            PendingRecoveryBundle { config, params, sub_blocks: unsealed_sub_blocks },
        ),
        _ => unreached(),
    }
}

/// Law: recovery is deterministic.  Two bundles assembled from identical
/// loaded environments and identical unsealed sub-block sequences — what two
/// recovery passes over an unchanged store produce — carry the same batch
/// number, the same sub-block count, the same transactions in the same
/// order, and are in fact identical.
pub proof fn lemma_recovery_idempotent(
    config1: ChainExecutionConfig,
    params1: BatchExecutionParams,
    sub_blocks1: Vec<SubBlockWithTxs>,
    config2: ChainExecutionConfig,
    params2: BatchExecutionParams,
    sub_blocks2: Vec<SubBlockWithTxs>,
    b1: PendingRecoveryBundle,
    b2: PendingRecoveryBundle,
)
    requires
        b1 == spec_pending_bundle(config1, params1, sub_blocks1),
        b2 == spec_pending_bundle(config2, params2, sub_blocks2),
        config1 == config2,
        params1 == params2,
        sub_blocks1 == sub_blocks2,
    ensures
        b1.params.number == b2.params.number,
        b1.sub_blocks@.len() == b2.sub_blocks@.len(),
        forall|i: int| 0 <= i < b1.sub_blocks@.len() ==> b1.sub_blocks@[i]
            == b2.sub_blocks@[i],
        b1 == b2,
{
}

} // verus!
