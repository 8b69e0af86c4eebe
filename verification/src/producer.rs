//! The block producer orchestrator: one production call resolves the
//! required DA height through the relayer adapter, sources the pool's
//! transactions for the target height, executes them, and hands back the
//! uncommitted result.  No retries happen here — every failure goes
//! straight to the caller, which owns retry policy.

use vstd::prelude::*;

use crate::executor::{ExecutorAdapter, UncommittedResult, production_outcome};
use crate::relayer::MaybeRelayerAdapter;
use crate::txpool::TxPoolAdapter;
use crate::types::{BlockHeight, Components, DaBlockHeight, HeaderTemplate, ProducerError,
    transactions_view};

verus! {

/// The production service: the three consumed ports, bound together at
/// process construction and shared immutably by every request.
pub struct BlockProducerService {
    /// Where transactions are sourced from.
    pub txpool: TxPoolAdapter,
    /// The execution adapter, holding the database view it reads.
    pub executor: ExecutorAdapter,
    /// The DA-height wait adapter.
    pub relayer: MaybeRelayerAdapter,
}

impl BlockProducerService {
    /// Produces the block at the given height: resolves the required DA
    /// height (failing fast on a configuration mismatch or an
    /// unsynchronized relayer), sources the pool's transactions, and
    /// executes them without committing.  The caller owns the returned
    /// uncommitted result.  A production request is valid only when the
    /// database's latest committed height is exactly one below the
    /// requested height, and at most one production call per height may
    /// be in flight — both are the consensus driver's obligations.
    pub fn produce_and_execute_block(
        &self,
        height: BlockHeight,
        required_da_height: DaBlockHeight,
    ) -> (r: Result<UncommittedResult, ProducerError>)
        requires
            self.executor.database.wf(),
            height as int == self.executor.database.next_height(),
        ensures
            !self.relayer.wait_succeeds(required_da_height) && (self.relayer
                matches MaybeRelayerAdapter::Enabled { .. }) ==> r == Err::<
                UncommittedResult,
                ProducerError,
            >(
                ProducerError::SynchronizationError {
                    required: required_da_height,
                    finalized: self.relayer.resolved_da_height(),
                },
            ),
            !self.relayer.wait_succeeds(required_da_height) && self.relayer
                == MaybeRelayerAdapter::Disabled ==> r == Err::<UncommittedResult, ProducerError>(
                ProducerError::ConfigurationError,
            ),
            self.relayer.wait_succeeds(required_da_height) ==> production_outcome(
                self.executor.database.coins@,
                HeaderTemplate { height, da_height: self.relayer.resolved_da_height() },
                transactions_view(self.txpool.pending@),
                self.executor.utxo_validation_default,
                r,
            ),
            r matches Ok(res) ==> res.header.height == height && res.header.da_height
                >= required_da_height,
    {
        let da_height = match self.relayer.wait_for_at_least(required_da_height) {
            Ok(d) => d,
            Err(e) => {
                return Err(e);
            },
        };
        let source = self.txpool.get_source(height);
        let component = Components {
            header_to_produce: HeaderTemplate { height, da_height },
            transactions_source: source,
        };
        self.executor.execute_without_commit(component)
    }
}

/// The shared handle the surrounding process hands to every
/// request-handling task: the producer service is constructed once and
/// only read thereafter.
pub struct BlockProducerAdapter {
    /// The wrapped production service.
    pub block_producer: BlockProducerService,
}

impl BlockProducerAdapter {
    /// Wraps a constructed production service in the shared handle.
    pub fn new(block_producer: BlockProducerService) -> (r: Self)
        ensures
            r.block_producer == block_producer,
    {
        BlockProducerAdapter { block_producer }
    }
}

} // verus!
