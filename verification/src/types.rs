//! Core data model: heights, transactions, receipts, headers, blocks,
//! execution request bundles, and the error taxonomy.

use vstd::prelude::*;

verus! {

/// Position of a block in the chain; height `h + 1` is producible only
/// once height `h` is the latest committed height.
pub type BlockHeight = u32;

/// Synchronization progress against the external data-availability layer;
/// an independent counter, coupled to block production only through the
/// required-DA-height field of a production request.
pub type DaBlockHeight = u64;

/// A transaction in the model engine: it spends a list of coins (by id)
/// and creates a list of new coins (by id).  Engine validity rules are
/// judged by the execution adapter, not here.
#[derive(Clone, Debug, PartialEq, Eq)]
pub struct Transaction {
    /// Coin ids consumed, in order; under strict UTXO validation each must
    /// be live in the staged coin state at the moment it is spent.
    pub inputs: Vec<u64>,
    /// Coin ids created, in order, once all inputs are satisfied.
    pub outputs: Vec<u64>,
}

/// Mathematical view of a [`Transaction`]: both coin lists as sequences.
pub struct TransactionModel {
    pub inputs: Seq<u64>,
    pub outputs: Seq<u64>,
}

impl View for Transaction {
    type V = TransactionModel;

    open spec fn view(&self) -> TransactionModel {
        TransactionModel { inputs: self.inputs@, outputs: self.outputs@ }
    }
}

/// The views of a whole transaction list.
pub open spec fn transactions_view(txs: Seq<Transaction>) -> Seq<TransactionModel> {
    txs.map_values(|t: Transaction| t@)
}

/// One execution side-effect record.  Both the production and the dry-run
/// path emit, per transaction, one receipt for every coin it spends and
/// one for every coin it creates, in transaction order.
#[derive(Clone, Copy, Debug, PartialEq, Eq, Structural)]
pub enum Receipt {
    /// A coin was consumed.
    Spend { coin: u64 },
    /// A coin was created.
    Create { coin: u64 },
}

/// Header of a produced block.
#[derive(Clone, Copy, Debug, PartialEq, Eq, Structural)]
pub struct BlockHeader {
    pub height: BlockHeight,
    /// DA height this block's content is allowed to reference.
    pub da_height: DaBlockHeight,
    /// Number of transactions in the block body.
    pub transactions_count: u64,
}

/// Canonical representation of a committed block, addressable by height
/// and by content id.
#[derive(Clone, Debug, PartialEq, Eq)]
pub struct CompressedBlock {
    pub header: BlockHeader,
    pub transactions: Vec<Transaction>,
}

/// The part of a header that is fixed before execution: the target height
/// and the DA height the block will reference.
#[derive(Clone, Copy, Debug, PartialEq, Eq, Structural)]
pub struct HeaderTemplate {
    pub height: BlockHeight,
    pub da_height: DaBlockHeight,
}

/// An execution request bundle: a header template plus a transaction
/// source of type `S` (pool-backed for production, an explicit list for a
/// dry run).  Immutable once constructed and scoped to a single request.
pub struct Components<S> {
    pub header_to_produce: HeaderTemplate,
    pub transactions_source: S,
}

/// What a failed database lookup was looking for.
#[derive(Clone, Copy, Debug, PartialEq, Eq, Structural)]
pub enum NotFoundEntity {
    /// The height-to-id mapping had no entry.
    BlockId,
    /// The id-to-block record was absent.
    Block,
    /// No accumulated header root is committed at the height.
    HeaderRoot,
    /// The database holds no committed block at all.
    Height,
}

/// Error taxonomy of the production core.  No variant is retried
/// internally; every failure propagates to the caller, which owns retry
/// policy.
#[derive(Clone, Copy, Debug, PartialEq, Eq, Structural)]
pub enum ProducerError {
    /// A requested height or id has no corresponding stored record.
    NotFound { entity: NotFoundEntity },
    /// A relayer-disabled deployment was asked to certify a nonzero DA
    /// height: a caller/configuration mismatch, not a transient condition.
    ConfigurationError,
    /// The engine rejected a transaction; carries the zero-based position
    /// of the offending transaction so the caller can retry with a
    /// different set.  All staged state is discarded.
    ExecutionError { transaction_index: usize },
    /// The configured relayer has not reached the required DA height in
    /// the view this request resolved against; production aborts for this
    /// attempt.
    SynchronizationError { required: DaBlockHeight, finalized: DaBlockHeight },
}

impl ProducerError {
    /// The human-readable description of each error variant.
    pub open spec fn message_model(self) -> Seq<char> {
        match self {
            ProducerError::NotFound { entity } => match entity {
                NotFoundEntity::BlockId => "block id not found for the requested height"@,
                NotFoundEntity::Block => "no block record stored under the mapped id"@,
                NotFoundEntity::HeaderRoot => "no header merkle root committed at the requested height"@,
                NotFoundEntity::Height => "the database holds no committed block"@,
            },
            ProducerError::ConfigurationError =>
                "Cannot have a da height above zero without a relayer"@,
            ProducerError::ExecutionError { .. } =>
                "the execution engine rejected a transaction"@,
            ProducerError::SynchronizationError { .. } =>
                "the relayer has not synchronized up to the required da height"@,
        }
    }

    /// Renders the error for display at the process edge.
    pub fn message(&self) -> (r: String)
        ensures
            r@ == self.message_model(),
    {
        match self {
            ProducerError::NotFound { entity } => match entity {
                NotFoundEntity::BlockId => "block id not found for the requested height".to_owned(),
                NotFoundEntity::Block => "no block record stored under the mapped id".to_owned(),
                NotFoundEntity::HeaderRoot => "no header merkle root committed at the requested height".to_owned(),
                NotFoundEntity::Height => "the database holds no committed block".to_owned(),
            },
            ProducerError::ConfigurationError =>
                "Cannot have a da height above zero without a relayer".to_owned(),
            ProducerError::ExecutionError { .. } =>
                "the execution engine rejected a transaction".to_owned(),
            ProducerError::SynchronizationError { .. } =>
                "the relayer has not synchronized up to the required da height".to_owned(),
        }
    }
}

} // verus!
