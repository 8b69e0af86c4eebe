//! The execution adapter: both entry points — production and dry run —
//! drive the identical deterministic engine core over a staged copy of
//! the database's coin state, so dry-run receipts are a faithful preview
//! of what production would record.
//!
//! Production returns an [`UncommittedResult`]: the outcome paired with a
//! staged storage transaction that the caller may commit or discard.  A
//! dry run returns receipts alone — it never creates a pending storage
//! transaction and never mutates anything, so it is safe beside an
//! in-flight production call.

use vstd::prelude::*;

use crate::database::{Database, StorageTransaction, block_id, block_id_model};
use crate::engine::{
    block_receipts_model, coins_after, copy_coins, first_rejected, receipts_view, run_transactions,
};
use crate::txpool::TransactionsSource;
use crate::types::{
    BlockHeader, Components, HeaderTemplate, ProducerError, Receipt, Transaction, TransactionModel,
    transactions_view,
};

verus! {

/// Outcome of a production run: the produced header and per-transaction
/// receipts, paired with the *pending* storage transaction holding every
/// state mutation.  Exclusively owned by the caller until committed or
/// discarded; discarding leaves the durable store untouched.
#[derive(Debug)]
pub struct UncommittedResult {
    /// The produced block header.
    pub header: BlockHeader,
    /// One receipt list per executed transaction, in order.
    pub receipts: Vec<Vec<Receipt>>,
    /// The staged writes: block, content id, and resulting coin state.
    pub pending: StorageTransaction,
}

/// The header a template and a transaction count determine.
pub open spec fn produced_header(template: HeaderTemplate, count: int) -> BlockHeader {
    BlockHeader {
        height: template.height,
        da_height: template.da_height,
        transactions_count: count as u64,
    }
}

/// Exactly the outcomes the production contract admits for a given coin
/// state, header template and transaction list: the engine decides, and
/// every piece of the result is a function of those inputs alone.
pub open spec fn production_outcome(
    coins: Seq<u64>,
    template: HeaderTemplate,
    txs: Seq<TransactionModel>,
    utxo_validation: bool,
    r: Result<UncommittedResult, ProducerError>,
) -> bool {
    match first_rejected(coins, txs, utxo_validation) {
        Some(i) => r matches Err(e) && e == (ProducerError::ExecutionError {
            transaction_index: i as usize,
        }),
        None => {
            &&& r matches Ok(res)
            &&& res.header == produced_header(template, txs.len() as int)
            &&& receipts_view(res.receipts@) == block_receipts_model(txs)
            &&& res.pending.block.header == res.header
            &&& transactions_view(res.pending.block.transactions@) == txs
            &&& res.pending.block_id == block_id_model(res.header)
            &&& res.pending.coins_after@ == coins_after(coins, txs, utxo_validation)
        },
    }
}

/// Exactly the outcomes the dry-run contract admits: the same engine
/// decision as production, but only receipts come back.
pub open spec fn dry_run_outcome(
    coins: Seq<u64>,
    txs: Seq<TransactionModel>,
    utxo_validation: bool,
    r: Result<Vec<Vec<Receipt>>, ProducerError>,
) -> bool {
    match first_rejected(coins, txs, utxo_validation) {
        Some(i) => r matches Err(e) && e == (ProducerError::ExecutionError {
            transaction_index: i as usize,
        }),
        None => r matches Ok(receipts) && receipts_view(r.unwrap()@) == block_receipts_model(txs),
    }
}

/// The execution adapter: the database view the engine reads prior state
/// from, and the deployment's default UTXO-validation strictness.
pub struct ExecutorAdapter {
    /// The committed store; execution reads it and never writes it.
    pub database: Database,
    /// Engine default for UTXO-validation strictness, used whenever a
    /// dry run does not override it.
    pub utxo_validation_default: bool,
}

impl ExecutorAdapter {
    /// Runs the engine over the sourced transactions in order, against a
    /// staged copy of the coin state, and returns the produced header,
    /// the receipts and the pending storage transaction — or the position
    /// of the first rejected transaction, with nothing staged.  The
    /// durable store is not touched either way.
    pub fn execute_without_commit(&self, component: Components<TransactionsSource>) -> (r: Result<
        UncommittedResult,
        ProducerError,
    >)
        ensures
            production_outcome(
                self.database.coins@,
                component.header_to_produce,
                transactions_view(component.transactions_source.transactions@),
                self.utxo_validation_default,
                r,
            ),
            r matches Ok(res) ==> res.pending.block.transactions@
                == component.transactions_source.transactions@,
    {
        let Components { header_to_produce, transactions_source } = component;
        let txs = transactions_source.transactions;
        let mut coins = copy_coins(&self.database.coins);
        match run_transactions(&mut coins, &txs, self.utxo_validation_default) {
            Err(idx) => Err(ProducerError::ExecutionError { transaction_index: idx }),
            Ok(receipts) => {
                let header = BlockHeader {
                    height: header_to_produce.height,
                    da_height: header_to_produce.da_height,
                    transactions_count: txs.len() as u64,
                };
                let id = block_id(&header);
                proof {
                    assert(transactions_view(txs@).len() == txs@.len());
                }
                Ok(
                    UncommittedResult {
                        header,
                        receipts,
                        pending: StorageTransaction {
                            block_id: id,
                            block: crate::types::CompressedBlock { header, transactions: txs },
                            coins_after: coins,
                        },
                    },
                )
            },
        }
    }

    /// Runs the same engine against an explicit transaction list, with an
    /// optional override of UTXO-validation strictness, discarding every
    /// state effect: only the receipts per transaction come back, and the
    /// adapter — hence every later height or block read — is untouched.
    pub fn dry_run(&self, block: Components<Vec<Transaction>>, utxo_validation: Option<bool>) -> (r:
        Result<Vec<Vec<Receipt>>, ProducerError>)
        ensures
            dry_run_outcome(
                self.database.coins@,
                transactions_view(block.transactions_source@),
                match utxo_validation {
                    Some(v) => v,
                    None => self.utxo_validation_default,
                },
                r,
            ),
    {
        let strictness = match utxo_validation {
            Some(v) => v,
            None => self.utxo_validation_default,
        };
        let mut coins = copy_coins(&self.database.coins);
        match run_transactions(&mut coins, &block.transactions_source, strictness) {
            Err(idx) => Err(ProducerError::ExecutionError { transaction_index: idx }),
            Ok(receipts) => Ok(receipts),
        }
    }
}

} // verus!
