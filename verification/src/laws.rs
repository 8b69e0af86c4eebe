//! The library's laws: properties that hold across functions, stated over
//! the same spec functions the function contracts use and proved once for
//! every input.

use vstd::prelude::*;

use crate::engine::{first_rejected, receipts_view};
use crate::executor::{UncommittedResult, dry_run_outcome, production_outcome};
use crate::types::{HeaderTemplate, ProducerError, Receipt, TransactionModel};

verus! {

/// Determinism of production: for one coin state, header template,
/// transaction list and validation strictness, any two outcomes the
/// production contract admits are the same — byte-identical headers and
/// receipts, the same staged block id and coin state on success, and the
/// very same error on failure.  Repeated calls to
/// `execute_without_commit` on equal inputs therefore cannot differ.
pub proof fn lemma_production_deterministic(
    coins: Seq<u64>,
    template: HeaderTemplate,
    txs: Seq<TransactionModel>,
    utxo_validation: bool,
    r1: Result<UncommittedResult, ProducerError>,
    r2: Result<UncommittedResult, ProducerError>,
)
    requires
        production_outcome(coins, template, txs, utxo_validation, r1),
        production_outcome(coins, template, txs, utxo_validation, r2),
    ensures
        r1 is Ok <==> r2 is Ok,
        match (r1, r2) {
            (Ok(a), Ok(b)) => {
                &&& a.header == b.header
                &&& receipts_view(a.receipts@) == receipts_view(b.receipts@)
                &&& a.pending.block_id == b.pending.block_id
                &&& a.pending.block.header == b.pending.block.header
                &&& a.pending.coins_after@ == b.pending.coins_after@
            },
            (Err(x), Err(y)) => x == y,
            _ => false,
        },
{
}

/// Determinism and isolation of the dry-run path: the dry-run contract
/// pins the outcome as a function of the committed coin state, the
/// explicit transaction list and the effective validation strictness
/// alone.  A dry run borrows the executor immutably and returns only
/// receipts — it stages no storage transaction — so the height and the
/// blocks read after a dry run are the ones read before it.
pub proof fn lemma_dry_run_deterministic(
    coins: Seq<u64>,
    txs: Seq<TransactionModel>,
    utxo_validation: bool,
    r1: Result<Vec<Vec<Receipt>>, ProducerError>,
    r2: Result<Vec<Vec<Receipt>>, ProducerError>,
)
    requires
        dry_run_outcome(coins, txs, utxo_validation, r1),
        dry_run_outcome(coins, txs, utxo_validation, r2),
    ensures
        r1 is Ok <==> r2 is Ok,
        match (r1, r2) {
            (Ok(a), Ok(b)) => receipts_view(a@) == receipts_view(b@),
            (Err(x), Err(y)) => x == y,
            _ => false,
        },
{
}

/// Dry run previews production faithfully: over one coin state,
/// transaction list and strictness, both entry points admit the same
/// engine decision — equal receipts when the list executes, the same
/// rejected position when it does not.
pub proof fn lemma_dry_run_previews_production(
    coins: Seq<u64>,
    template: HeaderTemplate,
    txs: Seq<TransactionModel>,
    utxo_validation: bool,
    production: Result<UncommittedResult, ProducerError>,
    dry: Result<Vec<Vec<Receipt>>, ProducerError>,
)
    requires
        production_outcome(coins, template, txs, utxo_validation, production),
        dry_run_outcome(coins, txs, utxo_validation, dry),
    ensures
        production is Ok <==> dry is Ok,
        match (production, dry) {
            (Ok(a), Ok(b)) => receipts_view(a.receipts@) == receipts_view(b@),
            (Err(x), Err(y)) => x == y,
            _ => false,
        },
{
}

/// Discard atomicity: when the engine rejects a transaction partway
/// through a list, the production contract admits exactly one outcome —
/// the execution error naming the rejected position.  No uncommitted
/// result, and so no staged storage transaction, exists after a failed
/// attempt; the database value later `get_block` and
/// `current_block_height` calls read is the one from before it.
pub proof fn lemma_failed_execution_stages_nothing(
    coins: Seq<u64>,
    template: HeaderTemplate,
    txs: Seq<TransactionModel>,
    utxo_validation: bool,
    r: Result<UncommittedResult, ProducerError>,
)
    requires
        first_rejected(coins, txs, utxo_validation) is Some,
        production_outcome(coins, template, txs, utxo_validation, r),
    ensures
        r == Err::<UncommittedResult, ProducerError>(
            ProducerError::ExecutionError {
                transaction_index: first_rejected(coins, txs, utxo_validation).unwrap() as usize,
            },
        ),
{
}

} // verus!
