//! The transaction source adapter: given a target block height, yields
//! the pool's pending transactions, in the pool's chosen order, without
//! removing anything from the pool.  Removal happens only when a block is
//! actually committed, which is the external committer's business.

use vstd::prelude::*;

use crate::engine::copy_coins;
use crate::types::{BlockHeight, Transaction, transactions_view};

verus! {

/// A handle on the pool's pending transactions, in the order the pool
/// chose for inclusion.
pub struct TxPoolAdapter {
    /// Pending transactions, in inclusion order.
    pub pending: Vec<Transaction>,
}

/// The ordered transactions to execute for one target height.  Driving
/// it (production) consumes this source, never the pool.
pub struct TransactionsSource {
    /// The transactions, in the order the engine will execute them.
    pub transactions: Vec<Transaction>,
    /// The height the transactions were sourced for.
    pub block_height: BlockHeight,
}

/// An independent copy of a transaction list: the source must not alias
/// the pool, which keeps its entries until a commit removes them.
fn copy_transactions(src: &Vec<Transaction>) -> (r: Vec<Transaction>)
    ensures
        transactions_view(r@) == transactions_view(src@),
{
    let mut r: Vec<Transaction> = Vec::new();
    let mut i: usize = 0;
    while i < src.len()
        invariant
            i <= src.len(),
            r@.len() == i,
            forall|k: int| 0 <= k < i ==> (#[trigger] r@[k])@ == src@[k]@,
        decreases src.len() - i,
    {
        let t = Transaction {
            inputs: copy_coins(&src[i].inputs),
            outputs: copy_coins(&src[i].outputs),
        };
        r.push(t);
        i += 1;
    }
    proof {
        assert(transactions_view(r@) =~= transactions_view(src@));
    }
    r
}

impl TxPoolAdapter {
    /// Sources the transactions to execute at the given height: the
    /// pool's pending list, in the pool's order.  The pool itself is
    /// untouched; an empty pool yields an empty source, never an error.
    pub fn get_source(&self, block_height: BlockHeight) -> (s: TransactionsSource)
        ensures
            transactions_view(s.transactions@) == transactions_view(self.pending@),
            s.block_height == block_height,
    {
        TransactionsSource { transactions: copy_transactions(&self.pending), block_height }
    }
}

} // verus!
