//! The deterministic execution engine shared by the production and the
//! dry-run paths.
//!
//! The engine runs a transaction list, in order, against a staged copy of
//! the live coin state.  Under strict UTXO validation a transaction is
//! valid only if every coin it spends is live at the moment it is spent
//! (each spend consumes the first live occurrence); with validation
//! relaxed, spends of absent coins are tolerated.  Every transaction
//! emits one receipt per coin spent and one per coin created.  The engine
//! never touches durable storage: callers hand it a copy of the coin
//! state and decide what to do with the result.

use vstd::prelude::*;

use crate::types::{Receipt, Transaction, TransactionModel, transactions_view};

verus! {

/// Spending one coin: removes the first live occurrence of `coin`, or
/// reports that none is live.
pub open spec fn spend(coins: Seq<u64>, coin: u64) -> Option<Seq<u64>> {
    match coins.index_of_first(coin) {
        Some(i) => Some(coins.remove(i)),
        None => None,
    }
}

/// Spending with validation relaxed: an absent coin leaves the state
/// unchanged instead of failing.
pub open spec fn spend_lenient(coins: Seq<u64>, coin: u64) -> Seq<u64> {
    match spend(coins, coin) {
        Some(c) => c,
        None => coins,
    }
}

/// Strict consumption of a whole input list, in order.
pub open spec fn apply_inputs(coins: Seq<u64>, inputs: Seq<u64>) -> Option<Seq<u64>>
    decreases inputs.len(),
{
    if inputs.len() == 0 {
        Some(coins)
    } else {
        match spend(coins, inputs[0]) {
            Some(c) => apply_inputs(c, inputs.drop_first()),
            None => None,
        }
    }
}

/// Relaxed consumption of a whole input list, in order.
pub open spec fn apply_inputs_lenient(coins: Seq<u64>, inputs: Seq<u64>) -> Seq<u64>
    decreases inputs.len(),
{
    if inputs.len() == 0 {
        coins
    } else {
        apply_inputs_lenient(spend_lenient(coins, inputs[0]), inputs.drop_first())
    }
}

/// The coin state after one transaction: inputs consumed (strictly or
/// leniently), then the outputs appended.  `None` means the engine
/// rejects the transaction.
pub open spec fn apply_transaction(
    coins: Seq<u64>,
    tx: TransactionModel,
    utxo_validation: bool,
) -> Option<Seq<u64>> {
    if utxo_validation {
        match apply_inputs(coins, tx.inputs) {
            Some(c) => Some(c + tx.outputs),
            None => None,
        }
    } else {
        Some(apply_inputs_lenient(coins, tx.inputs) + tx.outputs)
    }
}

/// The receipts one transaction emits: a spend record per input followed
/// by a creation record per output.  A pure function of the transaction
/// alone, so dry-run receipts are a faithful preview of production.
pub open spec fn transaction_receipts_model(tx: TransactionModel) -> Seq<Receipt> {
    tx.inputs.map_values(|c: u64| Receipt::Spend { coin: c })
        + tx.outputs.map_values(|c: u64| Receipt::Create { coin: c })
}

/// The receipts of a whole list, one sequence per transaction.
pub open spec fn block_receipts_model(txs: Seq<TransactionModel>) -> Seq<Seq<Receipt>> {
    txs.map_values(|t: TransactionModel| transaction_receipts_model(t))
}

/// The zero-based position of the first transaction the engine rejects,
/// or `None` when the whole list executes.
pub open spec fn first_rejected(
    coins: Seq<u64>,
    txs: Seq<TransactionModel>,
    utxo_validation: bool,
) -> Option<int>
    decreases txs.len(),
{
    if txs.len() == 0 {
        None
    } else {
        match apply_transaction(coins, txs[0], utxo_validation) {
            None => Some(0),
            Some(c) => match first_rejected(c, txs.drop_first(), utxo_validation) {
                None => None,
                Some(i) => Some(i + 1),
            },
        }
    }
}

/// The coin state after a list that executes in full; meaningful only
/// when `first_rejected` is `None`.
pub open spec fn coins_after(
    coins: Seq<u64>,
    txs: Seq<TransactionModel>,
    utxo_validation: bool,
) -> Seq<u64>
    decreases txs.len(),
{
    if txs.len() == 0 {
        coins
    } else {
        match apply_transaction(coins, txs[0], utxo_validation) {
            None => coins,
            Some(c) => coins_after(c, txs.drop_first(), utxo_validation),
        }
    }
}

/// An error index local to a suffix, shifted back to the full list.
pub open spec fn shift_index(o: Option<int>, offset: int) -> Option<int> {
    match o {
        None => None,
        Some(i) => Some(i + offset),
    }
}

/// The views of a receipt-list list.
pub open spec fn receipts_view(rs: Seq<Vec<Receipt>>) -> Seq<Seq<Receipt>> {
    rs.map_values(|r: Vec<Receipt>| r@)
}

/// An independent copy of a coin state, so execution never aliases the
/// durable store's own vector.
pub fn copy_coins(src: &Vec<u64>) -> (r: Vec<u64>)
    ensures
        r@ == src@,
{
    let mut r: Vec<u64> = Vec::new();
    let mut i: usize = 0;
    while i < src.len()
        invariant
            i <= src.len(),
            r@ == src@.take(i as int),
        decreases src.len() - i,
    {
        r.push(src[i]);
        proof {
            assert(src@.take(i + 1) =~= src@.take(i as int).push(src@[i as int]));
        }
        i += 1;
    }
    proof {
        assert(src@.take(src@.len() as int) =~= src@);
    }
    r
}

/// Removes the first live occurrence of `coin` from the staged state;
/// reports whether one was found.
fn spend_coin(coins: &mut Vec<u64>, coin: u64) -> (found: bool)
    ensures
        match spend(old(coins)@, coin) {
            Some(c) => found && final(coins)@ == c,
            None => !found && final(coins)@ == old(coins)@,
        },
{
    let ghost orig = coins@;
    let mut j: usize = 0;
    while j < coins.len()
        invariant
            orig == old(coins)@,
            j <= coins.len(),
            coins@ == orig,
            forall|k: int| 0 <= k < j ==> orig[k] != coin,
        decreases coins.len() - j,
    {
        if coins[j] == coin {
            proof {
                assert(orig.contains(coin)) by {
                    assert(orig[j as int] == coin);
                }
                orig.index_of_first_ensures(coin);
                let i = orig.index_of_first(coin).unwrap();
                assert(orig.index_of_first(coin) == Some(i));
                assert(i == j as int) by {
                    if i < j as int {
                        assert(orig[i] != coin);
                    }
                    if i > j as int {
                        assert(orig[j as int] != coin);
                    }
                }
            }
            coins.remove(j);
            return true;
        }
        j += 1;
    }
    proof {
        assert(!orig.contains(coin)) by {
            if orig.contains(coin) {
                let w = choose|w: int| 0 <= w < orig.len() && orig[w] == coin;
                assert(orig[w] != coin);
            }
        }
        orig.index_of_first_ensures(coin);
    }
    false
}

/// Applies one transaction to the staged coin state; on rejection the
/// caller discards the state, so nothing is promised of it then.
fn apply_transaction_exec(coins: &mut Vec<u64>, tx: &Transaction, utxo_validation: bool) -> (ok: bool)
    ensures
        match apply_transaction(old(coins)@, tx@, utxo_validation) {
            Some(c) => ok && final(coins)@ == c,
            None => !ok,
        },
{
    let ghost c0 = coins@;
    let ghost ins = tx@.inputs;
    proof {
        assert(ins.skip(0) =~= ins);
    }
    let mut j: usize = 0;
    while j < tx.inputs.len()
        invariant
            c0 == old(coins)@,
            ins == tx@.inputs,
            j <= tx.inputs.len(),
            utxo_validation ==> apply_inputs(c0, ins) == apply_inputs(coins@, ins.skip(j as int)),
            !utxo_validation ==> apply_inputs_lenient(c0, ins) == apply_inputs_lenient(
                coins@,
                ins.skip(j as int),
            ),
        decreases tx.inputs.len() - j,
    {
        let ghost pre = coins@;
        let ghost rest = ins.skip(j as int);
        proof {
            assert(rest[0] == ins[j as int]);
            assert(rest.drop_first() =~= ins.skip(j as int + 1));
        }
        let found = spend_coin(coins, tx.inputs[j]);
        if utxo_validation && !found {
            return false;
        }
        j += 1;
    }
    proof {
        assert(ins.skip(tx.inputs@.len() as int) =~= Seq::<u64>::empty());
    }
    let ghost base = coins@;
    proof {
        assert(base + tx@.outputs.take(0) =~= base);
    }
    let mut k: usize = 0;
    while k < tx.outputs.len()
        invariant
            k <= tx.outputs.len(),
            coins@ == base + tx@.outputs.take(k as int),
        decreases tx.outputs.len() - k,
    {
        coins.push(tx.outputs[k]);
        proof {
            assert(base + tx@.outputs.take(k + 1) =~= (base + tx@.outputs.take(k as int)).push(
                tx@.outputs[k as int],
            ));
        }
        k += 1;
    }
    proof {
        assert(tx@.outputs.take(tx.outputs@.len() as int) =~= tx@.outputs);
    }
    true
}

/// The receipts one transaction emits, as executable data.
fn transaction_receipts(tx: &Transaction) -> (r: Vec<Receipt>)
    ensures
        r@ == transaction_receipts_model(tx@),
{
    let mut r: Vec<Receipt> = Vec::new();
    let mut j: usize = 0;
    while j < tx.inputs.len()
        invariant
            j <= tx.inputs.len(),
            r@.len() == j,
            forall|k: int| 0 <= k < j ==> r@[k] == (Receipt::Spend { coin: tx@.inputs[k] }),
        decreases tx.inputs.len() - j,
    {
        r.push(Receipt::Spend { coin: tx.inputs[j] });
        j += 1;
    }
    let ghost ilen = tx@.inputs.len() as int;
    let mut k: usize = 0;
    while k < tx.outputs.len()
        invariant
            ilen == tx@.inputs.len() as int,
            k <= tx.outputs.len(),
            r@.len() == ilen + k,
            forall|m: int| 0 <= m < ilen ==> r@[m] == (Receipt::Spend { coin: tx@.inputs[m] }),
            forall|m: int| 0 <= m < k ==> r@[ilen + m] == (Receipt::Create {
                coin: tx@.outputs[m],
            }),
        decreases tx.outputs.len() - k,
    {
        r.push(Receipt::Create { coin: tx.outputs[k] });
        k += 1;
    }
    proof {
        assert(r@ =~= transaction_receipts_model(tx@));
    }
    r
}

/// The engine core, shared verbatim by production and dry run: executes
/// the list in order against the staged coin state and returns the
/// receipts, or the position of the first rejected transaction.
pub fn run_transactions(
    coins: &mut Vec<u64>,
    txs: &Vec<Transaction>,
    utxo_validation: bool,
) -> (r: Result<Vec<Vec<Receipt>>, usize>)
    ensures
        match first_rejected(old(coins)@, transactions_view(txs@), utxo_validation) {
            None => {
                &&& r matches Ok(receipts)
                &&& receipts_view(r.unwrap()@) == block_receipts_model(transactions_view(txs@))
                &&& final(coins)@ == coins_after(
                    old(coins)@,
                    transactions_view(txs@),
                    utxo_validation,
                )
            },
            Some(i) => r matches Err(idx) && idx as int == i,
        },
{
    let ghost c0 = coins@;
    let ghost txsv = transactions_view(txs@);
    proof {
        assert(txsv.skip(0) =~= txsv);
    }
    let mut receipts: Vec<Vec<Receipt>> = Vec::new();
    let mut i: usize = 0;
    while i < txs.len()
        invariant
            c0 == old(coins)@,
            i <= txs.len(),
            txsv == transactions_view(txs@),
            txsv.len() == txs@.len(),
            receipts@.len() == i,
            forall|k: int| 0 <= k < i ==> receipts@[k]@ == transaction_receipts_model(txsv[k]),
            first_rejected(c0, txsv, utxo_validation) == shift_index(
                first_rejected(coins@, txsv.skip(i as int), utxo_validation),
                i as int,
            ),
            first_rejected(coins@, txsv.skip(i as int), utxo_validation) matches None
                ==> coins_after(c0, txsv, utxo_validation) == coins_after(
                coins@,
                txsv.skip(i as int),
                utxo_validation,
            ),
        decreases txs.len() - i,
    {
        let ghost pre = coins@;
        let ghost suf = txsv.skip(i as int);
        proof {
            assert(suf[0] == txsv[i as int]);
            assert(txsv[i as int] == txs@[i as int]@);
            assert(suf.drop_first() =~= txsv.skip(i as int + 1));
        }
        let tr = transaction_receipts(&txs[i]);
        let ok = apply_transaction_exec(coins, &txs[i], utxo_validation);
        if !ok {
            return Err(i);
        }
        receipts.push(tr);
        i += 1;
    }
    proof {
        assert(txsv.skip(txs@.len() as int) =~= Seq::<TransactionModel>::empty());
        assert(receipts_view(receipts@) =~= block_receipts_model(txsv));
    }
    Ok(receipts)
}

} // verus!
