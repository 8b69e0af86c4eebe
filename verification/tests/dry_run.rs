use block_producer::database::Database;
use block_producer::executor::ExecutorAdapter;
use block_producer::txpool::TransactionsSource;
use block_producer::types::{Components, HeaderTemplate, ProducerError, Receipt, Transaction};

fn tx(inputs: Vec<u64>, outputs: Vec<u64>) -> Transaction {
    Transaction { inputs, outputs }
}

fn executor(coins: Vec<u64>, default_strictness: bool) -> ExecutorAdapter {
    ExecutorAdapter {
        database: Database::new(coins),
        utxo_validation_default: default_strictness,
    }
}

fn request(txs: Vec<Transaction>) -> Components<Vec<Transaction>> {
    Components {
        header_to_produce: HeaderTemplate { height: 0, da_height: 0 },
        transactions_source: txs,
    }
}

#[test]
fn dry_run_of_three_with_invalid_second_names_index_one() {
    let e = executor(vec![1, 2], true);
    let txs = vec![tx(vec![1], vec![]), tx(vec![99], vec![]), tx(vec![2], vec![])];
    let err = e.dry_run(request(txs), Some(true)).unwrap_err();
    assert_eq!(err, ProducerError::ExecutionError { transaction_index: 1 });
    // No storage mutation occurred.
    assert!(e.database.current_block_height().is_err());
    assert_eq!(e.database.coins, vec![1, 2]);
}

#[test]
fn dry_run_leaves_the_observed_height_unchanged() {
    let e = executor(vec![1], true);
    let before = e.database.current_block_height();
    let receipts = e.dry_run(request(vec![tx(vec![1], vec![9])]), None).unwrap();
    let after = e.database.current_block_height();
    assert_eq!(before, after);
    assert_eq!(receipts, vec![vec![Receipt::Spend { coin: 1 }, Receipt::Create { coin: 9 }]]);
    assert_eq!(e.database.coins, vec![1]);
}

#[test]
fn dry_run_returns_one_receipt_list_per_transaction() {
    let e = executor(vec![1, 2], true);
    let txs = vec![tx(vec![1], vec![3]), tx(vec![], vec![]), tx(vec![2, 3], vec![4])];
    let receipts = e.dry_run(request(txs), None).unwrap();
    assert_eq!(
        receipts,
        vec![
            vec![Receipt::Spend { coin: 1 }, Receipt::Create { coin: 3 }],
            vec![],
            vec![
                Receipt::Spend { coin: 2 },
                Receipt::Spend { coin: 3 },
                Receipt::Create { coin: 4 },
            ],
        ]
    );
}

#[test]
fn dry_run_override_relaxes_the_engine_default() {
    let e = executor(vec![], true);
    let missing_input = vec![tx(vec![42], vec![7])];
    assert_eq!(
        e.dry_run(request(missing_input.clone()), None).unwrap_err(),
        ProducerError::ExecutionError { transaction_index: 0 }
    );
    let receipts = e.dry_run(request(missing_input), Some(false)).unwrap();
    assert_eq!(receipts, vec![vec![Receipt::Spend { coin: 42 }, Receipt::Create { coin: 7 }]]);
}

#[test]
fn dry_run_none_uses_the_engine_default() {
    let lenient = executor(vec![], false);
    let receipts = lenient.dry_run(request(vec![tx(vec![8], vec![])]), None).unwrap();
    assert_eq!(receipts, vec![vec![Receipt::Spend { coin: 8 }]]);
}

#[test]
fn dry_run_is_deterministic() {
    let e = executor(vec![1], true);
    let txs = vec![tx(vec![1], vec![2])];
    let a = e.dry_run(request(txs.clone()), None).unwrap();
    let b = e.dry_run(request(txs), None).unwrap();
    assert_eq!(a, b);
}

#[test]
fn dry_run_previews_what_production_records() {
    let coins = vec![1, 2];
    let txs = vec![tx(vec![1], vec![5]), tx(vec![5], vec![6])];
    let e = executor(coins.clone(), true);
    let dry = e.dry_run(request(txs.clone()), None).unwrap();

    let production = e
        .execute_without_commit(Components {
            header_to_produce: HeaderTemplate { height: 0, da_height: 0 },
            transactions_source: TransactionsSource { transactions: txs, block_height: 0 },
        })
        .unwrap();
    assert_eq!(dry, production.receipts);
}
