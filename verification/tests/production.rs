use block_producer::database::Database;
use block_producer::executor::ExecutorAdapter;
use block_producer::producer::{BlockProducerAdapter, BlockProducerService};
use block_producer::relayer::MaybeRelayerAdapter;
use block_producer::txpool::TxPoolAdapter;
use block_producer::types::{ProducerError, Receipt, Transaction};

fn tx(inputs: Vec<u64>, outputs: Vec<u64>) -> Transaction {
    Transaction { inputs, outputs }
}

fn service(
    coins: Vec<u64>,
    pending: Vec<Transaction>,
    relayer: MaybeRelayerAdapter,
) -> BlockProducerService {
    BlockProducerService {
        txpool: TxPoolAdapter { pending },
        executor: ExecutorAdapter { database: Database::new(coins), utxo_validation_default: true },
        relayer,
    }
}

#[test]
fn empty_source_production_succeeds_with_empty_receipts() {
    let s = service(vec![], vec![], MaybeRelayerAdapter::Disabled);
    let res = s.produce_and_execute_block(0, 0).unwrap();
    assert!(res.receipts.is_empty());
    assert_eq!(res.header.height, 0);
    assert_eq!(res.header.da_height, 0);
    assert_eq!(res.header.transactions_count, 0);
}

#[test]
fn produced_header_carries_certified_da_height() {
    let s = service(
        vec![],
        vec![],
        MaybeRelayerAdapter::Enabled { finalized_da_height: 9 },
    );
    let res = s.produce_and_execute_block(0, 4).unwrap();
    assert_eq!(res.header.da_height, 9);
    assert!(res.header.da_height >= 4);
}

#[test]
fn production_is_deterministic() {
    let mk = || {
        service(
            vec![1, 2],
            vec![tx(vec![1], vec![5, 6]), tx(vec![5], vec![7])],
            MaybeRelayerAdapter::Disabled,
        )
    };
    let a = mk().produce_and_execute_block(0, 0).unwrap();
    let b = mk().produce_and_execute_block(0, 0).unwrap();
    assert_eq!(a.header, b.header);
    assert_eq!(a.receipts, b.receipts);
    assert_eq!(a.pending.block_id, b.pending.block_id);
    assert_eq!(a.pending.block, b.pending.block);
    assert_eq!(a.pending.coins_after, b.pending.coins_after);
}

#[test]
fn chained_spend_within_one_block_is_valid() {
    let s = service(
        vec![1],
        vec![tx(vec![1], vec![2]), tx(vec![2], vec![3])],
        MaybeRelayerAdapter::Disabled,
    );
    let res = s.produce_and_execute_block(0, 0).unwrap();
    assert_eq!(
        res.receipts,
        vec![
            vec![Receipt::Spend { coin: 1 }, Receipt::Create { coin: 2 }],
            vec![Receipt::Spend { coin: 2 }, Receipt::Create { coin: 3 }],
        ]
    );
    assert_eq!(res.pending.coins_after, vec![3]);
}

#[test]
fn double_spend_is_rejected_at_the_second_position() {
    let s = service(
        vec![1],
        vec![tx(vec![1], vec![]), tx(vec![1], vec![])],
        MaybeRelayerAdapter::Disabled,
    );
    let err = s.produce_and_execute_block(0, 0).unwrap_err();
    assert_eq!(err, ProducerError::ExecutionError { transaction_index: 1 });
}

#[test]
fn failed_production_leaves_the_database_without_a_trace() {
    let s = service(
        vec![1],
        vec![tx(vec![99], vec![7])],
        MaybeRelayerAdapter::Disabled,
    );
    let err = s.produce_and_execute_block(0, 0).unwrap_err();
    assert_eq!(err, ProducerError::ExecutionError { transaction_index: 0 });
    let db = &s.executor.database;
    assert!(db.current_block_height().is_err());
    assert!(db.get_block(0).is_err());
    assert_eq!(db.coins, vec![1]);
}

#[test]
fn commit_makes_the_produced_block_visible() {
    let mut s = service(
        vec![1],
        vec![tx(vec![1], vec![5])],
        MaybeRelayerAdapter::Disabled,
    );
    let res = s.produce_and_execute_block(0, 0).unwrap();
    let block = res.pending.block.clone();
    res.pending.commit(&mut s.executor.database);
    let db = &s.executor.database;
    assert_eq!(db.current_block_height(), Ok(0));
    assert_eq!(db.get_block(0).unwrap(), &block);
    assert_eq!(db.coins, vec![5]);
}

#[test]
fn discarded_production_leaves_the_database_untouched() {
    let s = service(
        vec![1],
        vec![tx(vec![1], vec![5])],
        MaybeRelayerAdapter::Disabled,
    );
    let res = s.produce_and_execute_block(0, 0).unwrap();
    res.pending.discard();
    let db = &s.executor.database;
    assert!(db.current_block_height().is_err());
    assert!(db.get_block(0).is_err());
    assert_eq!(db.coins, vec![1]);
}

#[test]
fn two_committed_heights_read_back_in_order() {
    let mut s = service(vec![1, 2], vec![tx(vec![1], vec![])], MaybeRelayerAdapter::Disabled);
    let first = s.produce_and_execute_block(0, 0).unwrap();
    let first_block = first.pending.block.clone();
    first.pending.commit(&mut s.executor.database);

    s.txpool.pending = vec![tx(vec![2], vec![])];
    let second = s.produce_and_execute_block(1, 0).unwrap();
    let second_block = second.pending.block.clone();
    second.pending.commit(&mut s.executor.database);

    let db = &s.executor.database;
    assert_eq!(db.current_block_height(), Ok(1));
    assert_eq!(db.get_block(0).unwrap(), &first_block);
    assert_eq!(db.get_block(1).unwrap(), &second_block);
    assert_ne!(first_block.header, second_block.header);
}

#[test]
fn production_with_unsynchronized_relayer_aborts() {
    let s = service(
        vec![],
        vec![],
        MaybeRelayerAdapter::Enabled { finalized_da_height: 2 },
    );
    let err = s.produce_and_execute_block(0, 6).unwrap_err();
    assert_eq!(err, ProducerError::SynchronizationError { required: 6, finalized: 2 });
}

#[test]
fn production_without_relayer_rejects_nonzero_da_request() {
    let s = service(vec![], vec![], MaybeRelayerAdapter::Disabled);
    let err = s.produce_and_execute_block(0, 5).unwrap_err();
    assert_eq!(err, ProducerError::ConfigurationError);
    assert!(err.message().contains("above zero without a relayer"));
}

#[test]
fn sourcing_does_not_drain_the_pool() {
    let pool = TxPoolAdapter { pending: vec![tx(vec![], vec![1]), tx(vec![], vec![2])] };
    let source = pool.get_source(3);
    assert_eq!(source.block_height, 3);
    assert_eq!(source.transactions, pool.pending);
    assert_eq!(pool.pending.len(), 2);
}

#[test]
fn adapter_wraps_the_constructed_service() {
    let s = service(vec![4], vec![], MaybeRelayerAdapter::Disabled);
    let adapter = BlockProducerAdapter::new(s);
    assert_eq!(adapter.block_producer.executor.database.coins, vec![4]);
    let res = adapter.block_producer.produce_and_execute_block(0, 0).unwrap();
    assert!(res.receipts.is_empty());
}
