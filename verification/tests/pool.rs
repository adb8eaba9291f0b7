use node_core::bench::Mode;
use node_core::construct::{ConstructionBenchmarkDescription, PoolTransaction, Transactions};
use node_core::import::ImportBenchmarkDescription;
use node_core::primitives::{Block, Extrinsic, Header, H256};
use node_core::txpool::PoolBenchmarkDescription;
use node_core::bench::SizeType;

fn tx(bytes: Vec<u8>) -> PoolTransaction {
    PoolTransaction::from(Extrinsic { bytes })
}

#[test]
fn admitted_transaction_keeps_data_and_zero_hash() {
    let t = tx(vec![1, 2, 3]);
    assert_eq!(t.data().bytes, vec![1, 2, 3]);
    assert_eq!(t.hash().bytes, [0u8; 32]);
}

#[test]
fn pool_len_counts_batch() {
    let pool = Transactions::new(vec![tx(vec![1]), tx(vec![2])]);
    assert_eq!(pool.len(), 2);
}

#[test]
fn ready_iteration_yields_batch_in_order() {
    let pool = Transactions::new(vec![tx(vec![1]), tx(vec![2, 2]), tx(vec![3, 3, 3])]);
    let mut it = pool.ready_at(H256::zero());
    assert_eq!(it.next().unwrap().data().bytes, vec![1]);
    assert_eq!(it.next().unwrap().data().bytes, vec![2, 2]);
    assert_eq!(it.next().unwrap().data().bytes, vec![3, 3, 3]);
    assert!(it.next().is_none());
    assert!(it.next().is_none());
}

#[test]
fn report_invalid_removes_nothing() {
    let pool = Transactions::new(vec![tx(vec![9])]);
    let removed = pool.report_invalid(None, &vec![H256::zero()]);
    assert!(removed.is_empty());
    let mut it = pool.ready_at(H256::zero());
    let first = it.next().unwrap();
    it.report_invalid(&first);
    assert!(it.next().is_none());
}

#[test]
fn collect_remaining_drains_in_order() {
    let pool = Transactions::new(vec![tx(vec![4]), tx(vec![5]), tx(vec![6])]);
    let mut it = pool.ready_at(H256::zero());
    assert_eq!(it.next().unwrap().data().bytes, vec![4]);
    let rest = it.collect_remaining();
    assert_eq!(rest.len(), 2);
    assert_eq!(rest[0].data().bytes, vec![5]);
    assert_eq!(rest[1].data().bytes, vec![6]);
    assert!(it.next().is_none());
}

#[test]
fn empty_pool_is_immediately_exhausted() {
    let pool = Transactions::new(Vec::new());
    assert_eq!(pool.len(), 0);
    let mut it = pool.ready_at(H256::zero());
    assert!(it.next().is_none());
}

#[test]
fn header_and_block_carry_fields() {
    let h = Header::new(7, H256::zero(), H256::zero(), H256::zero(), vec![vec![1]]);
    assert_eq!(h.number, 7);
    assert_eq!(h.digest_logs, vec![vec![1]]);
    let b = Block::new(h, vec![Extrinsic { bytes: vec![8] }]);
    assert_eq!(b.header.number, 7);
    assert_eq!(b.extrinsics.len(), 1);
}

#[test]
fn construction_benchmark_description() {
    let d = ConstructionBenchmarkDescription {
        key_types: "sr25519".to_string(),
        block_type: "transfer".to_string(),
        size: SizeType::Medium,
        database_type: "rocksdb".to_string(),
    };
    assert_eq!(d.name(), "Block construction benchmark");
    assert_eq!(d.path().full(), "::node::proposer");
    let mut b = d.setup();
    assert_eq!(b.run(Mode::Regular), 0);
}

#[test]
fn import_benchmark_description() {
    let d = ImportBenchmarkDescription {
        key_types: "sr25519".to_string(),
        block_type: "transfer".to_string(),
        size: SizeType::Medium,
        database_type: "rocksdb".to_string(),
    };
    assert_eq!(d.name(), "Block import benchmark");
    assert_eq!(d.path().full(), "::node::import");
    let mut b = d.setup();
    assert_eq!(b.block.header.number, 0);
    assert!(b.block.extrinsics.is_empty());
    assert_eq!(b.block.header.parent_hash.bytes, [0u8; 32]);
    assert_eq!(b.run(Mode::Profile), 0);
}

#[test]
fn pool_benchmark_description() {
    let d = PoolBenchmarkDescription { database_type: "rocksdb".to_string() };
    assert_eq!(d.name(), "Transaction pool benchmark");
    assert_eq!(d.path().full(), "::node::txpool");
    let mut b = d.setup();
    assert_eq!(b.run(Mode::Regular), 0);
}
