use subgraph_core::chain::{EthereumBlock, EthereumCall, Log, Transaction};

fn block() -> EthereumBlock {
    EthereumBlock {
        number: 5,
        transactions: vec![
            Transaction { hash: 10, index: 0 },
            Transaction { hash: 11, index: 1 },
        ],
    }
}

#[test]
fn transaction_for_log_finds_the_transaction_by_hash() {
    let b = block();
    let log = Log { address: 1, transaction_hash: Some(11) };
    let t = b.transaction_for_log(&log).expect("transaction must be found");
    assert_eq!(t.hash, 11);
    assert_eq!(t.index, 1);
}

#[test]
fn transaction_for_log_without_hash_is_none() {
    let b = block();
    let log = Log { address: 1, transaction_hash: None };
    assert!(b.transaction_for_log(&log).is_none());
}

#[test]
fn transaction_for_log_with_unknown_hash_is_none() {
    let b = block();
    let log = Log { address: 1, transaction_hash: Some(99) };
    assert!(b.transaction_for_log(&log).is_none());
}

#[test]
fn transaction_for_call_finds_the_transaction_by_hash() {
    let b = block();
    let call = EthereumCall { to: 1, transaction_hash: Some(10) };
    let t = b.transaction_for_call(&call).expect("transaction must be found");
    assert_eq!(t.hash, 10);
    assert_eq!(t.index, 0);
}

#[test]
fn transaction_for_call_with_unknown_hash_is_none() {
    let b = block();
    let call = EthereumCall { to: 1, transaction_hash: Some(12) };
    assert!(b.transaction_for_call(&call).is_none());
}
