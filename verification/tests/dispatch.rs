use subgraph_core::chain::{EthereumBlock, EthereumCall, EthereumTrigger, Log, Transaction};
use subgraph_core::host::{EntityOperation, ProcessError};
use subgraph_core::instance::SubgraphInstance;
use subgraph_core::manifest::{DataSource, Mapping, SubgraphManifest};
use subgraph_core::scripted::{ScriptedHost, ScriptedHostBuilder};

fn data_source(name: &str, address: u64, mapping: Mapping) -> DataSource {
    DataSource { name: String::from(name), address, mapping }
}

fn manifest(data_sources: Vec<DataSource>) -> SubgraphManifest {
    SubgraphManifest { id: String::from("subgraph"), data_sources }
}

fn instance_of(data_sources: Vec<DataSource>) -> SubgraphInstance<ScriptedHost> {
    SubgraphInstance::from_manifest(manifest(data_sources), ScriptedHostBuilder).unwrap()
}

fn block_with_transaction(hash: u64) -> EthereumBlock {
    EthereumBlock { number: 1, transactions: vec![Transaction { hash, index: 0 }] }
}

const OP_A: EntityOperation = EntityOperation { entity: 1, value: 10 };
const OP_B: EntityOperation = EntityOperation { entity: 3, value: 30 };

/// A manifest of three data sources whose first and third hosts watch
/// address 7 and the second address 8.
fn three_sources(first: Mapping, third: Mapping) -> Vec<DataSource> {
    vec![
        data_source("d1", 7, first),
        data_source("d2", 8, Mapping::Append(EntityOperation { entity: 2, value: 20 })),
        data_source("d3", 7, third),
    ]
}

#[test]
fn log_trigger_threads_operations_through_matching_hosts() {
    let instance = instance_of(three_sources(Mapping::Append(OP_A), Mapping::Append(OP_B)));
    let block = block_with_transaction(9);
    let log = Log { address: 7, transaction_hash: Some(9) };
    let out = instance
        .process_trigger(&block, EthereumTrigger::Log(log), Vec::new())
        .unwrap();
    assert_eq!(out, vec![OP_A, OP_B]);
}

#[test]
fn failing_host_aborts_the_dispatch() {
    let instance = instance_of(three_sources(
        Mapping::Abort(String::from("E")),
        Mapping::Append(OP_B),
    ));
    let block = block_with_transaction(9);
    let log = Log { address: 7, transaction_hash: Some(9) };
    let out = instance.process_trigger(&block, EthereumTrigger::Log(log), Vec::new());
    match out {
        Err(ProcessError::HostFailed(e)) => assert_eq!(e.message, "E"),
        other => panic!("expected a host failure, got {:?}", other),
    }
}

#[test]
fn log_without_resolvable_transaction_fails_before_any_host() {
    let instance = instance_of(three_sources(Mapping::Append(OP_A), Mapping::Append(OP_B)));
    let block = block_with_transaction(9);
    let log = Log { address: 7, transaction_hash: None };
    let out = instance.process_trigger(&block, EthereumTrigger::Log(log), Vec::new());
    assert!(matches!(out, Err(ProcessError::NoTransactionForLog)));

    let unknown = Log { address: 7, transaction_hash: Some(77) };
    let out = instance.process_trigger(&block, EthereumTrigger::Log(unknown), Vec::new());
    assert!(matches!(out, Err(ProcessError::NoTransactionForLog)));
}

#[test]
fn call_trigger_threads_operations_through_matching_hosts() {
    let instance = instance_of(three_sources(Mapping::Append(OP_A), Mapping::Append(OP_B)));
    let block = block_with_transaction(9);
    let call = EthereumCall { to: 7, transaction_hash: Some(9) };
    let out = instance
        .process_trigger(&block, EthereumTrigger::Call(call), Vec::new())
        .unwrap();
    assert_eq!(out, vec![OP_A, OP_B]);
}

#[test]
fn call_without_resolvable_transaction_fails_before_any_host() {
    let instance = instance_of(three_sources(Mapping::Append(OP_A), Mapping::Append(OP_B)));
    let block = block_with_transaction(9);
    let call = EthereumCall { to: 7, transaction_hash: None };
    let out = instance.process_trigger(&block, EthereumTrigger::Call(call), Vec::new());
    assert!(matches!(out, Err(ProcessError::NoTransactionForCall)));
}

#[test]
fn block_trigger_needs_no_transaction_lookup() {
    let instance = instance_of(three_sources(Mapping::Append(OP_A), Mapping::Append(OP_B)));
    let block = EthereumBlock { number: 1, transactions: Vec::new() };
    let call = EthereumCall { to: 7, transaction_hash: None };
    let out = instance
        .process_trigger(&block, EthereumTrigger::Block(call), Vec::new())
        .unwrap();
    assert_eq!(out, vec![OP_A, OP_B]);
}

#[test]
fn dispatch_appends_to_the_input_operations() {
    let instance = instance_of(three_sources(Mapping::Append(OP_A), Mapping::Append(OP_B)));
    let block = block_with_transaction(9);
    let log = Log { address: 7, transaction_hash: Some(9) };
    let seed = EntityOperation { entity: 9, value: 90 };
    let out = instance
        .process_trigger(&block, EthereumTrigger::Log(log), vec![seed])
        .unwrap();
    assert_eq!(out, vec![seed, OP_A, OP_B]);
}

#[test]
fn trigger_matching_no_host_returns_the_input_unchanged() {
    let instance = instance_of(three_sources(Mapping::Append(OP_A), Mapping::Append(OP_B)));
    let block = block_with_transaction(9);
    let log = Log { address: 99, transaction_hash: Some(9) };
    let seed = EntityOperation { entity: 9, value: 90 };
    let out = instance
        .process_trigger(&block, EthereumTrigger::Log(log), vec![seed])
        .unwrap();
    assert_eq!(out, vec![seed]);
}

#[test]
fn matches_log_reports_any_interested_host() {
    let instance = instance_of(three_sources(Mapping::Append(OP_A), Mapping::Append(OP_B)));
    assert!(instance.matches_log(&Log { address: 7, transaction_hash: None }));
    assert!(instance.matches_log(&Log { address: 8, transaction_hash: None }));
    assert!(!instance.matches_log(&Log { address: 99, transaction_hash: None }));
}

#[test]
fn matches_covers_every_trigger_kind() {
    let instance = instance_of(three_sources(Mapping::Append(OP_A), Mapping::Append(OP_B)));
    let block = EthereumBlock { number: 1, transactions: Vec::new() };
    let log = EthereumTrigger::Log(Log { address: 8, transaction_hash: None });
    let call = EthereumTrigger::Call(EthereumCall { to: 7, transaction_hash: None });
    let other = EthereumTrigger::Block(EthereumCall { to: 99, transaction_hash: None });
    assert!(instance.matches(&block, &log));
    assert!(instance.matches(&block, &call));
    assert!(!instance.matches(&block, &other));
}

#[test]
fn a_failing_host_still_fails_with_later_hosts_matching() {
    let instance = instance_of(three_sources(
        Mapping::Append(OP_A),
        Mapping::Abort(String::from("late failure")),
    ));
    let block = block_with_transaction(9);
    let log = Log { address: 7, transaction_hash: Some(9) };
    let out = instance.process_trigger(&block, EthereumTrigger::Log(log), Vec::new());
    match out {
        Err(ProcessError::HostFailed(e)) => assert_eq!(e.message, "late failure"),
        other => panic!("expected a host failure, got {:?}", other),
    }
}
