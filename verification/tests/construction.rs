use subgraph_core::chain::{EthereumBlock, EthereumTrigger, Log, Transaction};
use subgraph_core::host::EntityOperation;
use subgraph_core::instance::SubgraphInstance;
use subgraph_core::manifest::{DataSource, Mapping, SubgraphManifest};
use subgraph_core::scripted::ScriptedHostBuilder;

fn data_source(name: &str, address: u64, mapping: Mapping) -> DataSource {
    DataSource { name: String::from(name), address, mapping }
}

fn manifest(data_sources: Vec<DataSource>) -> SubgraphManifest {
    SubgraphManifest { id: String::from("subgraph"), data_sources }
}

fn block_with_transaction(hash: u64) -> EthereumBlock {
    EthereumBlock { number: 1, transactions: vec![Transaction { hash, index: 0 }] }
}

#[test]
fn hosts_are_built_in_manifest_order() {
    let op1 = EntityOperation { entity: 1, value: 10 };
    let op2 = EntityOperation { entity: 2, value: 20 };
    let op3 = EntityOperation { entity: 3, value: 30 };
    let m = manifest(vec![
        data_source("first", 7, Mapping::Append(op1)),
        data_source("second", 7, Mapping::Append(op2)),
        data_source("third", 7, Mapping::Append(op3)),
    ]);
    let instance = SubgraphInstance::from_manifest(m, ScriptedHostBuilder).unwrap();
    assert_eq!(instance.host_count(), 3);

    let block = block_with_transaction(9);
    let log = Log { address: 7, transaction_hash: Some(9) };
    let out = instance
        .process_trigger(&block, EthereumTrigger::Log(log), Vec::new())
        .unwrap();
    assert_eq!(out, vec![op1, op2, op3]);
}

#[test]
fn construction_fails_when_any_build_fails() {
    let op = EntityOperation { entity: 1, value: 10 };
    let m = manifest(vec![
        data_source("good", 7, Mapping::Append(op)),
        data_source("bad", 8, Mapping::Invalid(String::from("boom"))),
    ]);
    let r = SubgraphInstance::from_manifest(m, ScriptedHostBuilder);
    let e = r.err().expect("construction must fail");
    assert_eq!(e.message, "Errors loading data sources: boom");
}

#[test]
fn construction_aggregates_every_failure_in_order() {
    let op = EntityOperation { entity: 1, value: 10 };
    let m = manifest(vec![
        data_source("bad1", 7, Mapping::Invalid(String::from("first bad"))),
        data_source("good", 8, Mapping::Append(op)),
        data_source("bad2", 9, Mapping::Invalid(String::from("second bad"))),
    ]);
    let r = SubgraphInstance::from_manifest(m, ScriptedHostBuilder);
    let e = r.err().expect("construction must fail");
    assert_eq!(e.message, "Errors loading data sources: first bad, second bad");
}

#[test]
fn empty_manifest_builds_an_instance_with_no_hosts() {
    let m = manifest(Vec::new());
    let instance = SubgraphInstance::from_manifest(m, ScriptedHostBuilder).unwrap();
    assert_eq!(instance.host_count(), 0);

    let log = Log { address: 7, transaction_hash: Some(9) };
    assert!(!instance.matches_log(&log));

    let block = block_with_transaction(9);
    let out = instance
        .process_trigger(
            &block,
            EthereumTrigger::Log(log),
            vec![EntityOperation { entity: 4, value: 40 }],
        )
        .unwrap();
    assert_eq!(out, vec![EntityOperation { entity: 4, value: 40 }]);
}
