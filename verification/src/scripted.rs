//! A concrete runtime host that interprets a data source's declarative
//! mapping directly.
//!
//! A scripted host is interested in exactly the logs and calls addressed
//! to its data source's contract, and its handlers do what the mapping
//! declares: append one operation to the pending list, or fail with a
//! fixed message. It is the reference implementation of the host
//! capability and the one this crate's tests dispatch through.

use vstd::prelude::*;
use crate::chain::{EthereumBlock, EthereumCall, Log, Transaction};
use crate::host::{BuildError, EntityOperation, HostError, RuntimeHost, RuntimeHostBuilder};
use crate::manifest::{DataSource, Mapping};

verus! {

/// A host that runs a declarative mapping for one data source.
#[derive(Debug)]
pub struct ScriptedHost {
    /// The contract address this host watches.
    pub address: u64,
    /// What every handler of this host does.
    pub mapping: Mapping,
}

/// What one processing step of a scripted host does with the pending
/// operations: append the mapping's operation, or fail with the mapping's
/// message. A host holding a mapping that cannot be instantiated fails as
/// well; the builder never produces such a host.
pub open spec fn scripted_step(
    mapping: Mapping,
    operations: Seq<EntityOperation>,
) -> Result<Seq<EntityOperation>, Seq<char>> {
    match mapping {
        Mapping::Append(op) => Ok(operations.push(op)),
        Mapping::Abort(message) => Err(message@),
        Mapping::Invalid(message) => Err(message@),
    }
}

impl ScriptedHost {
    /// Runs one processing step of this host's mapping.
    fn step(&self, operations: Vec<EntityOperation>) -> (r: Result<
        Vec<EntityOperation>,
        HostError,
    >)
        ensures
            (match r {
                Ok(out) => scripted_step(self.mapping, operations@) == Ok::<
                    Seq<EntityOperation>,
                    Seq<char>,
                >(out@),
                Err(e) => scripted_step(self.mapping, operations@) == Err::<
                    Seq<EntityOperation>,
                    Seq<char>,
                >(e.message@),
            }),
    {
        match &self.mapping {
            Mapping::Append(op) => {
                let mut out = operations;
                out.push(*op);
                Ok(out)
            },
            Mapping::Abort(message) => Err(
                HostError { message: String::from_str(message.as_str()) },
            ),
            Mapping::Invalid(message) => Err(
                HostError { message: String::from_str(message.as_str()) },
            ),
        }
    }
}

impl RuntimeHost for ScriptedHost {
    open spec fn matches_log_spec(&self, log: Log) -> bool {
        log.address == self.address
    }

    open spec fn matches_call_spec(&self, call: EthereumCall) -> bool {
        call.to == self.address
    }

    open spec fn matches_block_spec(&self, block: EthereumBlock, call: EthereumCall) -> bool {
        call.to == self.address
    }

    open spec fn process_log_spec(
        &self,
        block: EthereumBlock,
        transaction: Transaction,
        log: Log,
        operations: Seq<EntityOperation>,
    ) -> Result<Seq<EntityOperation>, Seq<char>> {
        scripted_step(self.mapping, operations)
    }

    open spec fn process_call_spec(
        &self,
        block: EthereumBlock,
        transaction: Transaction,
        call: EthereumCall,
        operations: Seq<EntityOperation>,
    ) -> Result<Seq<EntityOperation>, Seq<char>> {
        scripted_step(self.mapping, operations)
    }

    open spec fn process_block_spec(
        &self,
        block: EthereumBlock,
        operations: Seq<EntityOperation>,
    ) -> Result<Seq<EntityOperation>, Seq<char>> {
        scripted_step(self.mapping, operations)
    }

    fn matches_log(&self, log: &Log) -> (r: bool) {
        log.address == self.address
    }

    fn matches_call(&self, call: &EthereumCall) -> (r: bool) {
        call.to == self.address
    }

    fn matches_block(&self, block: &EthereumBlock, call: &EthereumCall) -> (r: bool) {
        call.to == self.address
    }

    fn process_log(
        &self,
        block: &EthereumBlock,
        transaction: &Transaction,
        log: &Log,
        operations: Vec<EntityOperation>,
    ) -> (r: Result<Vec<EntityOperation>, HostError>) {
        self.step(operations)
    }

    fn process_call(
        &self,
        block: &EthereumBlock,
        transaction: &Transaction,
        call: &EthereumCall,
        operations: Vec<EntityOperation>,
    ) -> (r: Result<Vec<EntityOperation>, HostError>) {
        self.step(operations)
    }

    fn process_block(
        &self,
        block: &EthereumBlock,
        operations: Vec<EntityOperation>,
    ) -> (r: Result<Vec<EntityOperation>, HostError>) {
        self.step(operations)
    }
}

/// Builds scripted hosts: one per data source, watching the data source's
/// address and running its mapping; fails exactly on a mapping that cannot
/// be instantiated.
#[derive(Clone, Copy, Debug)]
pub struct ScriptedHostBuilder;

impl RuntimeHostBuilder for ScriptedHostBuilder {
    type Host = ScriptedHost;

    open spec fn build_spec(&self, manifest_id: Seq<char>, data_source: DataSource) -> Result<
        ScriptedHost,
        Seq<char>,
    > {
        match data_source.mapping {
            Mapping::Invalid(message) => Err(message@),
            _ => Ok(
                ScriptedHost { address: data_source.address, mapping: data_source.mapping },
            ),
        }
    }

    fn build(&self, manifest_id: &String, data_source: DataSource) -> (r: Result<
        ScriptedHost,
        BuildError,
    >) {
        match data_source.mapping {
            Mapping::Invalid(message) => Err(BuildError { message }),
            mapping => Ok(ScriptedHost { address: data_source.address, mapping }),
        }
    }
}

} // verus!
