//! The runtime-host capability and the errors of the engine.
//!
//! A runtime host is the execution unit bound to one data source. The
//! engine consumes hosts only through the [`RuntimeHost`] capability:
//! interest predicates for each trigger kind, and one processing operation
//! per kind that transforms the pending list of entity operations. A
//! [`RuntimeHostBuilder`] turns a data source declaration into a host and
//! may fail per data source.
//!
//! Each executable capability is pinned to a spec-level counterpart, so the
//! engine's own contracts can say exactly which host ran, in what order,
//! and with which list of pending operations.

use vstd::prelude::*;
use crate::chain::{EthereumBlock, EthereumCall, Log, Transaction};
use crate::manifest::DataSource;

verus! {

/// One pending data-store mutation produced by a host.
#[derive(Clone, Copy, Debug, PartialEq, Eq)]
pub struct EntityOperation {
    /// The entity the operation is about.
    pub entity: u64,
    /// The value the operation writes.
    pub value: u64,
}

/// Failure of one host's processing step.
#[derive(Debug)]
pub struct HostError {
    pub message: String,
}

/// Failure to build a host from one data source.
#[derive(Debug)]
pub struct BuildError {
    pub message: String,
}

/// Failure to construct a subgraph instance: one or more of the
/// manifest's data sources could not be built into hosts. The message
/// aggregates every underlying failure's description.
#[derive(Debug)]
pub struct CreationError {
    pub message: String,
}

/// Failure of one trigger dispatch.
#[derive(Debug)]
pub enum ProcessError {
    /// A log trigger's transaction could not be resolved in the block.
    NoTransactionForLog,
    /// A call trigger's transaction could not be resolved in the block.
    NoTransactionForCall,
    /// An invoked host's processing step failed.
    HostFailed(HostError),
}

/// The capability of one runtime host, bound to exactly one data source.
///
/// The interest predicates are pure and fast; the processing operations may
/// do arbitrary work but their outcome is a function of their arguments, so
/// that replaying the same chain data yields the same operations. Errors
/// are reported at spec level as the failure's message.
pub trait RuntimeHost: Sized {
    /// Whether this host is interested in the given log.
    spec fn matches_log_spec(&self, log: Log) -> bool;

    /// Whether this host is interested in the given call.
    spec fn matches_call_spec(&self, call: EthereumCall) -> bool;

    /// Whether this host is interested in a new block, given the block and
    /// its call context.
    spec fn matches_block_spec(&self, block: EthereumBlock, call: EthereumCall) -> bool;

    /// The outcome of processing a log: the next list of pending
    /// operations, or the message of the failure.
    spec fn process_log_spec(
        &self,
        block: EthereumBlock,
        transaction: Transaction,
        log: Log,
        operations: Seq<EntityOperation>,
    ) -> Result<Seq<EntityOperation>, Seq<char>>;

    /// The outcome of processing a call.
    spec fn process_call_spec(
        &self,
        block: EthereumBlock,
        transaction: Transaction,
        call: EthereumCall,
        operations: Seq<EntityOperation>,
    ) -> Result<Seq<EntityOperation>, Seq<char>>;

    /// The outcome of processing a new block.
    spec fn process_block_spec(
        &self,
        block: EthereumBlock,
        operations: Seq<EntityOperation>,
    ) -> Result<Seq<EntityOperation>, Seq<char>>;

    /// Reports interest in a log.
    fn matches_log(&self, log: &Log) -> (r: bool)
        ensures
            r == self.matches_log_spec(*log),
    ;

    /// Reports interest in a call.
    fn matches_call(&self, call: &EthereumCall) -> (r: bool)
        ensures
            r == self.matches_call_spec(*call),
    ;

    /// Reports interest in a new block with the given call context.
    fn matches_block(&self, block: &EthereumBlock, call: &EthereumCall) -> (r: bool)
        ensures
            r == self.matches_block_spec(*block, *call),
    ;

    /// Processes a log, threading the pending operations through this
    /// host's log handler.
    fn process_log(
        &self,
        block: &EthereumBlock,
        transaction: &Transaction,
        log: &Log,
        operations: Vec<EntityOperation>,
    ) -> (r: Result<Vec<EntityOperation>, HostError>)
        ensures
            (match r {
                Ok(out) => self.process_log_spec(*block, *transaction, *log, operations@)
                    == Ok::<Seq<EntityOperation>, Seq<char>>(out@),
                Err(e) => self.process_log_spec(*block, *transaction, *log, operations@)
                    == Err::<Seq<EntityOperation>, Seq<char>>(e.message@),
            }),
    ;

    /// Processes a call.
    fn process_call(
        &self,
        block: &EthereumBlock,
        transaction: &Transaction,
        call: &EthereumCall,
        operations: Vec<EntityOperation>,
    ) -> (r: Result<Vec<EntityOperation>, HostError>)
        ensures
            (match r {
                Ok(out) => self.process_call_spec(*block, *transaction, *call, operations@)
                    == Ok::<Seq<EntityOperation>, Seq<char>>(out@),
                Err(e) => self.process_call_spec(*block, *transaction, *call, operations@)
                    == Err::<Seq<EntityOperation>, Seq<char>>(e.message@),
            }),
    ;

    /// Processes a new block.
    fn process_block(
        &self,
        block: &EthereumBlock,
        operations: Vec<EntityOperation>,
    ) -> (r: Result<Vec<EntityOperation>, HostError>)
        ensures
            (match r {
                Ok(out) => self.process_block_spec(*block, operations@)
                    == Ok::<Seq<EntityOperation>, Seq<char>>(out@),
                Err(e) => self.process_block_spec(*block, operations@)
                    == Err::<Seq<EntityOperation>, Seq<char>>(e.message@),
            }),
    ;
}

/// A factory that builds one runtime host per data source; building may
/// fail per data source, with a message. The outcome is a function of the
/// manifest identifier and the data source.
pub trait RuntimeHostBuilder: Sized {
    /// The kind of host this builder produces.
    type Host: RuntimeHost;

    /// The outcome of building a host for the given data source: the host,
    /// or the message of the failure.
    spec fn build_spec(&self, manifest_id: Seq<char>, data_source: DataSource) -> Result<
        Self::Host,
        Seq<char>,
    >;

    /// Builds a host for one data source of the manifest.
    fn build(&self, manifest_id: &String, data_source: DataSource) -> (r: Result<
        Self::Host,
        BuildError,
    >)
        ensures
            (match r {
                Ok(host) => self.build_spec(manifest_id@, data_source) == Ok::<
                    Self::Host,
                    Seq<char>,
                >(host),
                Err(e) => self.build_spec(manifest_id@, data_source) == Err::<
                    Self::Host,
                    Seq<char>,
                >(e.message@),
            }),
    ;
}

} // verus!
