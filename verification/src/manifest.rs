//! The subgraph manifest: an identifier and an ordered list of data
//! sources.
//!
//! The order of the data sources is semantically significant: it fixes the
//! order in which hosts are built and the order in which triggers are
//! dispatched, and it is preserved end-to-end.

use vstd::prelude::*;
use crate::host::EntityOperation;

verus! {

/// The mapping of a data source: what a host built for it does with every
/// trigger it matches. This crate ships a deterministic, declarative
/// mapping model; a builder for a richer runtime is free to interpret the
/// same declaration differently.
#[derive(Debug)]
pub enum Mapping {
    /// Every handler appends this operation to the pending list.
    Append(EntityOperation),
    /// Every handler fails with this message.
    Abort(String),
    /// The mapping cannot be instantiated; building a host for it fails
    /// with this message.
    Invalid(String),
}

/// One manifest entry: the contract address a data source watches and the
/// mapping to run for its triggers.
#[derive(Debug)]
pub struct DataSource {
    pub name: String,
    /// The contract address whose logs and calls this data source is
    /// interested in.
    pub address: u64,
    pub mapping: Mapping,
}

/// A subgraph manifest: an identifier and the data sources, in manifest
/// order.
#[derive(Debug)]
pub struct SubgraphManifest {
    pub id: String,
    pub data_sources: Vec<DataSource>,
}

} // verus!
