//! A deterministic dispatch engine for blockchain-indexing subgraphs.
//!
//! A subgraph instance owns one runtime host per data source, in the order
//! the data sources appear in the subgraph manifest. Incoming chain events
//! (logs, contract calls, new blocks) are routed through the hosts that
//! declare interest in them, strictly in manifest order, threading a single
//! list of pending entity operations through every matching host.

pub mod chain;
pub mod host;
pub mod instance;
pub mod manifest;
pub mod scripted;
