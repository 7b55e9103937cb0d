//! Decision logic of an Aleph Zero validator node with Ethereum compatibility:
//! block-production backoff, the node's Ethereum configuration, the Frontier
//! backend and maintenance tasks, the RPC surface, and the settings that a
//! validator is started with.
pub mod backoff;
pub mod eth_config;
pub mod aleph_cli;
pub mod paths;
pub mod service;
pub mod frontier;
pub mod rpc;
pub mod runtime;
