//! Diagnostic core for querying an Ethereum-compatible JSON-RPC node.
//!
//! The crate holds the pure pipeline of such a query: picking a transport
//! from the node URL, persisting the node address, building the `eth_getLogs`
//! filter and the JSON-RPC envelope, decoding a reply, and rendering the
//! outcome report. The surrounding process does the actual I/O and hands
//! plain values in and out.

pub mod config;
pub mod hexnum;
pub mod report;
pub mod request;
pub mod runner;
pub mod text;
pub mod transport;
