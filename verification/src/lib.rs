//! Block- and state-query helpers for an Ethereum-style JSON-RPC server.
//!
//! The crate assembles data that a node has already persisted (blocks,
//! receipts, accounts, storage) into the objects an RPC client expects. Backends
//! are supplied through narrow capability traits, so the same code serves a
//! base-layer chain and a rollup that also reports L1 data-availability costs.

pub mod capability;
pub mod eth_receipts;
pub mod memory;
pub mod op_receipts;
pub mod op_receipts_laws;
pub mod primitives;
pub mod state;
pub mod word_map;
