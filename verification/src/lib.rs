//! A transactional key-value storage core for a ledger.
//!
//! The crate is layered. [`kv`] holds the map store: a key-value container
//! whose writes can be staged in an atomic batch, checkpointed, rewound,
//! aborted or committed. [`types`] holds the transaction data model:
//! deployments, executions, fees and transitions. [`transition_store`],
//! [`deployment`], [`execution`] and [`transaction`] build the schema layers
//! that decompose a transaction into mutually consistent maps, all kept in
//! step by the batch protocol. [`laws`] states and proves the crate-wide
//! guarantees that relate several operations.

pub mod errors;
pub mod kv;
pub mod types;
pub mod transition_store;
pub mod deployment;
pub mod execution;
pub mod transaction;
pub mod laws;
