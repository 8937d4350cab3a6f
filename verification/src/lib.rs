//! A synthetic-traffic probe driver: a fixed pool of independent workers,
//! each issuing one liveness probe per tick against a configured target.
//!
//! The crate holds the decision logic: resolving layered configuration,
//! building one probe descriptor per worker, classifying attempt outcomes,
//! and the per-worker tick/attempt/shutdown state machine. The surrounding
//! binary performs the actual I/O and drives the state machine.

pub mod config;
pub mod probe;
pub mod worker;
