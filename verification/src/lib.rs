//! A minimal actor-style concurrency harness: agents that communicate only
//! by sending typed messages over dedicated channels, addressed through a
//! shared registry of outbound endpoints, with an aggregator that folds
//! received deltas until it observes channel closure.
//!
//! The library holds the verified logic: the data model, the registry, the
//! aggregator's fold and state machine, the producer's message construction,
//! and the supervisor's decision machine. Thread spawning, joining and
//! console output live outside it.

pub mod channel;
pub mod laws;
pub mod market;
pub mod stock;
pub mod supervisor;
pub mod woodworker;
pub mod world;
