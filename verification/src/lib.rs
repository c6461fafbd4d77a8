//! A verified model of a real-time serial fan-out engine.
//!
//! One physical serial device is replicated onto two independently consumable
//! virtual endpoints. Correctness is freshness, not completeness: a slow
//! consumer loses stale data rather than stalling the pipeline or the other
//! consumer. This crate holds the decision logic of that engine — the
//! per-endpoint staleness and backpressure policy, the loop-iteration
//! decisions, and the lifecycle of the endpoints and their filesystem
//! aliases — each with a contract. The surrounding process (device I/O,
//! symlink calls, logging, argument parsing) drives these decisions from
//! outside.

use vstd::prelude::*;

pub mod engine;
pub mod policy;

verus! {

/// Backlog threshold, in bytes, below which new data is still written to an
/// endpoint; at or above it, new data is dropped for that endpoint. Chosen
/// well under the OS buffer's true capacity, leaving headroom.
pub const HIGH_WATER_MARK: u32 = 2048;

/// Capacity of the single read buffer reused across loop iterations.
pub const READ_BUFFER_CAPACITY: usize = 4096;

} // verus!
