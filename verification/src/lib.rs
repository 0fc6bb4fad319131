//! A work-distribution core for batches of independent, CPU-bound tasks.
//!
//! The engine spreads a finite task list over a two-level hardware topology
//! (compute units, each with a number of cores), optionally pinning each
//! worker lane to a physical core, and aggregates per-task and per-unit
//! outcome statistics into an immutable result snapshot.
//!
//! The dispatcher here executes the full lane protocol — one shared FIFO,
//! one termination marker per lane, every lane run to completion before the
//! counters are read — in one deterministic schedule, on the calling thread.
//! Everything stated about the result (every task processed exactly once,
//! successes plus failures equal the total, per-unit counts add up) is
//! independent of the schedule, so an embedder that drives the same protocol
//! with one OS thread per lane owes its callers the same accounting.

pub mod aggregator;
pub mod channel;
pub mod dispatcher;
pub mod outcome;
pub mod pinning;
pub mod task;
pub mod topology;
