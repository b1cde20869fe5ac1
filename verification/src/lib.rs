//! A racing worker pool core: a fixed number of identical workers repeatedly
//! drive an external generator command and race to be the first to observe
//! that the count of artifact files in a shared directory has increased past
//! a running maximum. The first increase wins: the monitor signals
//! cancellation and the whole pool shuts down.
//!
//! This crate holds the verified core: the monitor's completion test, the
//! cancellation token, the worker's per-iteration decisions, artifact-name
//! counting, the generator's argument protocol, and the pool plan. The
//! surrounding process work (spawning the generator, reading directories,
//! channels and threads, logging) lives outside the library and consumes
//! these pieces through plain values.

pub mod artifacts;
pub mod config;
pub mod generator;
pub mod monitor;
pub mod token;
pub mod worker;
