//! Verified core of a single-worker process supervisor.
//!
//! The library holds the logic of a desktop companion that owns the
//! lifecycle of one long-running worker process: idempotent start / stop /
//! restart over an exclusively-owned state record, uptime and health
//! reporting, structured log events for the worker's output streams, a flat
//! `key=value` configuration file, prerequisite evaluation for the worker's
//! toolchain, and the step machines of the setup flows.  Everything that
//! touches the operating system — spawning and signalling processes, the
//! clock, the file system, the network probe — lives outside the library and
//! hands it plain values.

pub mod config;
pub mod logs;
pub mod metrics;
pub mod paths;
pub mod prereq;
pub mod setup;
pub mod supervisor;
pub mod text;
