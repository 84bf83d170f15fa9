//! Deterministic timing primitives for real-time systems: scheduling
//! configuration and jitter statistics, with their contracts proved.
use vstd::prelude::*;

pub mod error;
pub mod executor;
pub mod jitter;
pub mod scheduler;
pub mod timer;

pub use error::SchedulerError;
pub use executor::{ExecutorMetrics, ExecutorSettings};
pub use jitter::{JitterMeasurement, JitterStats};
pub use scheduler::{DeadlineParams, Scheduler, SchedulingPolicy};
pub use timer::TimerBackend;

verus! {

/// Nanoseconds in one second: the factor between a rate in Hz and an
/// interval in nanoseconds (`interval_ns = 10^9 / rate_hz`).
pub const NANOS_PER_SECOND: u64 = 1_000_000_000;

} // verus!
