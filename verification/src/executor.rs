//! Settings and metrics of the real-time executor.
use vstd::prelude::*;

use crate::scheduler::SchedulingPolicy;

verus! {

/// Executor metrics for performance monitoring.
#[derive(Debug, Clone)]
pub struct ExecutorMetrics {
    /// Number of tasks scheduled
    pub scheduled_tasks: u64,
    /// Number of tasks completed
    pub completed_tasks: u64,
    /// Average task latency (ns)
    pub avg_latency_ns: u64,
    /// P99 task latency (ns)
    pub p99_latency_ns: u64,
}

impl Default for ExecutorMetrics {
    /// All counters and latencies start at zero.
    fn default() -> (m: Self)
        ensures
            m.scheduled_tasks == 0,
            m.completed_tasks == 0,
            m.avg_latency_ns == 0,
            m.p99_latency_ns == 0,
    {
        ExecutorMetrics { scheduled_tasks: 0, completed_tasks: 0, avg_latency_ns: 0, p99_latency_ns: 0 }
    }
}

/// The plain settings of the real-time executor: where its tasks run, under
/// which policy, on how many worker threads, and whether idle threads park.
#[derive(Debug, Clone)]
pub struct ExecutorSettings {
    /// CPU cores to run on (for isolation)
    pub cpu_affinity: Option<Vec<usize>>,
    /// Scheduling policy
    pub scheduling_policy: SchedulingPolicy,
    /// Number of worker threads (default: 1 for RT tasks)
    pub worker_threads: Option<usize>,
    /// Enable thread parking for power efficiency
    pub enable_parking: bool,
}

impl Default for ExecutorSettings {
    /// No affinity, the standard policy, a single worker thread for
    /// determinism, and parking enabled.
    fn default() -> (s: Self)
        ensures
            s.cpu_affinity is None,
            s.scheduling_policy is Other,
            s.worker_threads == Some(1usize),
            s.enable_parking,
    {
        ExecutorSettings {
            cpu_affinity: None,
            scheduling_policy: SchedulingPolicy::Other,
            worker_threads: Some(1),
            enable_parking: true,
        }
    }
}

} // verus!
