# realtime_core

Deterministic timing primitives for real-time systems, written in Verus.

- `src/` is the library, verified by Verus:
  - `scheduler`: SCHED_FIFO / SCHED_RR / SCHED_DEADLINE configuration and CPU affinity, with the invariant `runtime <= deadline <= period`, and laws over sequences of calls;
  - `jitter`: jitter measurements and percentile statistics (exact linear interpolation at thousandths);
  - `error`, `executor`, `timer`: the scheduler's error type, executor settings and metrics, timer backends.
- `app/` holds the runtime side: the tokio timer and executor, the floating-point rate conversions, and the error types with their `Display`.
- `tests/` exercises the library.
