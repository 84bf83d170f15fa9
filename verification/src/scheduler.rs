//! Real-time scheduler configuration: CPU isolation and real-time scheduling
//! policies (SCHED_FIFO, SCHED_RR, SCHED_DEADLINE).
use vstd::prelude::*;

use crate::error::{is_invalid_params, is_policy_not_supported, SchedulerError};

verus! {

/// Real-time scheduling policies.
#[derive(Debug, Clone, Copy)]
pub enum SchedulingPolicy {
    /// SCHED_FIFO: first-in-first-out real-time policy, priority 1-99.
    Fifo(i32),
    /// SCHED_RR: round-robin real-time policy, priority 1-99.
    RoundRobin(i32),
    /// SCHED_DEADLINE: deadline scheduling; runtime_ns <= deadline_ns <= period_ns.
    Deadline {
        /// CPU time per period (ns)
        runtime_ns: u64,
        /// Maximum completion time (ns)
        deadline_ns: u64,
        /// Recurrence interval (ns)
        period_ns: u64,
    },
    /// Standard Linux scheduling (fallback).
    Other,
}

/// SCHED_DEADLINE parameters; valid when `runtime_ns <= deadline_ns <= period_ns`.
#[derive(Debug, Clone, Copy)]
pub struct DeadlineParams {
    /// CPU time per period (ns)
    pub runtime_ns: u64,
    /// Maximum completion time (ns)
    pub deadline_ns: u64,
    /// Recurrence interval (ns)
    pub period_ns: u64,
}

/// Message for a runtime that exceeds the deadline.
pub open spec fn runtime_order_message() -> Seq<char> {
    "runtime_ns must be ≤ deadline_ns"@
}

/// Message for a deadline that exceeds the period.
pub open spec fn deadline_order_message() -> Seq<char> {
    "deadline_ns must be ≤ period_ns"@
}

/// The first broken link of `runtime <= deadline <= period`, as its message,
/// or `None` when the chain holds.
pub open spec fn deadline_order_violation(runtime_ns: u64, deadline_ns: u64, period_ns: u64) -> Option<Seq<char>> {
    if runtime_ns > deadline_ns {
        Some(runtime_order_message())
    } else if deadline_ns > period_ns {
        Some(deadline_order_message())
    } else {
        None
    }
}

/// `r` is the outcome of checking `runtime <= deadline <= period`: `Ok` exactly
/// when the chain holds, else the error naming its first broken link.
pub open spec fn check_outcome<T>(r: Result<T, SchedulerError>, runtime_ns: u64, deadline_ns: u64, period_ns: u64) -> bool {
    match deadline_order_violation(runtime_ns, deadline_ns, period_ns) {
        None => r is Ok,
        Some(msg) => r matches Err(e) && is_invalid_params(e, msg),
    }
}

impl DeadlineParams {
    /// The ordering invariant `runtime_ns <= deadline_ns <= period_ns`.
    pub open spec fn is_valid(self) -> bool {
        self.runtime_ns <= self.deadline_ns && self.deadline_ns <= self.period_ns
    }

    /// Create new deadline parameters, refusing those that break
    /// `runtime_ns <= deadline_ns <= period_ns`.
    pub fn new(runtime_ns: u64, deadline_ns: u64, period_ns: u64) -> (res: Result<Self, SchedulerError>)
        ensures
            check_outcome(res, runtime_ns, deadline_ns, period_ns),
            res matches Ok(params) ==> params == (DeadlineParams { runtime_ns, deadline_ns, period_ns }),
            res is Ok <==> runtime_ns <= deadline_ns <= period_ns,
    {
        if runtime_ns > deadline_ns {
            return Err(SchedulerError::InvalidDeadlineParams("runtime_ns must be ≤ deadline_ns"));
        }
        if deadline_ns > period_ns {
            return Err(SchedulerError::InvalidDeadlineParams("deadline_ns must be ≤ period_ns"));
        }
        Ok(Self { runtime_ns, deadline_ns, period_ns })
    }

    /// Check the ordering invariant of these parameters.
    pub fn validate(&self) -> (res: Result<(), SchedulerError>)
        ensures
            check_outcome(res, self.runtime_ns, self.deadline_ns, self.period_ns),
            res is Ok <==> self.is_valid(),
    {
        if self.runtime_ns > self.deadline_ns {
            return Err(SchedulerError::InvalidDeadlineParams("runtime_ns must be ≤ deadline_ns"));
        }
        if self.deadline_ns > self.period_ns {
            return Err(SchedulerError::InvalidDeadlineParams("deadline_ns must be ≤ period_ns"));
        }
        Ok(())
    }
}

/// The abstract state of a [`Scheduler`].
pub struct SchedulerModel {
    /// CPU cores the tasks are pinned to, if any.
    pub affinity: Option<Seq<usize>>,
    /// The selected scheduling policy.
    pub policy: SchedulingPolicy,
    /// The deadline parameters, present exactly under SCHED_DEADLINE.
    pub params: Option<DeadlineParams>,
}

/// A real-time priority lies in 1..=99.
pub open spec fn is_rt_priority(priority: i32) -> bool {
    1 <= priority <= 99
}

impl SchedulerModel {
    /// The scheduler invariant: deadline parameters are held exactly when the
    /// policy is SCHED_DEADLINE, they repeat the policy's values and keep
    /// `runtime <= deadline <= period`; FIFO and RR priorities lie in 1..=99.
    pub open spec fn consistent(self) -> bool {
        match self.policy {
            SchedulingPolicy::Deadline { runtime_ns, deadline_ns, period_ns } => {
                &&& self.params == Some(DeadlineParams { runtime_ns, deadline_ns, period_ns })
                &&& runtime_ns <= deadline_ns <= period_ns
            },
            SchedulingPolicy::Fifo(p) => self.params is None && is_rt_priority(p),
            SchedulingPolicy::RoundRobin(p) => self.params is None && is_rt_priority(p),
            SchedulingPolicy::Other => self.params is None,
        }
    }

    /// The state of a freshly created scheduler.
    pub open spec fn initial() -> SchedulerModel {
        SchedulerModel { affinity: None, policy: SchedulingPolicy::Other, params: None }
    }

    /// This state with the policy and deadline parameters replaced.
    pub open spec fn with_policy(self, policy: SchedulingPolicy, params: Option<DeadlineParams>) -> SchedulerModel {
        SchedulerModel { affinity: self.affinity, policy, params }
    }

    /// This state with the CPU affinity replaced.
    pub open spec fn with_affinity(self, cpus: Seq<usize>) -> SchedulerModel {
        SchedulerModel { affinity: Some(cpus), policy: self.policy, params: self.params }
    }
}

/// A call that changes a scheduler, with what it was given. For a CPU
/// affinity change, `accepted` records whether the machine accepted every
/// core (that depends on its CPU count).
pub enum SchedulerCall {
    /// `set_cpu_affinity(cpus)` or `set_cpu_affinity_within(cpus, _)`.
    SetCpuAffinity { cpus: Seq<usize>, accepted: bool },
    /// `set_fifo(priority)`.
    SetFifo(i32),
    /// `set_round_robin(priority)`.
    SetRoundRobin(i32),
    /// `set_deadline(runtime_ns, deadline_ns, period_ns)`.
    SetDeadline { runtime_ns: u64, deadline_ns: u64, period_ns: u64 },
}

impl SchedulerModel {
    /// The state after `call`: an accepted change replaces its part of the
    /// state, a refused one leaves the state as it was.
    pub open spec fn after(self, call: SchedulerCall) -> SchedulerModel {
        match call {
            SchedulerCall::SetCpuAffinity { cpus, accepted } => {
                if accepted { self.with_affinity(cpus) } else { self }
            },
            SchedulerCall::SetFifo(p) => {
                if is_rt_priority(p) { self.with_policy(SchedulingPolicy::Fifo(p), None) } else { self }
            },
            SchedulerCall::SetRoundRobin(p) => {
                if is_rt_priority(p) { self.with_policy(SchedulingPolicy::RoundRobin(p), None) } else { self }
            },
            SchedulerCall::SetDeadline { runtime_ns, deadline_ns, period_ns } => {
                if runtime_ns <= deadline_ns <= period_ns {
                    self.with_policy(
                        SchedulingPolicy::Deadline { runtime_ns, deadline_ns, period_ns },
                        Some(DeadlineParams { runtime_ns, deadline_ns, period_ns }),
                    )
                } else {
                    self
                }
            },
        }
    }
}

/// The state of a scheduler created by `new` or `default` after `calls`,
/// in order.
pub open spec fn replay(calls: Seq<SchedulerCall>) -> SchedulerModel
    decreases calls.len(),
{
    if calls.len() == 0 {
        SchedulerModel::initial()
    } else {
        replay(calls.drop_last()).after(calls.last())
    }
}

/// The cores of the last accepted CPU affinity change, if any.
pub open spec fn last_accepted_affinity(calls: Seq<SchedulerCall>) -> Option<Seq<usize>>
    decreases calls.len(),
{
    if calls.len() == 0 {
        None
    } else {
        match calls.last() {
            SchedulerCall::SetCpuAffinity { cpus, accepted } if accepted => Some(cpus),
            _ => last_accepted_affinity(calls.drop_last()),
        }
    }
}

/// The policy chosen by the last accepted policy change, or the standard
/// policy when none was accepted.
pub open spec fn last_accepted_policy(calls: Seq<SchedulerCall>) -> SchedulingPolicy
    decreases calls.len(),
{
    if calls.len() == 0 {
        SchedulingPolicy::Other
    } else {
        match calls.last() {
            SchedulerCall::SetFifo(p) if is_rt_priority(p) => SchedulingPolicy::Fifo(p),
            SchedulerCall::SetRoundRobin(p) if is_rt_priority(p) => SchedulingPolicy::RoundRobin(p),
            SchedulerCall::SetDeadline { runtime_ns, deadline_ns, period_ns }
                if runtime_ns <= deadline_ns <= period_ns =>
                SchedulingPolicy::Deadline { runtime_ns, deadline_ns, period_ns },
            _ => last_accepted_policy(calls.drop_last()),
        }
    }
}

/// What applying `policy` to the current thread gives: only the standard
/// policy can be applied; each real-time policy is reported by its name.
pub open spec fn apply_policy_outcome(r: Result<(), SchedulerError>, policy: SchedulingPolicy) -> bool {
    match policy {
        SchedulingPolicy::Fifo(_) => r matches Err(e) && is_policy_not_supported(e, "SCHED_FIFO"@),
        SchedulingPolicy::RoundRobin(_) => r matches Err(e) && is_policy_not_supported(e, "SCHED_RR"@),
        SchedulingPolicy::Deadline { .. } => r matches Err(e) && is_policy_not_supported(e, "SCHED_DEADLINE"@),
        SchedulingPolicy::Other => r is Ok,
    }
}

/// Real-time scheduler configuration.
///
/// The policy and its deadline parameters are kept together, so that each
/// change replaces both at once and the scheduler stays consistent.
pub struct Scheduler {
    cpu_affinity: Option<Vec<usize>>,
    policy_state: (SchedulingPolicy, Option<DeadlineParams>),
}

impl View for Scheduler {
    type V = SchedulerModel;

    closed spec fn view(&self) -> SchedulerModel {
        SchedulerModel {
            affinity: match self.cpu_affinity {
                Some(v) => Some(v@),
                None => None,
            },
            policy: self.policy_state.0,
            params: self.policy_state.1,
        }
    }
}

impl Scheduler {
    /// Every scheduler is consistent (see [`SchedulerModel::consistent`]).
    #[verifier::type_invariant]
    spec fn well_formed(self) -> bool {
        self@.consistent()
    }
}

/// The number of CPUs available to this process (`num_cpus::get`); the
/// crate documents it as at least 1. Its value depends on the machine, its
/// cgroups and the thread's affinity mask, so nothing more is stated.
#[verifier::external_body]
fn available_cpus() -> (n: usize)
    ensures
        n >= 1,
{
    num_cpus::get()
}

/// The outcome of setting the CPU affinity to `cpus` on a system with
/// `available` CPUs, taking the scheduler from `before` to `after`: it
/// succeeds exactly when every core is below `available`, and then holds
/// those cores; otherwise nothing changes and the first core that is not
/// below `available` is reported.
pub open spec fn affinity_outcome(
    before: SchedulerModel,
    after: SchedulerModel,
    cpus: Seq<usize>,
    available: usize,
    res: Result<(), SchedulerError>,
) -> bool {
    &&& res is Ok <==> (forall|i: int| 0 <= i < cpus.len() ==> cpus[i] < available)
    &&& res is Ok ==> after == before.with_affinity(cpus)
    &&& res matches Err(e) ==> after == before && exists|i: int|
        0 <= i < cpus.len() && #[trigger] cpus[i] >= available
        && (forall|j: int| 0 <= j < i ==> cpus[j] < available)
        && e == SchedulerError::InvalidCpuCore(cpus[i])
}

impl Default for Scheduler {
    fn default() -> (s: Self)
        ensures
            s@ == SchedulerModel::initial(),
            s@.consistent(),
    {
        Scheduler { cpu_affinity: None, policy_state: (SchedulingPolicy::Other, None) }
    }
}

impl Scheduler {
    /// Create a new scheduler with default settings: no affinity, standard policy.
    pub fn new() -> (res: Result<Self, SchedulerError>)
        ensures
            res matches Ok(s) && s@ == SchedulerModel::initial() && s@.consistent(),
    {
        Ok(Scheduler { cpu_affinity: None, policy_state: (SchedulingPolicy::Other, None) })
    }

    /// Set CPU affinity to the given cores, each of which must be below
    /// `available` (the number of CPUs of the system). On the first core
    /// that is not, nothing changes and that core is reported.
    pub fn set_cpu_affinity_within(&mut self, cpus: Vec<usize>, available: usize) -> (res: Result<(), SchedulerError>)
        ensures
            final(self)@.consistent(),
            affinity_outcome(old(self)@, final(self)@, cpus@, available, res),
            final(self)@ == old(self)@.after(SchedulerCall::SetCpuAffinity { cpus: cpus@, accepted: res is Ok }),
    {
        proof {
            use_type_invariant(&*self);
        }
        let n = cpus.len();
        let mut k: usize = 0;
        while k < n
            invariant
                n == cpus@.len(),
                k <= n,
                self@ == old(self)@,
                old(self)@.consistent(),
                forall|j: int| 0 <= j < k ==> cpus@[j] < available,
            decreases n - k,
        {
            let cpu = cpus[k];
            if cpu >= available {
                return Err(SchedulerError::InvalidCpuCore(cpu));
            }
            k = k + 1;
        }
        self.cpu_affinity = Some(cpus);
        Ok(())
    }

    /// Set CPU affinity to isolate this scheduler's tasks; every core must
    /// exist on this system (`num_cpus::get`, at least 1). The outcome is
    /// that of [`Scheduler::set_cpu_affinity_within`] for some count of at
    /// least 1, so core 0 is never refused.
    pub fn set_cpu_affinity(&mut self, cpus: Vec<usize>) -> (res: Result<(), SchedulerError>)
        ensures
            final(self)@.consistent(),
            exists|available: usize| available >= 1
                && #[trigger] affinity_outcome(old(self)@, final(self)@, cpus@, available, res),
            res matches Err(e) ==> e matches SchedulerError::InvalidCpuCore(c) && c >= 1,
            (forall|i: int| 0 <= i < cpus@.len() ==> cpus@[i] == 0) ==> res is Ok,
            final(self)@ == old(self)@.after(SchedulerCall::SetCpuAffinity { cpus: cpus@, accepted: res is Ok }),
    {
        let available = available_cpus();
        let res = self.set_cpu_affinity_within(cpus, available);
        assert(affinity_outcome(old(self)@, self@, cpus@, available, res));
        res
    }

    /// The CPU affinity, if one was set.
    pub fn cpu_affinity(&self) -> (cpus: Option<&[usize]>)
        ensures
            self@.consistent(),
            match cpus {
                Some(s) => self@.affinity == Some(s@),
                None => self@.affinity is None,
            },
    {
        proof {
            use_type_invariant(self);
        }
        match &self.cpu_affinity {
            Some(v) => Some(v.as_slice()),
            None => None,
        }
    }

    /// Select SCHED_FIFO with a priority in 1..=99; out of range, nothing changes.
    pub fn set_fifo(&mut self, priority: i32) -> (res: Result<(), SchedulerError>)
        ensures
            final(self)@.consistent(),
            res is Ok <==> is_rt_priority(priority),
            res is Ok <==> 1 <= priority && priority <= 99,
            res is Ok ==> final(self)@ == old(self)@.with_policy(SchedulingPolicy::Fifo(priority), None),
            res matches Err(e) ==> final(self)@ == old(self)@ && is_invalid_params(e, "FIFO priority must be 1-99"@),
            final(self)@ == old(self)@.after(SchedulerCall::SetFifo(priority)),
    {
        proof {
            use_type_invariant(&*self);
        }
        if !(1 <= priority && priority <= 99) {
            return Err(SchedulerError::InvalidDeadlineParams("FIFO priority must be 1-99"));
        }
        self.policy_state = (SchedulingPolicy::Fifo(priority), None);
        Ok(())
    }

    /// Select SCHED_RR with a priority in 1..=99; out of range, nothing changes.
    pub fn set_round_robin(&mut self, priority: i32) -> (res: Result<(), SchedulerError>)
        ensures
            final(self)@.consistent(),
            res is Ok <==> is_rt_priority(priority),
            res is Ok <==> 1 <= priority && priority <= 99,
            res is Ok ==> final(self)@ == old(self)@.with_policy(SchedulingPolicy::RoundRobin(priority), None),
            res matches Err(e) ==> final(self)@ == old(self)@ && is_invalid_params(e, "Round-robin priority must be 1-99"@),
            final(self)@ == old(self)@.after(SchedulerCall::SetRoundRobin(priority)),
    {
        proof {
            use_type_invariant(&*self);
        }
        if !(1 <= priority && priority <= 99) {
            return Err(SchedulerError::InvalidDeadlineParams("Round-robin priority must be 1-99"));
        }
        self.policy_state = (SchedulingPolicy::RoundRobin(priority), None);
        Ok(())
    }

    /// Select SCHED_DEADLINE; the parameters must keep
    /// `runtime_ns <= deadline_ns <= period_ns`, else nothing changes.
    pub fn set_deadline(&mut self, runtime_ns: u64, deadline_ns: u64, period_ns: u64) -> (res: Result<(), SchedulerError>)
        ensures
            final(self)@.consistent(),
            check_outcome(res, runtime_ns, deadline_ns, period_ns),
            res is Ok ==> final(self)@ == old(self)@.with_policy(
                SchedulingPolicy::Deadline { runtime_ns, deadline_ns, period_ns },
                Some(DeadlineParams { runtime_ns, deadline_ns, period_ns }),
            ),
            res is Err ==> final(self)@ == old(self)@,
            final(self)@ == old(self)@.after(SchedulerCall::SetDeadline { runtime_ns, deadline_ns, period_ns }),
    {
        proof {
            use_type_invariant(&*self);
        }
        match DeadlineParams::new(runtime_ns, deadline_ns, period_ns) {
            Ok(params) => {
                self.policy_state = (SchedulingPolicy::Deadline { runtime_ns, deadline_ns, period_ns }, Some(params));
                Ok(())
            },
            Err(e) => Err(e),
        }
    }

    /// The selected scheduling policy.
    pub fn scheduling_policy(&self) -> (policy: &SchedulingPolicy)
        ensures
            *policy == self@.policy,
            self@.consistent(),
    {
        proof {
            use_type_invariant(self);
        }
        &self.policy_state.0
    }

    /// The deadline parameters, when SCHED_DEADLINE is selected.
    pub fn deadline_params(&self) -> (params: Option<DeadlineParams>)
        ensures
            params == self@.params,
            self@.consistent(),
    {
        proof {
            use_type_invariant(self);
        }
        self.policy_state.1
    }

    /// Apply the scheduling policy to the current thread. Only the standard
    /// policy can be applied here; each real-time policy is refused by name.
    pub fn apply_to_current_thread(&self) -> (res: Result<(), SchedulerError>)
        ensures
            apply_policy_outcome(res, self@.policy),
            res is Ok <==> self@.policy is Other,
    {
        match &self.policy_state.0 {
            SchedulingPolicy::Fifo(_prio) => Err(SchedulerError::PolicyNotSupported("SCHED_FIFO")),
            SchedulingPolicy::RoundRobin(_prio) => Err(SchedulerError::PolicyNotSupported("SCHED_RR")),
            SchedulingPolicy::Deadline { .. } => Err(SchedulerError::PolicyNotSupported("SCHED_DEADLINE")),
            SchedulingPolicy::Other => Ok(()),
        }
    }

    /// Apply the CPU affinity to the current thread: succeeds only when no
    /// affinity was set; a set affinity cannot be applied here.
    pub fn apply_cpu_affinity(&self) -> (res: Result<(), SchedulerError>)
        ensures
            res is Ok <==> self@.affinity is None,
            res matches Err(e) ==> e is CpuAffinityNotSupported,
    {
        match &self.cpu_affinity {
            Some(_cpus) => Err(SchedulerError::CpuAffinityNotSupported),
            None => Ok(()),
        }
    }
}

/// Building parameters and validating them agree: `DeadlineParams::new`
/// succeeds on a triple exactly when the parameters made of that triple pass
/// `validate`.
pub proof fn lemma_new_agrees_with_validate(runtime_ns: u64, deadline_ns: u64, period_ns: u64)
    ensures
        deadline_order_violation(runtime_ns, deadline_ns, period_ns) is None
            <==> (DeadlineParams { runtime_ns, deadline_ns, period_ns }).is_valid(),
        forall|r: Result<DeadlineParams, SchedulerError>, v: Result<(), SchedulerError>|
            #[trigger] check_outcome(r, runtime_ns, deadline_ns, period_ns)
            && #[trigger] check_outcome(v, runtime_ns, deadline_ns, period_ns)
            ==> (r is Ok <==> v is Ok),
{
}

/// In a consistent scheduler the deadline parameters are present exactly
/// under SCHED_DEADLINE, repeat the policy's values and keep
/// `runtime <= deadline <= period`.
pub proof fn lemma_consistent_deadline_params(m: SchedulerModel)
    requires
        m.consistent(),
    ensures
        m.params is Some <==> m.policy is Deadline,
        m.params matches Some(p) ==> p.is_valid() && m.policy == (SchedulingPolicy::Deadline {
            runtime_ns: p.runtime_ns,
            deadline_ns: p.deadline_ns,
            period_ns: p.period_ns,
        }),
{
}

/// What a read gives back of a write: after a successful `set_deadline`, the
/// scheduler stays consistent, `deadline_params` returns those parameters and
/// applying the policy refuses SCHED_DEADLINE by name.
pub proof fn lemma_set_deadline_then_read(m: SchedulerModel, runtime_ns: u64, deadline_ns: u64, period_ns: u64, applied: Result<(), SchedulerError>)
    requires
        m.consistent(),
        runtime_ns <= deadline_ns <= period_ns,
        apply_policy_outcome(applied, m.with_policy(
            SchedulingPolicy::Deadline { runtime_ns, deadline_ns, period_ns },
            Some(DeadlineParams { runtime_ns, deadline_ns, period_ns }),
        ).policy),
    ensures
        ({
            let after = m.with_policy(
                SchedulingPolicy::Deadline { runtime_ns, deadline_ns, period_ns },
                Some(DeadlineParams { runtime_ns, deadline_ns, period_ns }),
            );
            &&& after.consistent()
            &&& after.params == Some(DeadlineParams { runtime_ns, deadline_ns, period_ns })
            &&& after.affinity == m.affinity
        }),
        applied matches Err(e) && is_policy_not_supported(e, "SCHED_DEADLINE"@),
{
}

/// What a read gives back of a write: after a successful CPU affinity
/// change, `cpu_affinity` returns exactly those cores, and nothing else of
/// the scheduler changed.
pub proof fn lemma_set_affinity_then_read(m: SchedulerModel, cpus: Seq<usize>)
    requires
        m.consistent(),
    ensures
        m.with_affinity(cpus).consistent(),
        m.with_affinity(cpus).affinity == Some(cpus),
        m.with_affinity(cpus).policy == m.policy,
        m.with_affinity(cpus).params == m.params,
{
}

/// What a sequence of calls leaves behind: a scheduler created by `new`
/// or `default` and changed by `calls` (each accepted or refused) is
/// consistent, holds the cores of the last accepted CPU affinity change (or
/// none), and the policy of the last accepted policy change (or the
/// standard policy). Refused calls, and calls on the other part, change
/// neither.
pub proof fn lemma_replay_reads_last_accepted(calls: Seq<SchedulerCall>)
    ensures
        replay(calls).consistent(),
        replay(calls).affinity == last_accepted_affinity(calls),
        replay(calls).policy == last_accepted_policy(calls),
    decreases calls.len(),
{
    if calls.len() > 0 {
        lemma_replay_reads_last_accepted(calls.drop_last());
    }
}

/// The real-time priorities are exactly 1 through 99: every priority in that
/// range is accepted by `set_fifo` and `set_round_robin`, and none outside it.
pub proof fn lemma_rt_priority_range(priority: i32)
    ensures
        is_rt_priority(priority) <==> (1 <= priority && priority <= 99),
        is_rt_priority(1) && is_rt_priority(99),
        !is_rt_priority(0) && !is_rt_priority(100),
{
}

/// A priority change replaces any SCHED_DEADLINE parameters: after a
/// successful `set_fifo` or `set_round_robin` no deadline parameters remain
/// and the scheduler stays consistent.
pub proof fn lemma_priority_policy_drops_deadline(m: SchedulerModel, priority: i32)
    requires
        m.consistent(),
        is_rt_priority(priority),
    ensures
        m.with_policy(SchedulingPolicy::Fifo(priority), None).consistent(),
        m.with_policy(SchedulingPolicy::RoundRobin(priority), None).consistent(),
        m.with_policy(SchedulingPolicy::Fifo(priority), None).params is None,
        m.with_policy(SchedulingPolicy::RoundRobin(priority), None).params is None,
{
}

} // verus!
