use realtime_core::scheduler::{DeadlineParams, Scheduler, SchedulingPolicy};
use realtime_core::SchedulerError;

#[test]
fn test_scheduler_creation() {
    let scheduler = Scheduler::new().unwrap();
    assert_eq!(scheduler.cpu_affinity(), None);
}

#[test]
fn test_set_cpu_affinity() {
    let mut scheduler = Scheduler::new().unwrap();

    // Valid CPU
    assert!(scheduler.set_cpu_affinity(vec![0]).is_ok());
    assert_eq!(scheduler.cpu_affinity().map(|v| v.to_vec()), Some(vec![0]));

    // Invalid CPU (likely more than system has)
    assert!(scheduler.set_cpu_affinity(vec![999999]).is_err());
}

#[test]
fn test_set_fifo() {
    let mut scheduler = Scheduler::new().unwrap();

    assert!(scheduler.set_fifo(1).is_ok());
    assert!(scheduler.set_fifo(50).is_ok());
    assert!(scheduler.set_fifo(99).is_ok());

    assert!(scheduler.set_fifo(0).is_err());
    assert!(scheduler.set_fifo(100).is_err());
}

#[test]
fn test_set_round_robin() {
    let mut scheduler = Scheduler::new().unwrap();

    assert!(scheduler.set_round_robin(1).is_ok());
    assert!(scheduler.set_round_robin(50).is_ok());
    assert!(scheduler.set_round_robin(99).is_ok());

    assert!(scheduler.set_round_robin(0).is_err());
    assert!(scheduler.set_round_robin(100).is_err());
}

#[test]
fn test_set_deadline_valid() {
    let mut scheduler = Scheduler::new().unwrap();

    // Valid: 500us runtime, 1ms deadline, 500ms period
    assert!(scheduler.set_deadline(500_000, 1_000_000, 500_000_000).is_ok());

    // Valid: equal values
    assert!(scheduler.set_deadline(1_000_000, 1_000_000, 1_000_000).is_ok());
}

#[test]
fn test_set_deadline_invalid() {
    let mut scheduler = Scheduler::new().unwrap();

    // Invalid: runtime > deadline
    assert!(scheduler.set_deadline(1_000_000, 500_000, 500_000_000).is_err());

    // Invalid: deadline > period
    assert!(scheduler.set_deadline(1_000_000, 500_000_000, 1_000_000).is_err());
}

#[test]
fn test_deadline_params_validation() {
    let params = DeadlineParams::new(500_000, 1_000_000, 500_000_000).unwrap();
    assert!(params.validate().is_ok());

    let result = DeadlineParams::new(1_000_000, 500_000, 500_000_000);
    assert!(result.is_err());

    let result = DeadlineParams::new(1_000_000, 500_000_000, 1_000_000);
    assert!(result.is_err());
}

#[test]
fn test_scheduler_default() {
    let scheduler = Scheduler::default();
    assert_eq!(scheduler.cpu_affinity(), None);
}

#[test]
fn deadline_errors_name_the_broken_link() {
    match DeadlineParams::new(2, 1, 3) {
        Err(SchedulerError::InvalidDeadlineParams(m)) => assert_eq!(m, "runtime_ns must be ≤ deadline_ns"),
        _ => panic!("expected an invalid-parameters error"),
    }
    match DeadlineParams::new(1, 3, 2) {
        Err(SchedulerError::InvalidDeadlineParams(m)) => assert_eq!(m, "deadline_ns must be ≤ period_ns"),
        _ => panic!("expected an invalid-parameters error"),
    }
    // both links broken: the runtime link is reported first
    match DeadlineParams::new(5, 3, 1) {
        Err(SchedulerError::InvalidDeadlineParams(m)) => assert_eq!(m, "runtime_ns must be ≤ deadline_ns"),
        _ => panic!("expected an invalid-parameters error"),
    }
    let handmade = DeadlineParams { runtime_ns: 1, deadline_ns: 3, period_ns: 2 };
    match handmade.validate() {
        Err(SchedulerError::InvalidDeadlineParams(m)) => assert_eq!(m, "deadline_ns must be ≤ period_ns"),
        _ => panic!("expected an invalid-parameters error"),
    }
}

#[test]
fn set_deadline_then_read_back() {
    let mut scheduler = Scheduler::new().unwrap();
    scheduler.set_deadline(500_000, 1_000_000, 500_000_000).unwrap();
    let params = scheduler.deadline_params().unwrap();
    assert_eq!(params.runtime_ns, 500_000);
    assert_eq!(params.deadline_ns, 1_000_000);
    assert_eq!(params.period_ns, 500_000_000);
    assert!(matches!(
        scheduler.scheduling_policy(),
        SchedulingPolicy::Deadline { runtime_ns: 500_000, deadline_ns: 1_000_000, period_ns: 500_000_000 }
    ));
    match scheduler.apply_to_current_thread() {
        Err(SchedulerError::PolicyNotSupported(name)) => assert_eq!(name, "SCHED_DEADLINE"),
        _ => panic!("expected SCHED_DEADLINE to be refused"),
    }
    // a priority policy drops the deadline parameters
    scheduler.set_fifo(10).unwrap();
    assert!(scheduler.deadline_params().is_none());
    assert!(matches!(scheduler.scheduling_policy(), SchedulingPolicy::Fifo(10)));
}

#[test]
fn refused_changes_leave_scheduler_unchanged() {
    let mut scheduler = Scheduler::new().unwrap();
    scheduler.set_round_robin(20).unwrap();
    match scheduler.set_fifo(0) {
        Err(SchedulerError::InvalidDeadlineParams(m)) => assert_eq!(m, "FIFO priority must be 1-99"),
        _ => panic!("expected a priority error"),
    }
    match scheduler.set_round_robin(100) {
        Err(SchedulerError::InvalidDeadlineParams(m)) => assert_eq!(m, "Round-robin priority must be 1-99"),
        _ => panic!("expected a priority error"),
    }
    assert!(scheduler.set_deadline(3, 2, 1).is_err());
    assert!(matches!(scheduler.scheduling_policy(), SchedulingPolicy::RoundRobin(20)));
    assert!(scheduler.deadline_params().is_none());
    match scheduler.apply_to_current_thread() {
        Err(SchedulerError::PolicyNotSupported(name)) => assert_eq!(name, "SCHED_RR"),
        _ => panic!("expected SCHED_RR to be refused"),
    }
}

#[test]
fn apply_policy_outcomes() {
    let mut scheduler = Scheduler::new().unwrap();
    assert!(scheduler.apply_to_current_thread().is_ok());
    scheduler.set_fifo(99).unwrap();
    match scheduler.apply_to_current_thread() {
        Err(SchedulerError::PolicyNotSupported(name)) => assert_eq!(name, "SCHED_FIFO"),
        _ => panic!("expected SCHED_FIFO to be refused"),
    }
}

#[test]
fn apply_cpu_affinity_outcomes() {
    let mut scheduler = Scheduler::new().unwrap();
    assert!(scheduler.apply_cpu_affinity().is_ok());
    scheduler.set_cpu_affinity(vec![0]).unwrap();
    assert!(matches!(scheduler.apply_cpu_affinity(), Err(SchedulerError::CpuAffinityNotSupported)));
}

#[test]
fn cpu_affinity_reports_first_invalid_core() {
    let mut scheduler = Scheduler::new().unwrap();
    scheduler.set_cpu_affinity_within(vec![0, 1], 4).unwrap();
    assert_eq!(scheduler.cpu_affinity(), Some(&[0usize, 1][..]));
    match scheduler.set_cpu_affinity_within(vec![1, 7, 9, 2], 4) {
        Err(SchedulerError::InvalidCpuCore(c)) => assert_eq!(c, 7),
        _ => panic!("expected an invalid core"),
    }
    // the earlier affinity stays
    assert_eq!(scheduler.cpu_affinity(), Some(&[0usize, 1][..]));
    // an empty set of cores is accepted
    assert!(scheduler.set_cpu_affinity_within(vec![], 1).is_ok());
    assert_eq!(scheduler.cpu_affinity(), Some(&[][..]));
    assert!(scheduler.set_cpu_affinity(vec![0, 0]).is_ok());
}

#[test]
fn last_accepted_changes_win() {
    let mut scheduler = Scheduler::new().unwrap();
    scheduler.set_cpu_affinity_within(vec![2], 4).unwrap();
    scheduler.set_fifo(30).unwrap();
    assert!(scheduler.set_cpu_affinity_within(vec![1, 9], 4).is_err());
    assert!(scheduler.set_deadline(2, 1, 3).is_err());
    scheduler.set_round_robin(40).unwrap();
    assert!(scheduler.set_fifo(0).is_err());
    // the affinity is that of the last accepted change, the policy likewise
    assert_eq!(scheduler.cpu_affinity(), Some(&[2usize][..]));
    assert!(matches!(scheduler.scheduling_policy(), SchedulingPolicy::RoundRobin(40)));
    scheduler.set_deadline(1, 2, 3).unwrap();
    scheduler.set_cpu_affinity_within(vec![3, 0], 4).unwrap();
    assert_eq!(scheduler.cpu_affinity(), Some(&[3usize, 0][..]));
    assert!(matches!(
        scheduler.scheduling_policy(),
        SchedulingPolicy::Deadline { runtime_ns: 1, deadline_ns: 2, period_ns: 3 }
    ));
}
