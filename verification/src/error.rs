//! Error types of the scheduler configuration.
use vstd::prelude::*;
use vstd::string::StringExecFns;

verus! {

#[verifier::external_type_specification]
#[verifier::external_body]
pub struct ExIoError(std::io::Error);

/// Errors that can occur with scheduler operations.
#[derive(Debug)]
pub enum SchedulerError {
    /// Invalid deadline parameters (or an out-of-range priority).
    InvalidDeadlineParams(&'static str),
    /// CPU affinity not supported on this platform.
    CpuAffinityNotSupported,
    /// Permission denied (CAP_SYS_NICE required for SCHED_DEADLINE).
    PermissionDenied,
    /// IO error.
    Io(std::io::Error),
    /// Invalid CPU core specified.
    InvalidCpuCore(usize),
    /// Scheduling policy not supported.
    PolicyNotSupported(&'static str),
}

/// `e` is an invalid-parameters error carrying the message `msg`.
pub open spec fn is_invalid_params(e: SchedulerError, msg: Seq<char>) -> bool {
    e matches SchedulerError::InvalidDeadlineParams(m) && m@ == msg
}

/// `e` reports that the policy named `name` cannot be applied.
pub open spec fn is_policy_not_supported(e: SchedulerError, name: Seq<char>) -> bool {
    e matches SchedulerError::PolicyNotSupported(m) && m@ == name
}

impl From<std::io::Error> for SchedulerError {
    /// An IO failure becomes the `Io` variant.
    fn from(e: std::io::Error) -> (err: Self) {
        SchedulerError::Io(e)
    }
}

impl vstd::std_specs::convert::FromSpecImpl<std::io::Error> for SchedulerError {
    open spec fn obeys_from_spec() -> bool {
        true
    }

    open spec fn from_spec(v: std::io::Error) -> SchedulerError {
        SchedulerError::Io(v)
    }
}

impl SchedulerError {
    /// The human-readable text of the error.
    pub fn message(&self) -> (text: String)
        ensures
            match self {
                SchedulerError::InvalidDeadlineParams(m) =>
                    text@ == "Invalid deadline parameters: "@ + m@,
                SchedulerError::CpuAffinityNotSupported =>
                    text@ == "CPU affinity not supported"@,
                SchedulerError::PermissionDenied =>
                    text@ == "Permission denied (CAP_SYS_NICE required)"@,
                SchedulerError::Io(e) => exists|shown: String|
                    #[trigger] vstd::string::to_string_from_display_ensures::<std::io::Error>(e, shown)
                    && text@ == "IO error: "@ + shown@,
                SchedulerError::InvalidCpuCore(cpu) => exists|shown: String|
                    #[trigger] vstd::string::to_string_from_display_ensures::<usize>(cpu, shown)
                    && text@ == "Invalid CPU core: "@ + shown@,
                SchedulerError::PolicyNotSupported(m) =>
                    text@ == "Scheduling policy not supported: "@ + m@,
            },
    {
        match self {
            SchedulerError::InvalidDeadlineParams(m) => {
                String::from_str("Invalid deadline parameters: ").concat(m)
            },
            SchedulerError::CpuAffinityNotSupported => String::from_str("CPU affinity not supported"),
            SchedulerError::PermissionDenied => {
                String::from_str("Permission denied (CAP_SYS_NICE required)")
            },
            SchedulerError::Io(e) => {
                let shown = e.to_string();
                String::from_str("IO error: ").concat(shown.as_str())
            },
            SchedulerError::InvalidCpuCore(cpu) => {
                let shown = cpu.to_string();
                String::from_str("Invalid CPU core: ").concat(shown.as_str())
            },
            SchedulerError::PolicyNotSupported(m) => {
                String::from_str("Scheduling policy not supported: ").concat(m)
            },
        }
    }
}

} // verus!
