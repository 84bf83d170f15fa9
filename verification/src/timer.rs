//! Timer backend selection.
use vstd::prelude::*;

verus! {

/// Timer backend strategy.
#[derive(Debug)]
pub enum TimerBackend {
    /// timerfd backend (POSIX, works everywhere)
    Timerfd {
        /// No backend state is kept yet
        _placeholder: (),
    },
}

} // verus!
