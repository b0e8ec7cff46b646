//! Service status as reported to the operating system's service manager.

use vstd::prelude::*;

verus! {

/// Lifecycle state reported to the service manager. `StopPending` is the
/// protocol's intermediate state for a shutdown that takes time; this loop
/// tears down at once and reports the terminal state directly.
#[derive(Clone, Copy, Debug, PartialEq, Eq, Structural)]
pub enum ServiceState {
    Running,
    StopPending,
    Stopped,
}

/// One status report: the state, which control requests the service accepts
/// while in it, and the exit code.
#[derive(Clone, Copy, Debug, PartialEq, Eq, Structural)]
pub struct StatusReport {
    pub state: ServiceState,
    pub accepts_stop: bool,
    pub accepts_session_change: bool,
    pub exit_code: u32,
}

/// The report made once at loop entry: running, accepting stop and
/// session-change controls, exit code zero.
pub open spec fn running_report() -> StatusReport {
    StatusReport {
        state: ServiceState::Running,
        accepts_stop: true,
        accepts_session_change: true,
        exit_code: 0,
    }
}

/// The terminal report made at shutdown: stopped, with the accepted controls
/// cleared, exit code zero.
pub open spec fn stopped_report() -> StatusReport {
    StatusReport {
        state: ServiceState::Stopped,
        accepts_stop: false,
        accepts_session_change: false,
        exit_code: 0,
    }
}

impl StatusReport {
    /// Builds the report announced right after the control handler is
    /// registered and before any blocking work.
    pub fn running() -> (r: StatusReport)
        ensures
            r == running_report(),
    {
        StatusReport {
            state: ServiceState::Running,
            accepts_stop: true,
            accepts_session_change: true,
            exit_code: 0,
        }
    }

    /// Builds the terminal report; no control request is accepted once it is
    /// announced.
    pub fn stopped() -> (r: StatusReport)
        ensures
            r == stopped_report(),
    {
        StatusReport {
            state: ServiceState::Stopped,
            accepts_stop: false,
            accepts_session_change: false,
            exit_code: 0,
        }
    }
}

} // verus!
