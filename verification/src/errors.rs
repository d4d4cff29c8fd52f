use vstd::prelude::*;

verus! {

/// Which compose operation an external failure came from.
#[derive(Clone, Copy, PartialEq, Eq, Structural, Debug)]
pub enum ComposeOp {
    Up,
    Down,
}

/// Every way an orchestration run can fail.
///
/// `PortConflict` carries the occupied ports; `ComposeFailure` carries the
/// operation that failed and the stderr text the compose engine produced.
/// `TeardownFailure` is only ever recorded as a secondary note: it never
/// replaces the primary failure that triggered shutdown.
#[derive(PartialEq, Eq, Debug)]
pub enum RunError {
    TargetNotFound,
    PortConflict(Vec<u16>),
    WorkspaceIo,
    ComposeFailure(ComposeOp, String),
    HealthTimeout,
    SignalSetupFailure,
    TeardownFailure(ComposeOp, String),
}

} // verus!
