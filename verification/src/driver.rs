//! The session driver: the control loop's decisions as a state machine.
//!
//! The loop itself performs outside work — checking paths, reading the
//! status document, launching the agent process and waiting for it — so the
//! library keeps only the decisions: a transition function from the current
//! state and the outcome of the last piece of outside work to the next state.
//! The surrounding program performs the work each non-terminal state calls
//! for and feeds the outcome back in.

use vstd::prelude::*;

use crate::goals::GoalsFile;

verus! {

/// The fatal conditions. Each aborts the run with a non-zero exit; a
/// session that merely exits non-zero is not an error and the loop goes on.
#[derive(Clone, Copy, Debug, PartialEq, Eq, Structural)]
pub enum DriverError {
    /// The project directory does not exist.
    PathNotFound,
    /// The project has no status document.
    StatusFileMissing,
    /// The status document could not be read.
    IoError,
    /// The status document could not be parsed.
    FormatError,
    /// The agent process could not be run to completion.
    ProcessLaunchError,
}

/// What one attempt to load the status document produced.
#[derive(Debug)]
pub enum ReadOutcome {
    /// The document was read and parsed into a goal set.
    Parsed(GoalsFile),
    /// The document could not be read.
    ReadFailed,
    /// The document's content was not in the expected form.
    FormatInvalid,
}

/// How one session of the agent process ended.
#[derive(Clone, Copy, Debug, PartialEq, Eq, Structural)]
pub enum SessionOutcome {
    /// The process could not be launched, or could not be waited for.
    Failed,
    /// The process ran to completion; `code` is its exit code, `-1` when
    /// none was available.
    Exited { success: bool, code: i32 },
}

/// The outcome of the piece of outside work the current state called for.
#[derive(Debug)]
pub enum DriverEvent {
    /// Whether the project directory exists.
    PathChecked { exists: bool },
    /// Whether the status document exists.
    StatusFileChecked { exists: bool },
    /// What loading the status document produced.
    StatusRead(ReadOutcome),
    /// How the session ended.
    SessionFinished(SessionOutcome),
}

/// The driver's state. Each non-terminal state names the piece of outside
/// work to perform next; `Done` and `Failed` are terminal.
#[derive(Clone, Copy, Debug, PartialEq, Eq, Structural)]
pub enum DriverState {
    /// Check that the project directory exists.
    CheckingPath,
    /// Check that the status document exists.
    CheckingStatusFile,
    /// Load the status document afresh; the next session, if one is
    /// launched, is number `next_session` (counted from 1).
    ReadingStatus { next_session: u64 },
    /// Run session number `session` and wait for it to end.
    RunningSession { session: u64 },
    /// Every goal is completed; `sessions_run` sessions were performed.
    Done { sessions_run: u64 },
    /// A fatal condition ended the run.
    Failed { error: DriverError },
}

/// Session numbers count from 1 in every state that carries one.
pub open spec fn state_wf(s: DriverState) -> bool {
    match s {
        DriverState::ReadingStatus { next_session } => next_session >= 1,
        DriverState::RunningSession { session } => session >= 1,
        _ => true,
    }
}

/// The event answers the piece of outside work the state called for.
pub open spec fn event_fits(s: DriverState, e: DriverEvent) -> bool {
    match s {
        DriverState::CheckingPath => e is PathChecked,
        DriverState::CheckingStatusFile => e is StatusFileChecked,
        DriverState::ReadingStatus { .. } => e is StatusRead,
        DriverState::RunningSession { .. } => e is SessionFinished,
        _ => false,
    }
}

/// The transition relation of the driver:
/// - a missing project directory or status document is fatal before any
///   session;
/// - a read or parse failure of the status document is fatal on whichever
///   iteration it occurs;
/// - when no goal calls for work, the run is done;
/// - otherwise a session is launched; a launch failure is fatal, but any
///   exit of the launched process, successful or not, leads back to a fresh
///   read of the status document, with the session counter advanced.
pub open spec fn spec_step(s: DriverState, e: DriverEvent) -> DriverState {
    match (s, e) {
        (DriverState::CheckingPath, DriverEvent::PathChecked { exists }) => if exists {
            DriverState::CheckingStatusFile
        } else {
            DriverState::Failed { error: DriverError::PathNotFound }
        },
        (DriverState::CheckingStatusFile, DriverEvent::StatusFileChecked { exists }) => if exists {
            DriverState::ReadingStatus { next_session: 1 }
        } else {
            DriverState::Failed { error: DriverError::StatusFileMissing }
        },
        (
            DriverState::ReadingStatus { next_session },
            DriverEvent::StatusRead(outcome),
        ) => match outcome {
            ReadOutcome::Parsed(goals) => if goals.spec_has_pending_work() {
                DriverState::RunningSession { session: next_session }
            } else {
                DriverState::Done { sessions_run: (next_session - 1) as u64 }
            },
            ReadOutcome::ReadFailed => DriverState::Failed { error: DriverError::IoError },
            ReadOutcome::FormatInvalid => DriverState::Failed { error: DriverError::FormatError },
        },
        (
            DriverState::RunningSession { session },
            DriverEvent::SessionFinished(outcome),
        ) => match outcome {
            SessionOutcome::Failed => DriverState::Failed {
                error: DriverError::ProcessLaunchError,
            },
            SessionOutcome::Exited { .. } => DriverState::ReadingStatus {
                next_session: (session + 1) as u64,
            },
        },
        _ => s,
    }
}

/// The driver's first state: validate the project directory.
pub fn init() -> (s: DriverState)
    ensures
        s == DriverState::CheckingPath,
        state_wf(s),
{
    DriverState::CheckingPath
}

/// One transition of the driver. The caller performs the outside work the
/// current state calls for and passes its outcome; the result is exactly the
/// state `spec_step` prescribes. In particular a session that exited with a
/// failure leads back to a fresh read, never to an abort, and the session
/// counter advances whatever the exit was.
pub fn step(state: DriverState, event: DriverEvent) -> (next: DriverState)
    requires
        state_wf(state),
        event_fits(state, event),
        state matches DriverState::RunningSession { session } ==> session < u64::MAX,
    ensures
        next == spec_step(state, event),
        state_wf(next),
{
    match (state, event) {
        (DriverState::CheckingPath, DriverEvent::PathChecked { exists }) => {
            if exists {
                DriverState::CheckingStatusFile
            } else {
                DriverState::Failed { error: DriverError::PathNotFound }
            }
        },
        (DriverState::CheckingStatusFile, DriverEvent::StatusFileChecked { exists }) => {
            if exists {
                DriverState::ReadingStatus { next_session: 1 }
            } else {
                DriverState::Failed { error: DriverError::StatusFileMissing }
            }
        },
        (DriverState::ReadingStatus { next_session }, DriverEvent::StatusRead(outcome)) => {
            match outcome {
                ReadOutcome::Parsed(goals) => {
                    if goals.has_pending_work() {
                        DriverState::RunningSession { session: next_session }
                    } else {
                        DriverState::Done { sessions_run: next_session - 1 }
                    }
                },
                ReadOutcome::ReadFailed => DriverState::Failed { error: DriverError::IoError },
                ReadOutcome::FormatInvalid => DriverState::Failed {
                    error: DriverError::FormatError,
                },
            }
        },
        (DriverState::RunningSession { session }, DriverEvent::SessionFinished(outcome)) => {
            match outcome {
                SessionOutcome::Failed => DriverState::Failed {
                    error: DriverError::ProcessLaunchError,
                },
                SessionOutcome::Exited { .. } => DriverState::ReadingStatus {
                    next_session: session + 1,
                },
            }
        },
        (s, _) => s,
    }
}

/// The process exit code a terminal state calls for: zero exactly on full
/// completion.
pub fn exit_code(state: &DriverState) -> (code: i32)
    requires
        state is Done || state is Failed,
    ensures
        state is Done ==> code == 0,
        state is Failed ==> code == 1,
        (code == 0) == (state is Done),
{
    match state {
        DriverState::Done { .. } => 0,
        _ => 1,
    }
}

impl DriverError {
    /// The message reported when this condition aborts the run.
    pub fn message(&self) -> (m: String)
        ensures
            *self is PathNotFound ==> m@ == "project path does not exist"@,
            *self is StatusFileMissing ==> m@
                == "no goals.yaml found; create one before starting"@,
            *self is IoError ==> m@ == "failed to read goals.yaml"@,
            *self is FormatError ==> m@ == "failed to parse goals.yaml"@,
            *self is ProcessLaunchError ==> m@ == "failed to run the agent process"@,
    {
        match self {
            DriverError::PathNotFound => String::from_str("project path does not exist"),
            DriverError::StatusFileMissing => String::from_str(
                "no goals.yaml found; create one before starting",
            ),
            DriverError::IoError => String::from_str("failed to read goals.yaml"),
            DriverError::FormatError => String::from_str("failed to parse goals.yaml"),
            DriverError::ProcessLaunchError => String::from_str(
                "failed to run the agent process",
            ),
        }
    }
}

} // verus!
