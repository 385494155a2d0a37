//! The closed error taxonomy of the orchestrator: every terminal failure of
//! provision or remove is one of these kinds, carrying enough captured
//! context to render an actionable message.

use vstd::prelude::*;

use crate::command::ExecError;

verus! {

/// A terminal failure of one orchestration run.
#[derive(Debug)]
pub enum Error {
    /// The state directory could not be created.
    CreateDir { path: String, cause: String },
    /// The identity file was read for removal and holds no token.
    ClusterNameEmpty,
    /// I/O failure while reading the identity file for removal.
    ClusterNameIo { cause: String },
    /// I/O failure while reading or persisting the identity file.
    ClusterNameSaveIo { cause: String },
    /// I/O failure while reading or seeding the build-spec file.
    BuildSpecIo { cause: String },
    /// A runtime command could not be spawned or awaited.
    CommandIo { cmd: String, cause: String },
    /// A runtime command ran and reported a non-zero exit status.
    CommandNonZeroExit { cmd: String, exit_code: i32, stdout: String, stderr: String },
    /// The cluster container exists but is not running; no auto-repair is attempted.
    ClusterContainerNotInRunningState { state: String },
}

/// Lifts a process-executor failure into the orchestrator's taxonomy: a spawn
/// failure becomes a command I/O error, a non-zero exit keeps its captured
/// output.
pub fn error_from_exec(e: ExecError) -> (r: Error)
    ensures
        match e {
            ExecError::Spawn { command, cause } => r == (Error::CommandIo { cmd: command, cause }),
            ExecError::NonZeroExit { command, exit_code, stdout, stderr } => r == (
            Error::CommandNonZeroExit { cmd: command, exit_code, stdout, stderr }),
        },
{
    match e {
        ExecError::Spawn { command, cause } => Error::CommandIo { cmd: command, cause },
        ExecError::NonZeroExit { command, exit_code, stdout, stderr } => {
            Error::CommandNonZeroExit { cmd: command, exit_code, stdout, stderr }
        },
    }
}

} // verus!
