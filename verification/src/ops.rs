//! The tool's operations.  `provision` and `remove` start an orchestration
//! run each: they hand back the initial machine together with its first
//! action, and the caller then drives [`crate::orchestrator::Orchestrator::step`]
//! until it answers with a terminal step.  The remaining subcommands are
//! intentionally inert placeholders.

use vstd::prelude::*;

use crate::consts;
use crate::orchestrator::{Action, Orchestrator, Phase};

verus! {

/// Starts an idempotent provision run for the working directory `cwd`.  The
/// first action ensures the state directory exists; the machine then
/// resolves the identity, probes the runtime, and creates image, volume and
/// container only when nothing is there yet.
pub fn provision(cwd: String) -> (r: (Orchestrator, Action))
    ensures
        r.0.phase == Phase::PvCreatingDir,
        r.0.cwd == cwd,
        (match r.1 {
            Action::CreateStateDir { path } => path@ == consts::state_dir_view(),
            _ => false,
        }),
{
    let machine = Orchestrator { phase: Phase::PvCreatingDir, cwd };
    let action = Action::CreateStateDir { path: String::from_str(consts::state_dir()) };
    (machine, action)
}

/// Starts a best-effort removal run.  The first action reads the identity
/// file; a missing token ends the run successfully without issuing a single
/// runtime command, otherwise container, volume and image are removed in
/// that order.
pub fn remove() -> (r: (Orchestrator, Action))
    ensures
        r.0.phase == Phase::RmReadingName,
        (match r.1 {
            Action::ReadFile { path } => path@ == consts::cluster_name_file_view(),
            _ => false,
        }),
{
    let machine = Orchestrator { phase: Phase::RmReadingName, cwd: String::new() };
    let action = Action::ReadFile { path: String::from_str(consts::cluster_name_file()) };
    (machine, action)
}

/// Placeholder for the logs subcommand; does nothing yet.
pub fn logs() {
}

/// Placeholder for the execute subcommand; does nothing yet.
pub fn execute() {
}

/// Placeholder for the copy subcommand; does nothing yet.
pub fn copy() {
}

/// Placeholder for the refresh subcommand; does nothing yet.
pub fn refresh() {
}

/// Placeholder for the run subcommand; does nothing yet.
pub fn run() {
}

/// Placeholder for the shell subcommand; does nothing yet.
pub fn shell() {
}

/// Placeholder for the kubectl passthrough subcommand; does nothing yet.
pub fn kubectl() {
}

/// Placeholder for the container-side entrypoint; does nothing yet.
pub fn container_entrypoint() {
}

/// Placeholder for the container-side refresh; does nothing yet.
pub fn container_refresh() {
}

} // verus!
