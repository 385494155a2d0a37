//! The state prober's classification: from the captured outputs of the two
//! list probes and the inspect query, derive what state the cluster
//! container is in.  Computed fresh on every provision call, never cached.

use vstd::prelude::*;

use crate::text;

verus! {

/// The derived, never-persisted state of the cluster container.
#[derive(Debug)]
pub enum ProvisioningState {
    /// The running-filtered list probe answered non-blank.
    Running,
    /// Only the unfiltered list probe answered non-blank; `state` is the
    /// container's detailed status, as the inspect query reported it.
    ExistsNotRunning { state: String },
    /// Both list probes answered blank.
    NotCreated,
}

/// How the three captured probe outputs must be classified.
pub open spec fn classified_state(
    running_out: Seq<char>,
    exists_out: Seq<char>,
    inspect_out: Seq<char>,
    r: ProvisioningState,
) -> bool {
    if !text::is_blank(running_out) {
        r matches ProvisioningState::Running
    } else if !text::is_blank(exists_out) {
        match r {
            ProvisioningState::ExistsNotRunning { state } => {
                state@ == text::trimmed_end(inspect_out)
            },
            _ => false,
        }
    } else {
        r matches ProvisioningState::NotCreated
    }
}

/// Classifies the cluster container's state from the captured outputs of the
/// running-filtered list probe, the unfiltered list probe, and the inspect
/// query (the latter two are consulted only when the earlier answers were
/// blank, mirroring the order in which the orchestrator issues them).
pub fn classify_probes(running_out: &str, exists_out: &str, inspect_out: &str) -> (r:
    ProvisioningState)
    ensures
        classified_state(running_out@, exists_out@, inspect_out@, r),
{
    if !text::output_is_blank(running_out) {
        ProvisioningState::Running
    } else if !text::output_is_blank(exists_out) {
        ProvisioningState::ExistsNotRunning { state: text::trim_end(inspect_out) }
    } else {
        ProvisioningState::NotCreated
    }
}

} // verus!
