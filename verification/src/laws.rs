//! The behavioural laws of the orchestrator, proved over whole runs of the
//! state machine: a run is a chain of states linked by the transition
//! relation, and the laws bound which actions such a chain can ever emit.

use vstd::prelude::*;

use crate::command;
use crate::consts;
use crate::error::Error;
use crate::command::SpawnOutcome;
use crate::orchestrator::{
    command_ok, command_stdout, completes, fails_not_running, is_exec, is_read, is_write, next_rel,
    Action, Event, Orchestrator, Phase, Step,
};
use crate::text;

verus! {

/// The read-only runtime commands: the two list probes and the inspect
/// query, recognisable by their first argument.
pub open spec fn is_probe_tokens(ts: Seq<Seq<char>>) -> bool {
    ts.len() >= 2 && (ts[1] == "ps"@ || ts[1] == "inspect"@)
}

/// Whether a step asks the caller to run a runtime command that mutates
/// runtime state (anything but a probe).
pub open spec fn step_mutates_runtime(r: Step) -> bool {
    match r {
        Step::Continue(Action::Exec { cmd, .. }) => !is_probe_tokens(cmd@),
        _ => false,
    }
}

/// Whether a step asks the caller to run any runtime command at all.
pub open spec fn step_runs_command(r: Step) -> bool {
    match r {
        Step::Continue(Action::Exec { .. }) => true,
        _ => false,
    }
}

/// A complete or partial run of the machine: `states` linked pairwise by the
/// transition relation, consuming `evs` and emitting `outs`.
pub open spec fn trace_ok(states: Seq<Orchestrator>, evs: Seq<Event>, outs: Seq<Step>) -> bool {
    &&& states.len() == evs.len() + 1
    &&& outs.len() == evs.len()
    &&& forall|i: int|
        0 <= i < evs.len() ==> next_rel(#[trigger] states[i], evs[i], states[i + 1], outs[i])
}

/// A transition answers with a terminal step (success or failure) exactly
/// when it moves the machine to its terminal phase.
pub proof fn lemma_step_terminal_shape(pre: Orchestrator, ev: Event, post: Orchestrator, r: Step)
    requires
        next_rel(pre, ev, post, r),
    ensures
        completes(post) <==> !(r matches Step::Continue(_)),
{
}

/// Law: a run stops at its first terminal step — nothing is consumed or
/// issued after a success or a failure.
pub proof fn lemma_terminal_step_is_last(
    states: Seq<Orchestrator>,
    evs: Seq<Event>,
    outs: Seq<Step>,
    i: int,
)
    requires
        trace_ok(states, evs, outs),
        0 <= i < outs.len(),
        !(outs[i] matches Step::Continue(_)),
    ensures
        i == outs.len() - 1,
{
    lemma_step_terminal_shape(states[i], evs[i], states[i + 1], outs[i]);
    if i + 1 < evs.len() {
        assert(next_rel(states[i + 1], evs[i + 1], states[i + 2], outs[i + 1]));
        assert(false);
    }
}

/// The event consumed while the running-status probe is pending reports a
/// clean exit with non-blank output: the container is running.
pub open spec fn probe_running_positive(ev: Event) -> bool {
    match ev {
        Event::CommandFinished { outcome } => command_ok(outcome) && !text::is_blank(
            command_stdout(outcome),
        ),
        _ => false,
    }
}

pub open spec fn awaits_running_probe(m: Orchestrator) -> bool {
    m.phase matches Phase::PvProbingRunning { .. }
}

/// The phases a provision run passes through before any mutating command can
/// be issued, plus the terminal phase.
pub open spec fn pre_probe_phase(p: Phase) -> bool {
    match p {
        Phase::PvCreatingDir => true,
        Phase::PvReadingName => true,
        Phase::PvWritingName { .. } => true,
        Phase::PvProbingRunning { .. } => true,
        Phase::Complete => true,
        _ => false,
    }
}

proof fn lemma_pre_probe_invariant(
    states: Seq<Orchestrator>,
    evs: Seq<Event>,
    outs: Seq<Step>,
    k: int,
)
    requires
        trace_ok(states, evs, outs),
        states.len() > 0,
        states[0].phase == Phase::PvCreatingDir,
        forall|i: int|
            0 <= i < evs.len() && awaits_running_probe(#[trigger] states[i])
                ==> probe_running_positive(evs[i]),
        0 <= k < states.len(),
    ensures
        pre_probe_phase(states[k].phase),
    decreases k,
{
    if k > 0 {
        lemma_pre_probe_invariant(states, evs, outs, k - 1);
        assert(next_rel(states[k - 1], evs[k - 1], states[k], outs[k - 1]));
    }
}

/// Law (idempotence of provision): a provision run against a runtime that
/// reports the container running — as every run after a successful first one
/// does — never issues a single mutating runtime command; it only creates
/// the state directory, resolves the identity, asks the one probe, and ends.
pub proof fn lemma_provision_idempotent(
    states: Seq<Orchestrator>,
    evs: Seq<Event>,
    outs: Seq<Step>,
)
    requires
        trace_ok(states, evs, outs),
        states.len() > 0,
        states[0].phase == Phase::PvCreatingDir,
        forall|i: int|
            0 <= i < evs.len() && awaits_running_probe(#[trigger] states[i])
                ==> probe_running_positive(evs[i]),
    ensures
        forall|i: int| 0 <= i < outs.len() ==> !step_mutates_runtime(#[trigger] outs[i]),
{
    assert forall|i: int| 0 <= i < outs.len() implies !step_mutates_runtime(
        #[trigger] outs[i],
    ) by {
        lemma_pre_probe_invariant(states, evs, outs, i);
        assert(next_rel(states[i], evs[i], states[i + 1], outs[i]));
    }
}

/// Law (idempotence of remove): a removal run that finds no persisted
/// identity ends at once with success, and the whole run issues no runtime
/// command at all.
pub proof fn lemma_remove_without_identity_is_noop(
    states: Seq<Orchestrator>,
    evs: Seq<Event>,
    outs: Seq<Step>,
    content: String,
)
    requires
        trace_ok(states, evs, outs),
        evs.len() >= 1,
        states[0].phase == Phase::RmReadingName,
        evs[0] == (Event::FileRead { result: Ok(content) }),
        text::first_line_of(content@).len() == 0,
    ensures
        outs[0] == Step::Done,
        evs.len() == 1,
        forall|i: int| 0 <= i < outs.len() ==> !step_runs_command(#[trigger] outs[i]),
{
    assert(next_rel(states[0], evs[0], states[1], outs[0]));
    lemma_terminal_step_is_last(states, evs, outs, 0);
}

/// Law (failure propagation): a non-zero exit of the image build ends the
/// run immediately — the volume is never created and the container never
/// started — and the returned error carries the build command's text, its
/// exit code and its captured output verbatim.
pub proof fn lemma_build_failure_aborts(
    states: Seq<Orchestrator>,
    evs: Seq<Event>,
    outs: Seq<Step>,
    i: int,
    code: i32,
    out: String,
    err: String,
)
    requires
        trace_ok(states, evs, outs),
        0 <= i < evs.len(),
        states[i].phase matches Phase::PvBuildingImage { .. },
        evs[i] == (Event::CommandFinished {
            outcome: SpawnOutcome::Finished { exit_code: code, stdout: out, stderr: err },
        }),
        code != 0,
    ensures
        i == outs.len() - 1,
        match (states[i].phase, outs[i]) {
            (
                Phase::PvBuildingImage { name },
                Step::Failed(Error::CommandNonZeroExit { cmd, exit_code, stdout, stderr }),
            ) => {
                &&& cmd@ == command::render_tokens(command::build_tokens(name@))
                &&& exit_code == code
                &&& stdout@ == out@
                &&& stderr@ == err@
            },
            _ => false,
        },
{
    assert(next_rel(states[i], evs[i], states[i + 1], outs[i]));
    lemma_terminal_step_is_last(states, evs, outs, i);
}

/// Law (state classification, running): when the running-filtered probe
/// answers non-blank, the run is a terminal success and nothing further is
/// issued.
pub proof fn lemma_probe_running_terminal(
    pre: Orchestrator,
    ev: Event,
    post: Orchestrator,
    r: Step,
)
    requires
        next_rel(pre, ev, post, r),
        awaits_running_probe(pre),
        probe_running_positive(ev),
    ensures
        r == Step::Done,
        completes(post),
{
}

/// Law (state classification, exists): when the running-filtered probe was
/// blank but the unfiltered probe answers non-blank, the machine asks the
/// inspect query next.
pub proof fn lemma_probe_exists_inspects(pre: Orchestrator, ev: Event, post: Orchestrator, r: Step)
    requires
        next_rel(pre, ev, post, r),
        pre.phase matches Phase::PvProbingExists { .. },
        (match ev {
            Event::CommandFinished { outcome } => command_ok(outcome) && !text::is_blank(
                command_stdout(outcome),
            ),
            _ => false,
        }),
    ensures
        match (pre.phase, post.phase) {
            (Phase::PvProbingExists { name }, Phase::PvInspecting { name: n }) => n == name
                && is_exec(r, command::inspect_tokens(name@), Seq::empty()),
            _ => false,
        },
{
}

/// Law (state classification, exists but not running): the inspect answer
/// becomes the terminal `ClusterContainerNotInRunningState` failure, with the
/// status taken verbatim (trailing whitespace stripped) from the query's
/// output; no repair is attempted.
pub proof fn lemma_inspect_reports_state(pre: Orchestrator, ev: Event, post: Orchestrator, r: Step)
    requires
        next_rel(pre, ev, post, r),
        pre.phase matches Phase::PvInspecting { .. },
        (match ev {
            Event::CommandFinished { outcome } => command_ok(outcome),
            _ => false,
        }),
    ensures
        completes(post),
        (match ev {
            Event::CommandFinished { outcome } => fails_not_running(
                r,
                text::trimmed_end(command_stdout(outcome)),
            ),
            _ => false,
        }),
{
}

/// Law (state classification, absent): when both probes answer blank the
/// machine proceeds to creation, starting with the build-spec read.
pub proof fn lemma_probe_absent_creates(pre: Orchestrator, ev: Event, post: Orchestrator, r: Step)
    requires
        next_rel(pre, ev, post, r),
        pre.phase matches Phase::PvProbingExists { .. },
        (match ev {
            Event::CommandFinished { outcome } => command_ok(outcome) && text::is_blank(
                command_stdout(outcome),
            ),
            _ => false,
        }),
    ensures
        post.phase matches Phase::PvReadingBuildSpec { .. },
        is_read(r, consts::build_file_view()),
{
}

/// Law (build-spec write-once, keep): non-empty build-spec content — the
/// seeded default of any version, or a hand-edited replacement — is fed to
/// the image build unchanged, and the file is not rewritten.
pub proof fn lemma_build_spec_kept(
    pre: Orchestrator,
    ev: Event,
    post: Orchestrator,
    r: Step,
    content: String,
)
    requires
        next_rel(pre, ev, post, r),
        pre.phase matches Phase::PvReadingBuildSpec { .. },
        ev == (Event::FileRead { result: Ok(content) }),
        content@.len() != 0,
    ensures
        match pre.phase {
            Phase::PvReadingBuildSpec { name } => is_exec(
                r,
                command::build_tokens(name@),
                content@,
            ),
            _ => false,
        },
{
}

/// Law (build-spec write-once, seed): an empty build-spec file is seeded
/// with the built-in default — which is non-empty, so this happens on the
/// first run alone — and the following build is fed exactly that default.
pub proof fn lemma_build_spec_seeded(pre: Orchestrator, ev: Event, post: Orchestrator, r: Step)
    requires
        next_rel(pre, ev, post, r),
        pre.phase matches Phase::PvReadingBuildSpec { .. },
        (match ev {
            Event::FileRead { result } => match result {
                Ok(content) => content@.len() == 0,
                _ => false,
            },
            _ => false,
        }),
    ensures
        is_write(r, consts::build_file_view(), consts::default_build_spec_view()),
        consts::default_build_spec_view().len() != 0,
        match post.phase {
            Phase::PvWritingBuildSpec { content, .. } => content@
                == consts::default_build_spec_view(),
            _ => false,
        },
{
    crate::buildspec::lemma_default_build_spec_nonempty();
}

/// How far along its linear course a run has come.  Every transition
/// strictly increases this rank, so no phase is ever revisited.
pub open spec fn phase_rank(p: Phase) -> nat {
    match p {
        Phase::PvCreatingDir => 0,
        Phase::PvReadingName => 1,
        Phase::PvWritingName { .. } => 2,
        Phase::PvProbingRunning { .. } => 3,
        Phase::PvProbingExists { .. } => 4,
        Phase::PvInspecting { .. } => 5,
        Phase::PvReadingBuildSpec { .. } => 6,
        Phase::PvWritingBuildSpec { .. } => 7,
        Phase::PvBuildingImage { .. } => 8,
        Phase::PvCreatingVolume { .. } => 9,
        Phase::PvStartingContainer { .. } => 10,
        Phase::RmReadingName => 20,
        Phase::RmRemovingContainer { .. } => 21,
        Phase::RmRemovingVolume { .. } => 22,
        Phase::RmRemovingImage { .. } => 23,
        Phase::Complete => 100,
    }
}

/// Every transition moves strictly forward: the machine never returns to an
/// earlier phase.
pub proof fn lemma_rank_increases(pre: Orchestrator, ev: Event, post: Orchestrator, r: Step)
    requires
        next_rel(pre, ev, post, r),
    ensures
        phase_rank(pre.phase) < phase_rank(post.phase),
{
}

proof fn lemma_rank_monotonic(states: Seq<Orchestrator>, evs: Seq<Event>, outs: Seq<Step>, i: int, j: int)
    requires
        trace_ok(states, evs, outs),
        0 <= i < j < states.len(),
    ensures
        phase_rank(states[i].phase) < phase_rank(states[j].phase),
    decreases j - i,
{
    lemma_rank_increases(states[j - 1], evs[j - 1], states[j], outs[j - 1]);
    if i < j - 1 {
        lemma_rank_monotonic(states, evs, outs, i, j - 1);
    }
}

/// The step asks for the image build / the volume creation / the container
/// start: each of the three creating commands is recognisable by its token
/// count and leading tokens (see the builders in [`crate::command`]).
pub open spec fn issues_image_build(r: Step) -> bool {
    match r {
        Step::Continue(Action::Exec { cmd, .. }) => cmd@.len() == 7 && cmd@[1] == "build"@,
        _ => false,
    }
}

pub open spec fn issues_volume_create(r: Step) -> bool {
    match r {
        Step::Continue(Action::Exec { cmd, .. }) => cmd@.len() == 4 && cmd@[1] == "volume"@
            && cmd@[2] == "create"@,
        _ => false,
    }
}

pub open spec fn issues_container_start(r: Step) -> bool {
    match r {
        Step::Continue(Action::Exec { cmd, .. }) => cmd@.len() == 15 && cmd@[1] == "run"@,
        _ => false,
    }
}

/// Each creating command is emitted by the transition into its own awaiting
/// phase, and by no other.
proof fn lemma_creator_emitters(pre: Orchestrator, ev: Event, post: Orchestrator, r: Step)
    requires
        next_rel(pre, ev, post, r),
    ensures
        issues_image_build(r) <==> post.phase matches Phase::PvBuildingImage { .. },
        issues_volume_create(r) <==> post.phase matches Phase::PvCreatingVolume { .. },
        issues_container_start(r) <==> post.phase matches Phase::PvStartingContainer { .. },
{
    reveal_strlit("rm");
    reveal_strlit("volume");
    reveal_strlit("create");
    reveal_strlit("image");
    assert("rm"@.len() == 2);
    assert("create"@.len() == 6);
    assert("image"@.len() == 5);
    assert("volume"@.len() == 6);
}

/// Law (idempotence of provision, creation half): one run builds at most one
/// image, creates at most one volume and starts at most one container — the
/// machine never revisits a creating step, so duplicate resources can only
/// come from a second run, which the probe law above turns into a no-op.
pub proof fn lemma_creation_at_most_once(
    states: Seq<Orchestrator>,
    evs: Seq<Event>,
    outs: Seq<Step>,
    i: int,
    j: int,
)
    requires
        trace_ok(states, evs, outs),
        0 <= i < j < outs.len(),
    ensures
        !(issues_image_build(outs[i]) && issues_image_build(outs[j])),
        !(issues_volume_create(outs[i]) && issues_volume_create(outs[j])),
        !(issues_container_start(outs[i]) && issues_container_start(outs[j])),
{
    lemma_creator_emitters(states[i], evs[i], states[i + 1], outs[i]);
    lemma_creator_emitters(states[j], evs[j], states[j + 1], outs[j]);
    lemma_rank_monotonic(states, evs, outs, i + 1, j + 1);
}

/// The identity a phase carries, once one is resolved.
pub open spec fn phase_name(p: Phase) -> Option<Seq<char>> {
    match p {
        Phase::PvWritingName { name } => Some(name@),
        Phase::PvProbingRunning { name } => Some(name@),
        Phase::PvProbingExists { name } => Some(name@),
        Phase::PvInspecting { name } => Some(name@),
        Phase::PvReadingBuildSpec { name } => Some(name@),
        Phase::PvWritingBuildSpec { name, .. } => Some(name@),
        Phase::PvBuildingImage { name } => Some(name@),
        Phase::PvCreatingVolume { name } => Some(name@),
        Phase::PvStartingContainer { name } => Some(name@),
        Phase::RmRemovingContainer { name } => Some(name@),
        Phase::RmRemovingVolume { name } => Some(name@),
        Phase::RmRemovingImage { name } => Some(name@),
        _ => None,
    }
}

/// A transition out of a name-carrying phase keeps the name, or ends the run.
proof fn lemma_name_preserved(pre: Orchestrator, ev: Event, post: Orchestrator, r: Step)
    requires
        next_rel(pre, ev, post, r),
        phase_name(pre.phase) is Some,
    ensures
        phase_name(post.phase) == phase_name(pre.phase) || post.phase matches Phase::Complete,
{
}

/// Law (one identity per run): every name-carrying phase of one run carries
/// the same identity — the single token that was read or generated names all
/// resources the run touches.
pub proof fn lemma_one_identity(
    states: Seq<Orchestrator>,
    evs: Seq<Event>,
    outs: Seq<Step>,
    i: int,
    j: int,
)
    requires
        trace_ok(states, evs, outs),
        0 <= i <= j < states.len(),
        phase_name(states[i].phase) is Some,
        phase_name(states[j].phase) is Some,
    ensures
        phase_name(states[i].phase) == phase_name(states[j].phase),
    decreases j - i,
{
    if i < j {
        lemma_name_preserved(states[i], evs[i], states[i + 1], outs[i]);
        if completes(states[i + 1]) {
            if i + 1 < j {
                assert(next_rel(states[i + 1], evs[i + 1], states[i + 2], outs[i + 1]));
                assert(false);
            }
        } else {
            lemma_one_identity(states, evs, outs, i + 1, j);
        }
    }
}

/// Law (identity stability): a non-empty persisted token is reused exactly
/// as read — the machine probes under that name and never rewrites the
/// identity file.
pub proof fn lemma_identity_reused(
    pre: Orchestrator,
    ev: Event,
    post: Orchestrator,
    r: Step,
    content: String,
)
    requires
        next_rel(pre, ev, post, r),
        pre.phase == Phase::PvReadingName,
        ev == (Event::FileRead { result: Ok(content) }),
        text::first_line_of(content@).len() != 0,
    ensures
        match post.phase {
            Phase::PvProbingRunning { name } => name@ == text::first_line_of(content@) && is_exec(
                r,
                command::probe_running_tokens(name@),
                Seq::empty(),
            ),
            _ => false,
        },
{
}

} // verus!
