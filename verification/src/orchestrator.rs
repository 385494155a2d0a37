//! The provisioning/removal orchestrator, as an explicit state machine.
//!
//! The machine owns every decision; it performs no I/O itself.  Each step
//! hands the caller one [`Action`] — create the state directory, read or
//! write a store file, or run one runtime command — and consumes the
//! observed [`Event`] to decide the next one.  The whole behaviour of a step
//! is pinned by the transition relation [`next_rel`], which the executable
//! [`Orchestrator::step`] is verified against.

use vstd::prelude::*;

use crate::buildspec;
use crate::command;
use crate::command::{CommandLine, SpawnOutcome};
use crate::consts;
use crate::error::{error_from_exec, Error};
use crate::identity;
use crate::text;

verus! {

/// One piece of outside work the machine asks the caller to perform.
#[derive(Debug)]
pub enum Action {
    /// Create the state directory (and any missing parents).
    CreateStateDir { path: String },
    /// Open the file create-if-missing and read its whole content.
    ReadFile { path: String },
    /// Truncate the file, write `content`, flush and sync it durably.
    WriteFile { path: String, content: String },
    /// Spawn the command, feed `input` to its standard input when non-empty,
    /// and capture its output and exit status.
    Exec { cmd: CommandLine, input: String },
}

/// What the caller observed while performing the requested action.
#[derive(Debug)]
pub enum Event {
    DirCreated { result: Result<(), String> },
    FileRead { result: Result<String, String> },
    FileWritten { result: Result<(), String> },
    CommandFinished { outcome: SpawnOutcome },
}

/// The machine's answer to an event: the next action to perform, terminal
/// success, or a terminal failure.
#[derive(Debug)]
pub enum Step {
    Continue(Action),
    Done,
    Failed(Error),
}

/// Where one orchestration run stands; `name` is the resolved cluster
/// identity once it is known.
#[derive(Debug)]
pub enum Phase {
    PvCreatingDir,
    PvReadingName,
    PvWritingName { name: String },
    PvProbingRunning { name: String },
    PvProbingExists { name: String },
    PvInspecting { name: String },
    PvReadingBuildSpec { name: String },
    PvWritingBuildSpec { name: String, content: String },
    PvBuildingImage { name: String },
    PvCreatingVolume { name: String },
    PvStartingContainer { name: String },
    RmReadingName,
    RmRemovingContainer { name: String },
    RmRemovingVolume { name: String },
    RmRemovingImage { name: String },
    Complete,
}

/// One orchestration run: the current phase, and the working directory the
/// container mounts are built from.
#[derive(Debug)]
pub struct Orchestrator {
    pub phase: Phase,
    pub cwd: String,
}

// What shape of step a transition may produce.
pub open spec fn is_create_dir(r: Step, path: Seq<char>) -> bool {
    match r {
        Step::Continue(Action::CreateStateDir { path: p }) => p@ == path,
        _ => false,
    }
}

pub open spec fn is_read(r: Step, path: Seq<char>) -> bool {
    match r {
        Step::Continue(Action::ReadFile { path: p }) => p@ == path,
        _ => false,
    }
}

pub open spec fn is_write(r: Step, path: Seq<char>, content: Seq<char>) -> bool {
    match r {
        Step::Continue(Action::WriteFile { path: p, content: c }) => p@ == path && c@ == content,
        _ => false,
    }
}

pub open spec fn is_exec(r: Step, tokens: Seq<Seq<char>>, input: Seq<char>) -> bool {
    match r {
        Step::Continue(Action::Exec { cmd, input: inp }) => cmd@ == tokens && inp@ == input,
        _ => false,
    }
}

pub open spec fn fails_create_dir(r: Step, path: Seq<char>, cause: Seq<char>) -> bool {
    match r {
        Step::Failed(Error::CreateDir { path: p, cause: c }) => p@ == path && c@ == cause,
        _ => false,
    }
}

pub open spec fn fails_name_io(r: Step, cause: Seq<char>) -> bool {
    match r {
        Step::Failed(Error::ClusterNameIo { cause: c }) => c@ == cause,
        _ => false,
    }
}

pub open spec fn fails_name_save_io(r: Step, cause: Seq<char>) -> bool {
    match r {
        Step::Failed(Error::ClusterNameSaveIo { cause: c }) => c@ == cause,
        _ => false,
    }
}

pub open spec fn fails_build_io(r: Step, cause: Seq<char>) -> bool {
    match r {
        Step::Failed(Error::BuildSpecIo { cause: c }) => c@ == cause,
        _ => false,
    }
}

pub open spec fn fails_command_io(r: Step, cmd_text: Seq<char>, cause: Seq<char>) -> bool {
    match r {
        Step::Failed(Error::CommandIo { cmd, cause: c }) => cmd@ == cmd_text && c@ == cause,
        _ => false,
    }
}

pub open spec fn fails_non_zero(
    r: Step,
    cmd_text: Seq<char>,
    code: i32,
    out: Seq<char>,
    err: Seq<char>,
) -> bool {
    match r {
        Step::Failed(Error::CommandNonZeroExit { cmd, exit_code, stdout, stderr }) => {
            cmd@ == cmd_text && exit_code == code && stdout@ == out && stderr@ == err
        },
        _ => false,
    }
}

pub open spec fn fails_not_running(r: Step, state: Seq<char>) -> bool {
    match r {
        Step::Failed(Error::ClusterContainerNotInRunningState { state: s }) => s@ == state,
        _ => false,
    }
}

pub open spec fn completes(post: Orchestrator) -> bool {
    post.phase matches Phase::Complete
}

/// Whether a command outcome is a clean exit; its captured standard output.
pub open spec fn command_ok(outcome: SpawnOutcome) -> bool {
    match outcome {
        SpawnOutcome::Finished { exit_code, .. } => exit_code == 0,
        _ => false,
    }
}

pub open spec fn command_stdout(outcome: SpawnOutcome) -> Seq<char> {
    match outcome {
        SpawnOutcome::Finished { stdout, .. } => stdout@,
        _ => Seq::empty(),
    }
}

/// Every failing outcome of the command `ts` ends the run with the matching
/// error: a spawn failure carries its cause, a non-zero exit carries the
/// captured output; both carry the rendered command text.
pub open spec fn command_fails(
    ts: Seq<Seq<char>>,
    outcome: SpawnOutcome,
    post: Orchestrator,
    r: Step,
) -> bool {
    match outcome {
        SpawnOutcome::SpawnFailed { cause } => completes(post) && fails_command_io(
            r,
            command::render_tokens(ts),
            cause@,
        ),
        SpawnOutcome::Finished { exit_code, stdout, stderr } => {
            exit_code != 0 && completes(post) && fails_non_zero(
                r,
                command::render_tokens(ts),
                exit_code,
                stdout@,
                stderr@,
            )
        },
    }
}

/// The transition relation of the orchestrator: exactly how each phase
/// consumes its event, what the successor phase is, and which action, success
/// or failure comes back.  This is the machine's whole contract.
pub open spec fn next_rel(pre: Orchestrator, ev: Event, post: Orchestrator, r: Step) -> bool {
    &&& post.cwd == pre.cwd
    &&& match pre.phase {
        // Provision: ensure the state directory, then resolve the identity.
        Phase::PvCreatingDir => match ev {
            Event::DirCreated { result } => match result {
                Ok(_) => post.phase == Phase::PvReadingName && is_read(
                    r,
                    consts::cluster_name_file_view(),
                ),
                Err(cause) => completes(post) && fails_create_dir(
                    r,
                    consts::state_dir_view(),
                    cause@,
                ),
            },
            _ => false,
        },
        // An existing token is reused as-is; an empty file gets a fresh
        // identity persisted (token plus line feed) before any probe runs.
        Phase::PvReadingName => match ev {
            Event::FileRead { result } => match result {
                Ok(content) => {
                    if text::first_line_of(content@).len() == 0 {
                        match post.phase {
                            Phase::PvWritingName { name } => identity::valid_identity(name@)
                                && is_write(
                                r,
                                consts::cluster_name_file_view(),
                                name@ + "\n"@,
                            ),
                            _ => false,
                        }
                    } else {
                        match post.phase {
                            Phase::PvProbingRunning { name } => name@ == text::first_line_of(
                                content@,
                            ) && is_exec(
                                r,
                                command::probe_running_tokens(name@),
                                Seq::empty(),
                            ),
                            _ => false,
                        }
                    }
                },
                Err(cause) => completes(post) && fails_name_save_io(r, cause@),
            },
            _ => false,
        },
        Phase::PvWritingName { name } => match ev {
            Event::FileWritten { result } => match result {
                Ok(_) => post.phase == (Phase::PvProbingRunning { name }) && is_exec(
                    r,
                    command::probe_running_tokens(name@),
                    Seq::empty(),
                ),
                Err(cause) => completes(post) && fails_name_save_io(r, cause@),
            },
            _ => false,
        },
        // The two probes and the inspect query, in the prober's order: a
        // running container is terminal success; one that exists but is not
        // running is a terminal failure carrying its status; an absent one
        // proceeds to creation.
        Phase::PvProbingRunning { name } => match ev {
            Event::CommandFinished { outcome } => {
                if command_ok(outcome) {
                    if !text::is_blank(command_stdout(outcome)) {
                        completes(post) && r == Step::Done
                    } else {
                        post.phase == (Phase::PvProbingExists { name }) && is_exec(
                            r,
                            command::probe_exists_tokens(name@),
                            Seq::empty(),
                        )
                    }
                } else {
                    command_fails(command::probe_running_tokens(name@), outcome, post, r)
                }
            },
            _ => false,
        },
        Phase::PvProbingExists { name } => match ev {
            Event::CommandFinished { outcome } => {
                if command_ok(outcome) {
                    if !text::is_blank(command_stdout(outcome)) {
                        post.phase == (Phase::PvInspecting { name }) && is_exec(
                            r,
                            command::inspect_tokens(name@),
                            Seq::empty(),
                        )
                    } else {
                        post.phase == (Phase::PvReadingBuildSpec { name }) && is_read(
                            r,
                            consts::build_file_view(),
                        )
                    }
                } else {
                    command_fails(command::probe_exists_tokens(name@), outcome, post, r)
                }
            },
            _ => false,
        },
        Phase::PvInspecting { name } => match ev {
            Event::CommandFinished { outcome } => {
                if command_ok(outcome) {
                    completes(post) && fails_not_running(
                        r,
                        text::trimmed_end(command_stdout(outcome)),
                    )
                } else {
                    command_fails(command::inspect_tokens(name@), outcome, post, r)
                }
            },
            _ => false,
        },
        // Creation: resolve the build spec (seeding it once if empty), build
        // the image from it, create the volume, start the container.
        Phase::PvReadingBuildSpec { name } => match ev {
            Event::FileRead { result } => match result {
                Ok(content) => {
                    if content@.len() == 0 {
                        match post.phase {
                            Phase::PvWritingBuildSpec { name: n, content: c } => n == name && c@
                                == consts::default_build_spec_view() && is_write(
                                r,
                                consts::build_file_view(),
                                consts::default_build_spec_view(),
                            ),
                            _ => false,
                        }
                    } else {
                        post.phase == (Phase::PvBuildingImage { name }) && is_exec(
                            r,
                            command::build_tokens(name@),
                            content@,
                        )
                    }
                },
                Err(cause) => completes(post) && fails_build_io(r, cause@),
            },
            _ => false,
        },
        Phase::PvWritingBuildSpec { name, content } => match ev {
            Event::FileWritten { result } => match result {
                Ok(_) => post.phase == (Phase::PvBuildingImage { name }) && is_exec(
                    r,
                    command::build_tokens(name@),
                    content@,
                ),
                Err(cause) => completes(post) && fails_build_io(r, cause@),
            },
            _ => false,
        },
        Phase::PvBuildingImage { name } => match ev {
            Event::CommandFinished { outcome } => {
                if command_ok(outcome) {
                    post.phase == (Phase::PvCreatingVolume { name }) && is_exec(
                        r,
                        command::volume_create_tokens(name@),
                        Seq::empty(),
                    )
                } else {
                    command_fails(command::build_tokens(name@), outcome, post, r)
                }
            },
            _ => false,
        },
        Phase::PvCreatingVolume { name } => match ev {
            Event::CommandFinished { outcome } => {
                if command_ok(outcome) {
                    post.phase == (Phase::PvStartingContainer { name }) && is_exec(
                        r,
                        command::run_tokens(name@, pre.cwd@),
                        Seq::empty(),
                    )
                } else {
                    command_fails(command::volume_create_tokens(name@), outcome, post, r)
                }
            },
            _ => false,
        },
        Phase::PvStartingContainer { name } => match ev {
            Event::CommandFinished { outcome } => {
                if command_ok(outcome) {
                    completes(post) && r == Step::Done
                } else {
                    command_fails(command::run_tokens(name@, pre.cwd@), outcome, post, r)
                }
            },
            _ => false,
        },
        // Removal: a missing token is the idempotent no-op; otherwise tear
        // down container, volume and image strictly in that order, stopping
        // at the first failure.
        Phase::RmReadingName => match ev {
            Event::FileRead { result } => match result {
                Ok(content) => {
                    if text::first_line_of(content@).len() == 0 {
                        completes(post) && r == Step::Done
                    } else {
                        match post.phase {
                            Phase::RmRemovingContainer { name } => name@ == text::first_line_of(
                                content@,
                            ) && is_exec(
                                r,
                                command::rm_container_tokens(name@),
                                Seq::empty(),
                            ),
                            _ => false,
                        }
                    }
                },
                Err(cause) => completes(post) && fails_name_io(r, cause@),
            },
            _ => false,
        },
        Phase::RmRemovingContainer { name } => match ev {
            Event::CommandFinished { outcome } => {
                if command_ok(outcome) {
                    post.phase == (Phase::RmRemovingVolume { name }) && is_exec(
                        r,
                        command::volume_rm_tokens(name@),
                        Seq::empty(),
                    )
                } else {
                    command_fails(command::rm_container_tokens(name@), outcome, post, r)
                }
            },
            _ => false,
        },
        Phase::RmRemovingVolume { name } => match ev {
            Event::CommandFinished { outcome } => {
                if command_ok(outcome) {
                    post.phase == (Phase::RmRemovingImage { name }) && is_exec(
                        r,
                        command::image_rm_tokens(name@),
                        Seq::empty(),
                    )
                } else {
                    command_fails(command::volume_rm_tokens(name@), outcome, post, r)
                }
            },
            _ => false,
        },
        Phase::RmRemovingImage { name } => match ev {
            Event::CommandFinished { outcome } => {
                if command_ok(outcome) {
                    completes(post) && r == Step::Done
                } else {
                    command_fails(command::image_rm_tokens(name@), outcome, post, r)
                }
            },
            _ => false,
        },
        // Terminal: nothing follows.
        Phase::Complete => false,
    }
}

impl Orchestrator {
    /// Whether the run has reached its terminal phase.
    pub open spec fn is_complete(self) -> bool {
        self.phase matches Phase::Complete
    }

    /// Which event kind the current phase is waiting for.
    pub open spec fn expects(self, ev: Event) -> bool {
        match self.phase {
            Phase::PvCreatingDir => ev matches Event::DirCreated { result: _ },
            Phase::PvReadingName | Phase::RmReadingName => ev matches Event::FileRead {
                result: _,
            },
            Phase::PvReadingBuildSpec { .. } => ev matches Event::FileRead { result: _ },
            Phase::PvWritingName { .. } | Phase::PvWritingBuildSpec { .. } => ev
                matches Event::FileWritten { result: _ },
            Phase::Complete => false,
            _ => ev matches Event::CommandFinished { outcome: _ },
        }
    }

    /// Consumes the observed outcome of the pending action and answers with
    /// the next action, terminal success, or a terminal failure, exactly as
    /// the transition relation prescribes.
    pub fn step(&mut self, ev: Event) -> (r: Step)
        requires
            old(self).expects(ev),
        ensures
            next_rel(*old(self), ev, *final(self), r),
    {
        match &self.phase {
            Phase::PvCreatingDir => match ev {
                Event::DirCreated { result } => match result {
                    Ok(_) => {
                        self.phase = Phase::PvReadingName;
                        Step::Continue(Action::ReadFile {
                            path: String::from_str(consts::cluster_name_file()),
                        })
                    },
                    Err(cause) => {
                        self.phase = Phase::Complete;
                        Step::Failed(Error::CreateDir {
                            path: String::from_str(consts::state_dir()),
                            cause,
                        })
                    },
                },
                _ => vstd::pervasive::unreached(),
            },
            Phase::PvReadingName => match ev {
                Event::FileRead { result } => match result {
                    Ok(content) => {
                        let (name, to_write) = identity::obtain_or_generate_and_save_cluster_name(
                            content.as_str(),
                        );
                        match to_write {
                            Some(line) => {
                                self.phase = Phase::PvWritingName { name };
                                Step::Continue(Action::WriteFile {
                                    path: String::from_str(consts::cluster_name_file()),
                                    content: line,
                                })
                            },
                            None => {
                                let cmd = command::probe_running_cmd(name.as_str());
                                self.phase = Phase::PvProbingRunning { name };
                                Step::Continue(Action::Exec { cmd, input: String::new() })
                            },
                        }
                    },
                    Err(cause) => {
                        self.phase = Phase::Complete;
                        Step::Failed(Error::ClusterNameSaveIo { cause })
                    },
                },
                _ => vstd::pervasive::unreached(),
            },
            Phase::PvWritingName { name } => {
                let name = name.clone();
                match ev {
                    Event::FileWritten { result } => match result {
                        Ok(_) => {
                            let cmd = command::probe_running_cmd(name.as_str());
                            self.phase = Phase::PvProbingRunning { name };
                            Step::Continue(Action::Exec { cmd, input: String::new() })
                        },
                        Err(cause) => {
                            self.phase = Phase::Complete;
                            Step::Failed(Error::ClusterNameSaveIo { cause })
                        },
                    },
                    _ => vstd::pervasive::unreached(),
                }
            },
            Phase::PvProbingRunning { name } => {
                let name = name.clone();
                match ev {
                    Event::CommandFinished { outcome } => {
                        let probe = command::probe_running_cmd(name.as_str());
                        match command::classify_execution(&probe, outcome) {
                            Err(e) => {
                                self.phase = Phase::Complete;
                                Step::Failed(error_from_exec(e))
                            },
                            Ok(res) => {
                                if !text::output_is_blank(res.stdout.as_str()) {
                                    self.phase = Phase::Complete;
                                    Step::Done
                                } else {
                                    let cmd = command::probe_exists_cmd(name.as_str());
                                    self.phase = Phase::PvProbingExists { name };
                                    Step::Continue(Action::Exec { cmd, input: String::new() })
                                }
                            },
                        }
                    },
                    _ => vstd::pervasive::unreached(),
                }
            },
            Phase::PvProbingExists { name } => {
                let name = name.clone();
                match ev {
                    Event::CommandFinished { outcome } => {
                        let probe = command::probe_exists_cmd(name.as_str());
                        match command::classify_execution(&probe, outcome) {
                            Err(e) => {
                                self.phase = Phase::Complete;
                                Step::Failed(error_from_exec(e))
                            },
                            Ok(res) => {
                                if !text::output_is_blank(res.stdout.as_str()) {
                                    let cmd = command::inspect_cmd(name.as_str());
                                    self.phase = Phase::PvInspecting { name };
                                    Step::Continue(Action::Exec { cmd, input: String::new() })
                                } else {
                                    self.phase = Phase::PvReadingBuildSpec { name };
                                    Step::Continue(Action::ReadFile {
                                        path: String::from_str(consts::build_file()),
                                    })
                                }
                            },
                        }
                    },
                    _ => vstd::pervasive::unreached(),
                }
            },
            Phase::PvInspecting { name } => {
                let name = name.clone();
                match ev {
                    Event::CommandFinished { outcome } => {
                        let query = command::inspect_cmd(name.as_str());
                        match command::classify_execution(&query, outcome) {
                            Err(e) => {
                                self.phase = Phase::Complete;
                                Step::Failed(error_from_exec(e))
                            },
                            Ok(res) => {
                                self.phase = Phase::Complete;
                                Step::Failed(Error::ClusterContainerNotInRunningState {
                                    state: text::trim_end(res.stdout.as_str()),
                                })
                            },
                        }
                    },
                    _ => vstd::pervasive::unreached(),
                }
            },
            Phase::PvReadingBuildSpec { name } => {
                let name = name.clone();
                match ev {
                    Event::FileRead { result } => match result {
                        Ok(content) => {
                            let (spec_text, must_write) = buildspec::resolve_build_spec(content);
                            if must_write {
                                let to_write = spec_text.clone();
                                self.phase = Phase::PvWritingBuildSpec {
                                    name,
                                    content: spec_text,
                                };
                                Step::Continue(Action::WriteFile {
                                    path: String::from_str(consts::build_file()),
                                    content: to_write,
                                })
                            } else {
                                let cmd = command::build_cmd(name.as_str());
                                self.phase = Phase::PvBuildingImage { name };
                                Step::Continue(Action::Exec { cmd, input: spec_text })
                            }
                        },
                        Err(cause) => {
                            self.phase = Phase::Complete;
                            Step::Failed(Error::BuildSpecIo { cause })
                        },
                    },
                    _ => vstd::pervasive::unreached(),
                }
            },
            Phase::PvWritingBuildSpec { name, content } => {
                let name = name.clone();
                let content = content.clone();
                match ev {
                    Event::FileWritten { result } => match result {
                        Ok(_) => {
                            let cmd = command::build_cmd(name.as_str());
                            self.phase = Phase::PvBuildingImage { name };
                            Step::Continue(Action::Exec { cmd, input: content })
                        },
                        Err(cause) => {
                            self.phase = Phase::Complete;
                            Step::Failed(Error::BuildSpecIo { cause })
                        },
                    },
                    _ => vstd::pervasive::unreached(),
                }
            },
            Phase::PvBuildingImage { name } => {
                let name = name.clone();
                match ev {
                    Event::CommandFinished { outcome } => {
                        let build = command::build_cmd(name.as_str());
                        match command::classify_execution(&build, outcome) {
                            Err(e) => {
                                self.phase = Phase::Complete;
                                Step::Failed(error_from_exec(e))
                            },
                            Ok(_) => {
                                let cmd = command::volume_create_cmd(name.as_str());
                                self.phase = Phase::PvCreatingVolume { name };
                                Step::Continue(Action::Exec { cmd, input: String::new() })
                            },
                        }
                    },
                    _ => vstd::pervasive::unreached(),
                }
            },
            Phase::PvCreatingVolume { name } => {
                let name = name.clone();
                match ev {
                    Event::CommandFinished { outcome } => {
                        let create = command::volume_create_cmd(name.as_str());
                        match command::classify_execution(&create, outcome) {
                            Err(e) => {
                                self.phase = Phase::Complete;
                                Step::Failed(error_from_exec(e))
                            },
                            Ok(_) => {
                                let cmd = command::run_container_cmd(
                                    name.as_str(),
                                    self.cwd.as_str(),
                                );
                                self.phase = Phase::PvStartingContainer { name };
                                Step::Continue(Action::Exec { cmd, input: String::new() })
                            },
                        }
                    },
                    _ => vstd::pervasive::unreached(),
                }
            },
            Phase::PvStartingContainer { name } => {
                let name = name.clone();
                match ev {
                    Event::CommandFinished { outcome } => {
                        let start = command::run_container_cmd(name.as_str(), self.cwd.as_str());
                        match command::classify_execution(&start, outcome) {
                            Err(e) => {
                                self.phase = Phase::Complete;
                                Step::Failed(error_from_exec(e))
                            },
                            Ok(_) => {
                                self.phase = Phase::Complete;
                                Step::Done
                            },
                        }
                    },
                    _ => vstd::pervasive::unreached(),
                }
            },
            Phase::RmReadingName => match ev {
                Event::FileRead { result } => match result {
                    Ok(content) => match identity::obtain_cluster_name(content.as_str()) {
                        Err(_) => {
                            self.phase = Phase::Complete;
                            Step::Done
                        },
                        Ok(name) => {
                            let cmd = command::rm_container_cmd(name.as_str());
                            self.phase = Phase::RmRemovingContainer { name };
                            Step::Continue(Action::Exec { cmd, input: String::new() })
                        },
                    },
                    Err(cause) => {
                        self.phase = Phase::Complete;
                        Step::Failed(Error::ClusterNameIo { cause })
                    },
                },
                _ => vstd::pervasive::unreached(),
            },
            Phase::RmRemovingContainer { name } => {
                let name = name.clone();
                match ev {
                    Event::CommandFinished { outcome } => {
                        let rm = command::rm_container_cmd(name.as_str());
                        match command::classify_execution(&rm, outcome) {
                            Err(e) => {
                                self.phase = Phase::Complete;
                                Step::Failed(error_from_exec(e))
                            },
                            Ok(_) => {
                                let cmd = command::volume_rm_cmd(name.as_str());
                                self.phase = Phase::RmRemovingVolume { name };
                                Step::Continue(Action::Exec { cmd, input: String::new() })
                            },
                        }
                    },
                    _ => vstd::pervasive::unreached(),
                }
            },
            Phase::RmRemovingVolume { name } => {
                let name = name.clone();
                match ev {
                    Event::CommandFinished { outcome } => {
                        let rm = command::volume_rm_cmd(name.as_str());
                        match command::classify_execution(&rm, outcome) {
                            Err(e) => {
                                self.phase = Phase::Complete;
                                Step::Failed(error_from_exec(e))
                            },
                            Ok(_) => {
                                let cmd = command::image_rm_cmd(name.as_str());
                                self.phase = Phase::RmRemovingImage { name };
                                Step::Continue(Action::Exec { cmd, input: String::new() })
                            },
                        }
                    },
                    _ => vstd::pervasive::unreached(),
                }
            },
            Phase::RmRemovingImage { name } => {
                let name = name.clone();
                match ev {
                    Event::CommandFinished { outcome } => {
                        let rm = command::image_rm_cmd(name.as_str());
                        match command::classify_execution(&rm, outcome) {
                            Err(e) => {
                                self.phase = Phase::Complete;
                                Step::Failed(error_from_exec(e))
                            },
                            Ok(_) => {
                                self.phase = Phase::Complete;
                                Step::Done
                            },
                        }
                    },
                    _ => vstd::pervasive::unreached(),
                }
            },
            Phase::Complete => vstd::pervasive::unreached(),
        }
    }
}

} // verus!
