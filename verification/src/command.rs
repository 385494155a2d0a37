//! The process-executor model: a runtime command as an explicit program name
//! plus argument tokens (never a string re-split on whitespace), the builders
//! for every runtime command the orchestrator issues, and the classification
//! of a spawned command's outcome.

use vstd::prelude::*;

use crate::consts;

verus! {

/// An external command: the program to run and its argument tokens, in order.
#[derive(Debug)]
pub struct CommandLine {
    pub program: String,
    pub args: Vec<String>,
}

impl View for CommandLine {
    type V = Seq<Seq<char>>;

    open spec fn view(&self) -> Seq<Seq<char>> {
        seq![self.program@] + self.args@.map_values(|a: String| a@)
    }
}

/// The command's tokens joined by single spaces, used as error context.
pub open spec fn render_tokens(ts: Seq<Seq<char>>) -> Seq<char>
    decreases ts.len(),
{
    if ts.len() == 0 {
        Seq::empty()
    } else if ts.len() == 1 {
        ts[0]
    } else {
        render_tokens(ts.drop_last()) + seq![' '] + ts.last()
    }
}

/// Joins a command's tokens with spaces for display in an error.
pub fn render(cmd: &CommandLine) -> (r: String)
    ensures
        r@ == render_tokens(cmd@),
{
    let mut out = String::from_str(cmd.program.as_str());
    assert(cmd@.take(1) =~= seq![cmd.program@]);
    let mut i: usize = 0;
    while i < cmd.args.len()
        invariant
            0 <= i <= cmd.args.len(),
            cmd@.len() == 1 + cmd.args.len(),
            out@ == render_tokens(cmd@.take(1 + i)),
        decreases cmd.args.len() - i,
    {
        out.append(" ");
        out.append(cmd.args[i].as_str());
        proof {
            reveal_strlit(" ");
            let ts = cmd@;
            assert(ts.take(2 + i).drop_last() =~= ts.take(1 + i));
            assert(ts.take(2 + i).last() == ts[1 + i]);
            assert(ts[1 + i] == cmd.args@[i as int]@);
        }
        i = i + 1;
    }
    assert(cmd@.take(1 + cmd.args.len()) =~= cmd@);
    out
}

/// What the surrounding binary observed of one spawned command: either the
/// child ran to completion with captured output, or it could not be spawned
/// or awaited at all.
#[derive(Debug)]
pub enum SpawnOutcome {
    Finished { exit_code: i32, stdout: String, stderr: String },
    SpawnFailed { cause: String },
}

/// A successfully completed external command: captured output and exit status.
#[derive(Debug)]
pub struct ExecutionResult {
    pub stdout: String,
    pub stderr: String,
    pub exit_code: i32,
}

/// A failed external command: either the program never ran, or it ran and
/// reported a non-zero exit status, with its output captured for diagnosis.
#[derive(Debug)]
pub enum ExecError {
    Spawn { command: String, cause: String },
    NonZeroExit { command: String, exit_code: i32, stdout: String, stderr: String },
}

/// How an observed outcome of `cmd_text` must be classified: a spawn failure
/// and a non-zero exit each map to the matching error with the command text
/// and captured output attached; exit zero succeeds with the output kept.
pub open spec fn classify_spec(
    cmd_text: Seq<char>,
    outcome: SpawnOutcome,
    r: Result<ExecutionResult, ExecError>,
) -> bool {
    match outcome {
        SpawnOutcome::SpawnFailed { cause } => match r {
            Err(ExecError::Spawn { command, cause: why }) => {
                command@ == cmd_text && why@ == cause@
            },
            _ => false,
        },
        SpawnOutcome::Finished { exit_code, stdout, stderr } => {
            if exit_code == 0 {
                match r {
                    Ok(res) => res.stdout@ == stdout@ && res.stderr@ == stderr@
                        && res.exit_code == 0,
                    _ => false,
                }
            } else {
                match r {
                    Err(ExecError::NonZeroExit { command, exit_code: ec, stdout: so, stderr: se }) => {
                        command@ == cmd_text && ec == exit_code && so@ == stdout@ && se@ == stderr@
                    },
                    _ => false,
                }
            }
        },
    }
}

/// Classifies what the binary observed of one spawned command, never
/// inspecting the output's content: exit zero is success, anything else is a
/// structured error carrying the command text and the captured output.
pub fn classify_execution(cmd: &CommandLine, outcome: SpawnOutcome) -> (r: Result<
    ExecutionResult,
    ExecError,
>)
    ensures
        classify_spec(render_tokens(cmd@), outcome, r),
{
    match outcome {
        SpawnOutcome::SpawnFailed { cause } => Err(ExecError::Spawn {
            command: render(cmd),
            cause,
        }),
        SpawnOutcome::Finished { exit_code, stdout, stderr } => {
            if exit_code == 0 {
                Ok(ExecutionResult { stdout, stderr, exit_code: 0 })
            } else {
                Err(ExecError::NonZeroExit { command: render(cmd), exit_code, stdout, stderr })
            }
        },
    }
}

/// The volume backing the nested runtime's storage: the identity plus a
/// fixed suffix.
pub open spec fn volume_name_view(name: Seq<char>) -> Seq<char> {
    name + consts::volume_suffix_view()
}

pub fn volume_name(name: &str) -> (r: String)
    ensures
        r@ == volume_name_view(name@),
{
    let mut v = String::from_str(name);
    v.append(consts::volume_suffix());
    v
}

/// List-by-name filtered by running status: answers non-blank exactly when a
/// resource named `name` exists and is running.
pub open spec fn probe_running_tokens(name: Seq<char>) -> Seq<Seq<char>> {
    seq![
        "docker"@,
        "ps"@,
        "-a"@,
        "-q"@,
        "-f"@,
        "name="@ + name,
        "-f"@,
        "status=running"@,
    ]
}

pub fn probe_running_cmd(name: &str) -> (c: CommandLine)
    ensures
        c@ == probe_running_tokens(name@),
{
    let mut args: Vec<String> = Vec::new();
    args.push(String::from_str("ps"));
    args.push(String::from_str("-a"));
    args.push(String::from_str("-q"));
    args.push(String::from_str("-f"));
    let mut f = String::from_str("name=");
    f.append(name);
    args.push(f);
    args.push(String::from_str("-f"));
    args.push(String::from_str("status=running"));
    let c = CommandLine { program: String::from_str("docker"), args };
    proof {
        assert(c@ =~~= probe_running_tokens(name@));
    }
    c
}

/// Unfiltered list-by-name: answers non-blank exactly when a resource named
/// `name` exists in any state.
pub open spec fn probe_exists_tokens(name: Seq<char>) -> Seq<Seq<char>> {
    seq!["docker"@, "ps"@, "-a"@, "-q"@, "-f"@, "name="@ + name]
}

pub fn probe_exists_cmd(name: &str) -> (c: CommandLine)
    ensures
        c@ == probe_exists_tokens(name@),
{
    let mut args: Vec<String> = Vec::new();
    args.push(String::from_str("ps"));
    args.push(String::from_str("-a"));
    args.push(String::from_str("-q"));
    args.push(String::from_str("-f"));
    let mut f = String::from_str("name=");
    f.append(name);
    args.push(f);
    let c = CommandLine { program: String::from_str("docker"), args };
    proof {
        assert(c@ =~~= probe_exists_tokens(name@));
    }
    c
}

/// Inspect of the container's detailed status field.
pub open spec fn inspect_tokens(name: Seq<char>) -> Seq<Seq<char>> {
    seq!["docker"@, "inspect"@, "-f"@, "{{.State.Status}}"@, name]
}

pub fn inspect_cmd(name: &str) -> (c: CommandLine)
    ensures
        c@ == inspect_tokens(name@),
{
    let mut args: Vec<String> = Vec::new();
    args.push(String::from_str("inspect"));
    args.push(String::from_str("-f"));
    args.push(String::from_str("{{.State.Status}}"));
    args.push(String::from_str(name));
    let c = CommandLine { program: String::from_str("docker"), args };
    proof {
        assert(c@ =~~= inspect_tokens(name@));
    }
    c
}

/// Image build from standard input, tagged with the identity.
pub open spec fn build_tokens(name: Seq<char>) -> Seq<Seq<char>> {
    seq!["docker"@, "build"@, "-o"@, "plain"@, "-t"@, name, "-"@]
}

pub fn build_cmd(name: &str) -> (c: CommandLine)
    ensures
        c@ == build_tokens(name@),
{
    let mut args: Vec<String> = Vec::new();
    args.push(String::from_str("build"));
    args.push(String::from_str("-o"));
    args.push(String::from_str("plain"));
    args.push(String::from_str("-t"));
    args.push(String::from_str(name));
    args.push(String::from_str("-"));
    let c = CommandLine { program: String::from_str("docker"), args };
    proof {
        assert(c@ =~~= build_tokens(name@));
    }
    c
}

/// Creation of the named volume backing the nested runtime's storage.
pub open spec fn volume_create_tokens(name: Seq<char>) -> Seq<Seq<char>> {
    seq!["docker"@, "volume"@, "create"@, volume_name_view(name)]
}

pub fn volume_create_cmd(name: &str) -> (c: CommandLine)
    ensures
        c@ == volume_create_tokens(name@),
{
    let mut args: Vec<String> = Vec::new();
    args.push(String::from_str("volume"));
    args.push(String::from_str("create"));
    args.push(volume_name(name));
    let c = CommandLine { program: String::from_str("docker"), args };
    proof {
        assert(c@ =~~= volume_create_tokens(name@));
    }
    c
}

/// Start of the cluster container: privileged, detached, restarted unless
/// stopped, with the working directory mounted read-only, the named volume at
/// the nested runtime's storage path, and the host data directory at the
/// in-container data path.
pub open spec fn run_tokens(name: Seq<char>, cwd: Seq<char>) -> Seq<Seq<char>> {
    seq![
        "docker"@,
        "run"@,
        "--name"@,
        name,
        "--privileged"@,
        "--detach"@,
        "--restart"@,
        "unless-stopped"@,
        "-v"@,
        cwd + ":"@ + consts::host_work_dir_mount_view() + ":ro"@,
        "-v"@,
        volume_name_view(name) + ":"@ + consts::docker_dir_view(),
        "-v"@,
        cwd + "/"@ + consts::data_dir_view() + ":"@ + consts::container_data_dir_view(),
        name,
    ]
}

pub fn run_container_cmd(name: &str, cwd: &str) -> (c: CommandLine)
    ensures
        c@ == run_tokens(name@, cwd@),
{
    let mut args: Vec<String> = Vec::new();
    args.push(String::from_str("run"));
    args.push(String::from_str("--name"));
    args.push(String::from_str(name));
    args.push(String::from_str("--privileged"));
    args.push(String::from_str("--detach"));
    args.push(String::from_str("--restart"));
    args.push(String::from_str("unless-stopped"));
    args.push(String::from_str("-v"));
    let mut work_mount = String::from_str(cwd);
    work_mount.append(":");
    work_mount.append(consts::host_work_dir_mount());
    work_mount.append(":ro");
    args.push(work_mount);
    args.push(String::from_str("-v"));
    let mut volume_mount = volume_name(name);
    volume_mount.append(":");
    volume_mount.append(consts::docker_dir());
    args.push(volume_mount);
    args.push(String::from_str("-v"));
    let mut data_mount = String::from_str(cwd);
    data_mount.append("/");
    data_mount.append(consts::data_dir());
    data_mount.append(":");
    data_mount.append(consts::container_data_dir());
    args.push(data_mount);
    args.push(String::from_str(name));
    let c = CommandLine { program: String::from_str("docker"), args };
    proof {
        assert(c@ =~~= run_tokens(name@, cwd@));
    }
    c
}

/// Forced removal of the cluster container.
pub open spec fn rm_container_tokens(name: Seq<char>) -> Seq<Seq<char>> {
    seq!["docker"@, "rm"@, "--force"@, name]
}

pub fn rm_container_cmd(name: &str) -> (c: CommandLine)
    ensures
        c@ == rm_container_tokens(name@),
{
    let mut args: Vec<String> = Vec::new();
    args.push(String::from_str("rm"));
    args.push(String::from_str("--force"));
    args.push(String::from_str(name));
    let c = CommandLine { program: String::from_str("docker"), args };
    proof {
        assert(c@ =~~= rm_container_tokens(name@));
    }
    c
}

/// Removal of the backing volume.
pub open spec fn volume_rm_tokens(name: Seq<char>) -> Seq<Seq<char>> {
    seq!["docker"@, "volume"@, "rm"@, volume_name_view(name)]
}

pub fn volume_rm_cmd(name: &str) -> (c: CommandLine)
    ensures
        c@ == volume_rm_tokens(name@),
{
    let mut args: Vec<String> = Vec::new();
    args.push(String::from_str("volume"));
    args.push(String::from_str("rm"));
    args.push(volume_name(name));
    let c = CommandLine { program: String::from_str("docker"), args };
    proof {
        assert(c@ =~~= volume_rm_tokens(name@));
    }
    c
}

/// Removal of the built image.
pub open spec fn image_rm_tokens(name: Seq<char>) -> Seq<Seq<char>> {
    seq!["docker"@, "image"@, "rm"@, name]
}

pub fn image_rm_cmd(name: &str) -> (c: CommandLine)
    ensures
        c@ == image_rm_tokens(name@),
{
    let mut args: Vec<String> = Vec::new();
    args.push(String::from_str("image"));
    args.push(String::from_str("rm"));
    args.push(String::from_str(name));
    let c = CommandLine { program: String::from_str("docker"), args };
    proof {
        assert(c@ =~~= image_rm_tokens(name@));
    }
    c
}

} // verus!
