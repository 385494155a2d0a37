use k3scontainer::command::{CommandLine, SpawnOutcome};
use k3scontainer::error::Error;
use k3scontainer::ops;
use k3scontainer::orchestrator::{Action, Event, Orchestrator, Step};

fn strs(v: &[&str]) -> Vec<String> {
    v.iter().map(|s| s.to_string()).collect()
}

fn expect_continue(s: Step) -> Action {
    match s {
        Step::Continue(a) => a,
        other => panic!("expected a next action, got {:?}", other),
    }
}

fn expect_exec(s: Step) -> (CommandLine, String) {
    match expect_continue(s) {
        Action::Exec { cmd, input } => (cmd, input),
        other => panic!("expected a command, got {:?}", other),
    }
}

fn finished(exit_code: i32, stdout: &str, stderr: &str) -> Event {
    Event::CommandFinished {
        outcome: SpawnOutcome::Finished {
            exit_code,
            stdout: stdout.to_string(),
            stderr: stderr.to_string(),
        },
    }
}

fn drive_to_name_written(m: &mut Orchestrator) -> String {
    let r = m.step(Event::DirCreated { result: Ok(()) });
    match expect_continue(r) {
        Action::ReadFile { path } => assert_eq!(path, ".k3scontainer/name"),
        other => panic!("expected the identity read, got {:?}", other),
    }
    let r = m.step(Event::FileRead { result: Ok(String::new()) });
    let name = match expect_continue(r) {
        Action::WriteFile { path, content } => {
            assert_eq!(path, ".k3scontainer/name");
            assert!(content.ends_with('\n'));
            content.trim_end().to_string()
        }
        other => panic!("expected the identity write, got {:?}", other),
    };
    assert_eq!(name.len(), "k3scontainer-".len() + 16);
    assert!(name.starts_with("k3scontainer-"));
    name
}

#[test]
fn provision_fresh_scenario() {
    let (mut m, first) = ops::provision("/tmp/wd".to_string());
    match first {
        Action::CreateStateDir { path } => assert_eq!(path, ".k3scontainer"),
        other => panic!("expected the state-directory creation, got {:?}", other),
    }
    let name = drive_to_name_written(&mut m);

    // Probe: nothing exists yet.
    let r = m.step(Event::FileWritten { result: Ok(()) });
    let (cmd, input) = expect_exec(r);
    assert_eq!(cmd.program, "docker");
    assert_eq!(
        cmd.args,
        strs(&["ps", "-a", "-q", "-f", &format!("name={}", name), "-f", "status=running"])
    );
    assert_eq!(input, "");

    let r = m.step(finished(0, "", ""));
    let (cmd, _) = expect_exec(r);
    assert_eq!(cmd.args, strs(&["ps", "-a", "-q", "-f", &format!("name={}", name)]));

    // Absent: read the build spec, seed it, and create everything in order.
    let r = m.step(finished(0, "", ""));
    match expect_continue(r) {
        Action::ReadFile { path } => assert_eq!(path, ".k3scontainer/Dockerfile"),
        other => panic!("expected the build-spec read, got {:?}", other),
    }

    let r = m.step(Event::FileRead { result: Ok(String::new()) });
    let default_spec = match expect_continue(r) {
        Action::WriteFile { path, content } => {
            assert_eq!(path, ".k3scontainer/Dockerfile");
            assert!(!content.is_empty());
            content
        }
        other => panic!("expected the build-spec seed write, got {:?}", other),
    };

    let r = m.step(Event::FileWritten { result: Ok(()) });
    let (cmd, input) = expect_exec(r);
    assert_eq!(cmd.args, strs(&["build", "-o", "plain", "-t", &name, "-"]));
    assert_eq!(input, default_spec);

    let r = m.step(finished(0, "", ""));
    let (cmd, _) = expect_exec(r);
    assert_eq!(
        cmd.args,
        strs(&["volume", "create", &format!("{}-docker-dir-volume", name)])
    );

    let r = m.step(finished(0, "", ""));
    let (cmd, _) = expect_exec(r);
    assert_eq!(
        cmd.args,
        strs(&[
            "run",
            "--name",
            &name,
            "--privileged",
            "--detach",
            "--restart",
            "unless-stopped",
            "-v",
            "/tmp/wd:/k3scontainer/hwdm:ro",
            "-v",
            &format!("{}-docker-dir-volume:/var/lib/docker", name),
            "-v",
            "/tmp/wd/.k3scontainer/data:/k3scontainer/data",
            &name,
        ])
    );

    let r = m.step(finished(0, "", ""));
    assert!(matches!(r, Step::Done));
}

#[test]
fn provision_second_call_is_probe_only() {
    let (mut m, _) = ops::provision("/tmp/wd".to_string());
    let r = m.step(Event::DirCreated { result: Ok(()) });
    expect_continue(r);
    // The identity file already holds a token: it is reused, not rewritten.
    let r = m.step(Event::FileRead {
        result: Ok("k3scontainer-0a1b2c3d4e5f6a7b\n".to_string()),
    });
    let (cmd, _) = expect_exec(r);
    assert_eq!(
        cmd.args,
        strs(&[
            "ps",
            "-a",
            "-q",
            "-f",
            "name=k3scontainer-0a1b2c3d4e5f6a7b",
            "-f",
            "status=running",
        ])
    );
    // The runtime reports the container running: terminal success, zero
    // mutating commands issued over the whole run.
    let r = m.step(finished(0, "4f5a6b7c8d9e\n", ""));
    assert!(matches!(r, Step::Done));
}

#[test]
fn provision_existing_stopped_is_terminal_failure() {
    let (mut m, _) = ops::provision("/tmp/wd".to_string());
    m.step(Event::DirCreated { result: Ok(()) });
    m.step(Event::FileRead {
        result: Ok("k3scontainer-0a1b2c3d4e5f6a7b\n".to_string()),
    });
    // Running-filtered probe is blank, unfiltered probe answers.
    let r = m.step(finished(0, "  \n", ""));
    let (cmd, _) = expect_exec(r);
    assert_eq!(cmd.args, strs(&["ps", "-a", "-q", "-f", "name=k3scontainer-0a1b2c3d4e5f6a7b"]));
    let r = m.step(finished(0, "4f5a6b7c8d9e\n", ""));
    let (cmd, _) = expect_exec(r);
    assert_eq!(
        cmd.args,
        strs(&["inspect", "-f", "{{.State.Status}}", "k3scontainer-0a1b2c3d4e5f6a7b"])
    );
    let r = m.step(finished(0, "exited\n", ""));
    match r {
        Step::Failed(Error::ClusterContainerNotInRunningState { state }) => {
            assert_eq!(state, "exited");
        }
        other => panic!("expected the not-running failure, got {:?}", other),
    }
}

#[test]
fn provision_build_failure_aborts_before_volume_and_run() {
    let (mut m, _) = ops::provision("/tmp/wd".to_string());
    m.step(Event::DirCreated { result: Ok(()) });
    m.step(Event::FileRead {
        result: Ok("k3scontainer-0a1b2c3d4e5f6a7b\n".to_string()),
    });
    m.step(finished(0, "", ""));
    m.step(finished(0, "", ""));
    let r = m.step(Event::FileRead { result: Ok("FROM scratch\n".to_string()) });
    let (cmd, input) = expect_exec(r);
    assert_eq!(
        cmd.args,
        strs(&["build", "-o", "plain", "-t", "k3scontainer-0a1b2c3d4e5f6a7b", "-"])
    );
    assert_eq!(input, "FROM scratch\n");
    // The build fails: the run ends here, carrying the captured output.
    let r = m.step(finished(1, "step output", "no such base image"));
    match r {
        Step::Failed(Error::CommandNonZeroExit { cmd, exit_code, stdout, stderr }) => {
            assert_eq!(cmd, "docker build -o plain -t k3scontainer-0a1b2c3d4e5f6a7b -");
            assert_eq!(exit_code, 1);
            assert_eq!(stdout, "step output");
            assert_eq!(stderr, "no such base image");
        }
        other => panic!("expected the non-zero-exit failure, got {:?}", other),
    }
}

#[test]
fn provision_dir_failure_is_fatal() {
    let (mut m, _) = ops::provision("/tmp/wd".to_string());
    let r = m.step(Event::DirCreated { result: Err("permission denied".to_string()) });
    match r {
        Step::Failed(Error::CreateDir { path, cause }) => {
            assert_eq!(path, ".k3scontainer");
            assert_eq!(cause, "permission denied");
        }
        other => panic!("expected the directory failure, got {:?}", other),
    }
}

#[test]
fn provision_identity_io_failure_is_fatal() {
    let (mut m, _) = ops::provision("/tmp/wd".to_string());
    m.step(Event::DirCreated { result: Ok(()) });
    let r = m.step(Event::FileRead { result: Err("read-only file system".to_string()) });
    match r {
        Step::Failed(Error::ClusterNameSaveIo { cause }) => {
            assert_eq!(cause, "read-only file system");
        }
        other => panic!("expected the identity I/O failure, got {:?}", other),
    }
}

#[test]
fn provision_build_spec_io_failure_is_fatal() {
    let (mut m, _) = ops::provision("/tmp/wd".to_string());
    m.step(Event::DirCreated { result: Ok(()) });
    m.step(Event::FileRead {
        result: Ok("k3scontainer-0a1b2c3d4e5f6a7b\n".to_string()),
    });
    m.step(finished(0, "", ""));
    m.step(finished(0, "", ""));
    let r = m.step(Event::FileRead { result: Err("disk failure".to_string()) });
    match r {
        Step::Failed(Error::BuildSpecIo { cause }) => assert_eq!(cause, "disk failure"),
        other => panic!("expected the build-spec I/O failure, got {:?}", other),
    }
}

#[test]
fn provision_probe_spawn_failure_is_fatal() {
    let (mut m, _) = ops::provision("/tmp/wd".to_string());
    m.step(Event::DirCreated { result: Ok(()) });
    m.step(Event::FileRead {
        result: Ok("k3scontainer-0a1b2c3d4e5f6a7b\n".to_string()),
    });
    let r = m.step(Event::CommandFinished {
        outcome: SpawnOutcome::SpawnFailed { cause: "no such binary".to_string() },
    });
    match r {
        Step::Failed(Error::CommandIo { cmd, cause }) => {
            assert_eq!(
                cmd,
                "docker ps -a -q -f name=k3scontainer-0a1b2c3d4e5f6a7b -f status=running"
            );
            assert_eq!(cause, "no such binary");
        }
        other => panic!("expected the spawn failure, got {:?}", other),
    }
}

#[test]
fn remove_without_identity_is_noop() {
    let (mut m, first) = ops::remove();
    match first {
        Action::ReadFile { path } => assert_eq!(path, ".k3scontainer/name"),
        other => panic!("expected the identity read, got {:?}", other),
    }
    // No token persisted: success at once, zero runtime commands issued.
    let r = m.step(Event::FileRead { result: Ok(String::new()) });
    assert!(matches!(r, Step::Done));
}

#[test]
fn remove_tears_down_in_order() {
    let (mut m, _) = ops::remove();
    let r = m.step(Event::FileRead {
        result: Ok("k3scontainer-0a1b2c3d4e5f6a7b\n".to_string()),
    });
    let (cmd, _) = expect_exec(r);
    assert_eq!(cmd.args, strs(&["rm", "--force", "k3scontainer-0a1b2c3d4e5f6a7b"]));
    let r = m.step(finished(0, "", ""));
    let (cmd, _) = expect_exec(r);
    assert_eq!(
        cmd.args,
        strs(&["volume", "rm", "k3scontainer-0a1b2c3d4e5f6a7b-docker-dir-volume"])
    );
    let r = m.step(finished(0, "", ""));
    let (cmd, _) = expect_exec(r);
    assert_eq!(cmd.args, strs(&["image", "rm", "k3scontainer-0a1b2c3d4e5f6a7b"]));
    let r = m.step(finished(0, "", ""));
    assert!(matches!(r, Step::Done));
}

#[test]
fn remove_stops_at_first_failure() {
    let (mut m, _) = ops::remove();
    m.step(Event::FileRead {
        result: Ok("k3scontainer-0a1b2c3d4e5f6a7b\n".to_string()),
    });
    let r = m.step(finished(1, "", "container is locked"));
    match r {
        Step::Failed(Error::CommandNonZeroExit { cmd, exit_code, stderr, .. }) => {
            assert_eq!(cmd, "docker rm --force k3scontainer-0a1b2c3d4e5f6a7b");
            assert_eq!(exit_code, 1);
            assert_eq!(stderr, "container is locked");
        }
        other => panic!("expected the removal failure, got {:?}", other),
    }
}

#[test]
fn remove_identity_io_failure_is_fatal() {
    let (mut m, _) = ops::remove();
    let r = m.step(Event::FileRead { result: Err("bad descriptor".to_string()) });
    match r {
        Step::Failed(Error::ClusterNameIo { cause }) => assert_eq!(cause, "bad descriptor"),
        other => panic!("expected the identity I/O failure, got {:?}", other),
    }
}
