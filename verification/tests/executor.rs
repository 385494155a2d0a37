use k3scontainer::command::{
    build_cmd, classify_execution, image_rm_cmd, inspect_cmd, probe_exists_cmd, probe_running_cmd,
    render, rm_container_cmd, run_container_cmd, volume_create_cmd, volume_name, volume_rm_cmd,
    ExecError, SpawnOutcome,
};
use k3scontainer::probe::{classify_probes, ProvisioningState};
use k3scontainer::text::{first_line, output_is_blank, trim_end};

#[test]
fn commands_are_rendered_as_their_joined_tokens() {
    let cmd = probe_running_cmd("k3scontainer-x");
    assert_eq!(
        render(&cmd),
        "docker ps -a -q -f name=k3scontainer-x -f status=running"
    );
    let cmd = run_container_cmd("k3scontainer-x", "/work dir");
    // An argument holding a space stays one token; no re-splitting happens.
    assert!(cmd.args.contains(&"/work dir:/k3scontainer/hwdm:ro".to_string()));
}

#[test]
fn command_builders_name_every_resource_from_the_identity() {
    assert_eq!(volume_name("n"), "n-docker-dir-volume");
    assert_eq!(probe_exists_cmd("n").args.last().unwrap(), "name=n");
    assert_eq!(inspect_cmd("n").args, vec!["inspect", "-f", "{{.State.Status}}", "n"]);
    assert_eq!(build_cmd("n").args, vec!["build", "-o", "plain", "-t", "n", "-"]);
    assert_eq!(volume_create_cmd("n").args, vec!["volume", "create", "n-docker-dir-volume"]);
    assert_eq!(rm_container_cmd("n").args, vec!["rm", "--force", "n"]);
    assert_eq!(volume_rm_cmd("n").args, vec!["volume", "rm", "n-docker-dir-volume"]);
    assert_eq!(image_rm_cmd("n").args, vec!["image", "rm", "n"]);
}

#[test]
fn classification_keeps_output_and_exit_status() {
    let cmd = probe_running_cmd("n");
    let ok = classify_execution(
        &cmd,
        SpawnOutcome::Finished {
            exit_code: 0,
            stdout: "id\n".to_string(),
            stderr: "warn\n".to_string(),
        },
    )
    .unwrap();
    assert_eq!(ok.stdout, "id\n");
    assert_eq!(ok.stderr, "warn\n");
    assert_eq!(ok.exit_code, 0);

    let err = classify_execution(
        &cmd,
        SpawnOutcome::Finished {
            exit_code: 125,
            stdout: "".to_string(),
            stderr: "daemon not reachable".to_string(),
        },
    )
    .unwrap_err();
    match err {
        ExecError::NonZeroExit { command, exit_code, stdout, stderr } => {
            assert_eq!(command, "docker ps -a -q -f name=n -f status=running");
            assert_eq!(exit_code, 125);
            assert_eq!(stdout, "");
            assert_eq!(stderr, "daemon not reachable");
        }
        other => panic!("expected a non-zero-exit error, got {:?}", other),
    }

    let err = classify_execution(
        &cmd,
        SpawnOutcome::SpawnFailed { cause: "not found".to_string() },
    )
    .unwrap_err();
    match err {
        ExecError::Spawn { command, cause } => {
            assert_eq!(command, "docker ps -a -q -f name=n -f status=running");
            assert_eq!(cause, "not found");
        }
        other => panic!("expected a spawn error, got {:?}", other),
    }
}

#[test]
fn probe_outputs_classify_the_container_state() {
    assert!(matches!(classify_probes("abc123\n", "", ""), ProvisioningState::Running));
    match classify_probes(" \n", "abc123\n", "exited\n") {
        ProvisioningState::ExistsNotRunning { state } => assert_eq!(state, "exited"),
        other => panic!("expected the stopped classification, got {:?}", other),
    }
    assert!(matches!(classify_probes("", "", ""), ProvisioningState::NotCreated));
    assert!(matches!(classify_probes("\n\t ", " ", "x"), ProvisioningState::NotCreated));
}

#[test]
fn text_helpers_handle_edges() {
    assert_eq!(first_line(""), "");
    assert_eq!(first_line("a"), "a");
    assert_eq!(first_line("a\nb\nc"), "a");
    assert_eq!(first_line("a\r\nb"), "a");
    assert_eq!(first_line("\nx"), "");
    assert!(output_is_blank(""));
    assert!(output_is_blank(" \t\r\n"));
    assert!(!output_is_blank(" x "));
    assert_eq!(trim_end("exited\n"), "exited");
    assert_eq!(trim_end("running \t\n"), "running");
    assert_eq!(trim_end(""), "");
    assert_eq!(trim_end(" \n"), "");
    assert_eq!(trim_end("a b"), "a b");
}
