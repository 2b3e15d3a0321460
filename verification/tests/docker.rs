use std::path::PathBuf;
use tusklet::docker::{
    append_capped, command_outcome, create_args, default_executable, docker_candidates,
    owner_matches, parse_states, redact, remove_args, Backup, BackupReply, BackupRequest,
    BackupStage, timeout_secs,
    restore_args, row_lines_of, states_args, ContainerRow, ContainerStates, Docker, DockerError,
    Lifecycle, Operation, Purpose, Reply, Request, Stage, OUTPUT_LIMIT,
};
use tusklet::model::{ContainerState, Database, DatabaseConfig};

fn strings(args: &[&str]) -> Vec<String> {
    args.iter().map(|s| (*s).into()).collect()
}

fn test_db() -> Database {
    Database {
        id: "test-id".into(),
        project_id: "p".into(),
        config: DatabaseConfig {
            name: "Test".into(),
            command: "-c wal_level=logical".into(),
            ..Default::default()
        },
        password: "test-only-secret".into(),
        port: 5437,
    }
}

fn row(names: &str, state: &str, status: &str) -> ContainerRow {
    ContainerRow {
        names: names.into(),
        state: state.into(),
        status: status.into(),
    }
}

#[test]
fn container_uses_localhost_persistent_volume_and_never_exposes_password_in_args() {
    let db = test_db();
    let args = create_args(&db).unwrap();
    assert!(args.contains(&"127.0.0.1:5437:5432".into()));
    assert!(args.contains(&"PGDATA=/var/lib/postgresql/tusklet".into()));
    assert!(args.contains(&"--pull=never".into()));
    assert!(args.iter().all(|arg| !arg.contains(&db.password)));
    assert!(args.ends_with(&strings(&[
        "postgres:18",
        "postgres",
        "-c",
        "wal_level=logical"
    ])));
}

#[test]
fn distinguishes_health_and_external_stops() {
    let docker = Docker::with_executable(PathBuf::from("docker"));
    let states = docker.states(vec![
        row("a", "running", "Up (health: starting)"),
        row("b", "exited", "Exited"),
        row("c", "running", "Up (unhealthy)"),
    ]);
    assert_eq!(states.get("a"), Some(ContainerState::Starting));
    assert_eq!(states.get("b"), Some(ContainerState::Stopped));
    assert_eq!(states.get("c"), Some(ContainerState::Unhealthy));
    // Every non-blank line is handed on as a row to decode; a line that is
    // not JSON is refused where the rows are decoded, with this error.
    assert_eq!(row_lines_of("garbage"), vec!["garbage".to_string()]);
    let refused = serde_json::from_str::<serde_json::Value>("garbage").unwrap_err();
    assert!(DockerError::UnexpectedResponse(refused.to_string())
        .message()
        .starts_with("Unexpected response from Docker.: "));
}

#[test]
fn create_failures_show_only_the_first_line_of_a_launch_failure() {
    let docker = Docker::with_executable(PathBuf::from("docker"));
    let (op, _) = docker.start(test_db(), false);
    let (op, _) = op.advance(Reply::States(Ok(ContainerStates::new())));
    let (op, _) = op.advance(Reply::Images(Ok(vec!["18".into()])));
    let (_, request) = op.advance(Reply::Output(Err(DockerError::Launch(
        "No such file or directory (os error 2)".into(),
    ))));
    match request {
        Request::Finished(Err(e)) => assert_eq!(
            e.message(),
            "Could not launch Docker. Install Docker Desktop or Docker Engine and make sure the docker CLI is available."
        ),
        _ => panic!("expected a failure"),
    }
}

#[test]
fn classifies_every_docker_state() {
    let states = parse_states(vec![
        row("running", "running", "Up 3 minutes (healthy)"),
        row("restarting", "restarting", "Restarting"),
        row("created", "created", "Created"),
        row("dead", "dead", "Dead"),
        row("paused", "paused", "Up (Paused)"),
        row("twice", "exited", "Exited"),
        row("twice", "running", "Up"),
    ]);
    assert_eq!(states.get("running"), Some(ContainerState::Running));
    assert_eq!(states.get("restarting"), Some(ContainerState::Starting));
    assert_eq!(states.get("created"), Some(ContainerState::Stopped));
    assert_eq!(states.get("dead"), Some(ContainerState::Stopped));
    assert_eq!(states.get("paused"), Some(ContainerState::Unknown));
    assert_eq!(states.get("twice"), Some(ContainerState::Running));
    assert_eq!(states.get("missing"), None);
    assert_eq!(ContainerStates::new().get("a"), None);
}

#[test]
fn skips_blank_lines_of_docker_ps() {
    assert_eq!(
        row_lines_of("{\"a\":1}\r\n  \n\n{\"b\":2}\n"),
        vec!["{\"a\":1}".to_string(), "{\"b\":2}".to_string()]
    );
    assert!(row_lines_of("").is_empty());
    assert_eq!(states_args(), strings(&[
        "ps",
        "--all",
        "--filter",
        "label=dev.tusklet.managed=true",
        "--format",
        "{{json .}}"
    ]));
}

#[test]
fn lists_sorted_unique_postgres_tags_only() {
    let docker = Docker::with_executable(PathBuf::from("docker"));
    let output = "postgres:18\nredis:7\npostgres:17-alpine\npostgres:<none>\npostgres:18\r\nmypostgres:1\npostgres:10\n";
    assert_eq!(
        docker.local_images(output),
        strings(&["10", "17-alpine", "18"])
    );
    assert!(docker.local_images("").is_empty());
}

#[test]
fn failed_commands_quote_stderr_or_stdout() {
    assert_eq!(
        command_outcome(false, " out \n".into(), "  \n".into()),
        Err(DockerError::Failed("out".into()))
    );
    assert_eq!(
        command_outcome(false, "out".into(), "\n bad thing \n".into()),
        Err(DockerError::Failed("bad thing".into()))
    );
    assert_eq!(
        command_outcome(true, "out\n".into(), "warn\n".into()),
        Ok("out\nwarn\n".to_string())
    );
    assert_eq!(
        DockerError::Failed("bad".into()).message(),
        "Docker operation failed: bad"
    );
}

#[test]
fn retained_output_keeps_the_latest_bytes() {
    let mut output = vec![1u8; 10];
    append_capped(&mut output, &[2, 3]);
    assert_eq!(output.len(), 12);
    let mut full = vec![0u8; OUTPUT_LIMIT - 1];
    append_capped(&mut full, &[7, 8, 9]);
    assert_eq!(full.len(), OUTPUT_LIMIT);
    assert_eq!(&full[OUTPUT_LIMIT - 3..], &[7, 8, 9]);
    assert_eq!(full[0], 0);
}

#[test]
fn redaction_replaces_every_occurrence() {
    assert_eq!(
        redact("failed: secret and secret", "secret"),
        "failed: [redacted] and [redacted]"
    );
    assert_eq!(redact("aaa", "aa"), "[redacted]a");
    assert_eq!(redact("ab", ""), "[redacted]a[redacted]b[redacted]");
    assert_eq!(redact("nothing here", "secret"), "nothing here");
}

#[test]
fn ownership_is_the_trimmed_label() {
    let db = test_db();
    assert!(owner_matches("test-id\n", &db));
    assert!(!owner_matches("other\n", &db));
    assert!(!owner_matches("", &db));
}

#[test]
fn restores_pick_the_tool_by_header() {
    let db = test_db();
    let custom = restore_args(&db, b"PGDMP").unwrap();
    assert_eq!(custom[3], "pg_restore");
    assert!(custom.contains(&"--single-transaction".to_string()));
    let plain = restore_args(&db, b"INSER").unwrap();
    assert_eq!(plain[3], "psql");
    assert!(plain.contains(&"ON_ERROR_STOP=1".to_string()));
    let short = restore_args(&db, b"PG").unwrap();
    assert_eq!(short[3], "psql");
    assert_eq!(restore_args(&db, b""), Err(DockerError::EmptyBackup));
}

fn run_args(request: &Request) -> (Purpose, Vec<String>) {
    match request {
        Request::Run(call) => (call.purpose, call.args.clone()),
        _ => panic!("expected a command"),
    }
}

#[test]
fn offline_start_without_cached_image_is_refused() {
    let docker = Docker::with_executable(PathBuf::from("docker"));
    let (op, request) = docker.start(test_db(), false);
    assert!(matches!(request, Request::ListStates));
    let (op, request) = op.advance(Reply::States(Ok(ContainerStates::new())));
    assert!(matches!(request, Request::ListImages));
    let (op, request) = op.advance(Reply::Images(Ok(vec!["17".into()])));
    assert_eq!(op.stage, Stage::Done);
    match request {
        Request::Finished(Err(e)) => assert_eq!(
            e.message(),
            "Image postgres:18 is not available locally. Turn off offline mode to download it."
        ),
        _ => panic!("expected a refusal"),
    }
}

#[test]
fn online_start_pulls_creates_checks_owner_and_starts() {
    let docker = Docker::with_executable(PathBuf::from("docker"));
    let (op, _) = docker.start(test_db(), true);
    let (op, _) = op.advance(Reply::States(Ok(ContainerStates::new())));
    let (op, request) = op.advance(Reply::Images(Ok(vec![])));
    assert_eq!(run_args(&request), (Purpose::Pull, strings(&["pull", "postgres:18"])));
    let (op, request) = op.advance(Reply::Output(Ok(String::new())));
    match &request {
        Request::Run(call) => {
            assert_eq!(call.purpose, Purpose::Create);
            assert!(call.with_password);
            assert!(!call.transfer);
        }
        _ => panic!("expected create"),
    }
    let (op, request) = op.advance(Reply::Output(Ok(String::new())));
    assert_eq!(run_args(&request).0, Purpose::Inspect);
    let (op, request) = op.advance(Reply::Output(Ok("test-id\n".into())));
    assert_eq!(run_args(&request), (Purpose::Start, strings(&["start", "tusklet-test-id"])));
    let (op, request) = op.advance(Reply::Output(Ok("tusklet-test-id\n".into())));
    assert_eq!(op.stage, Stage::Done);
    assert!(matches!(request, Request::Finished(Ok(()))));
}

#[test]
fn create_failures_hide_the_password() {
    let docker = Docker::with_executable(PathBuf::from("docker"));
    let (op, _) = docker.start(test_db(), false);
    let (op, _) = op.advance(Reply::States(Ok(ContainerStates::new())));
    let (op, _) = op.advance(Reply::Images(Ok(vec!["18".into()])));
    let (_, request) = op.advance(Reply::Output(Err(DockerError::Failed(
        "bad value test-only-secret".into(),
    ))));
    match request {
        Request::Finished(Err(e)) => assert_eq!(
            e.message(),
            "Docker operation failed: bad value [redacted]"
        ),
        _ => panic!("expected a failure"),
    }
}

#[test]
fn starting_a_running_container_does_nothing() {
    let docker = Docker::with_executable(PathBuf::from("docker"));
    let (op, _) = docker.start(test_db(), false);
    let mut states = ContainerStates::new();
    states.insert("tusklet-test-id".into(), ContainerState::Running);
    let (_, request) = op.advance(Reply::States(Ok(states)));
    assert!(matches!(request, Request::Finished(Ok(()))));
}

#[test]
fn removal_refuses_active_and_foreign_containers() {
    let docker = Docker::with_executable(PathBuf::from("docker"));
    let (op, _) = docker.remove_container(test_db());
    let mut states = ContainerStates::new();
    states.insert("tusklet-test-id".into(), ContainerState::Unhealthy);
    let (_, request) = op.advance(Reply::States(Ok(states)));
    assert!(matches!(request, Request::Finished(Err(DockerError::StopFirst))));

    let (op, _) = docker.remove_container(test_db());
    let mut states = ContainerStates::new();
    states.insert("tusklet-test-id".into(), ContainerState::Stopped);
    let (op, request) = op.advance(Reply::States(Ok(states)));
    assert_eq!(run_args(&request).0, Purpose::Inspect);
    let (_, request) = op.advance(Reply::Output(Ok("someone-else".into())));
    assert!(matches!(request, Request::Finished(Err(DockerError::NotOwned))));

    let (op, _) = docker.remove_container(test_db());
    let (_, request) = op.advance(Reply::States(Ok(ContainerStates::new())));
    assert!(matches!(request, Request::Finished(Ok(()))));
}

#[test]
fn stopping_checks_ownership_first() {
    let docker = Docker::with_executable(PathBuf::from("docker"));
    let (op, request) = docker.stop(test_db());
    assert_eq!(run_args(&request).0, Purpose::Inspect);
    let (op, request) = op.advance(Reply::Output(Ok(" test-id ".into())));
    assert_eq!(
        run_args(&request),
        (Purpose::Stop, strings(&["stop", "--time", "10", "tusklet-test-id"]))
    );
    let (_, request) = op.advance(Reply::Output(Err(DockerError::TimedOut)));
    assert!(matches!(request, Request::Finished(Err(DockerError::TimedOut))));
    assert_eq!(
        docker.logs(&test_db()),
        strings(&["logs", "--tail", "400", "--timestamps", "tusklet-test-id"])
    );
    let (op, _) = Operation::begin(test_db(), Lifecycle::Remove);
    assert_eq!(op.stage, Stage::States);
}

#[test]
fn cached_images_start_without_a_pull() {
    let docker = Docker::with_executable(PathBuf::from("docker"));
    let (op, _) = docker.start(test_db(), true);
    let (op, _) = op.advance(Reply::States(Ok(ContainerStates::new())));
    let (_, request) = op.advance(Reply::Images(Ok(vec!["17".into(), "18".into()])));
    assert_eq!(run_args(&request).0, Purpose::Create);
}

#[test]
fn removal_arguments_keep_the_named_volume() {
    let args = remove_args(&test_db());
    assert_eq!(args, strings(&["rm", "--volumes", "tusklet-test-id"]));
    assert!(!args.contains(&test_db().volume_name()));
}

#[test]
fn redacted_output_never_holds_a_generated_password() {
    let secret = "0123456789abcdef0123456789abcdef";
    let text = format!("{secret}{secret}x{secret}");
    let hidden = redact(&text, secret);
    assert_eq!(hidden, "[redacted][redacted]x[redacted]");
    assert!(!hidden.contains(secret));
}

#[test]
fn the_default_cli_is_found_where_it_is_installed() {
    assert_eq!(default_executable(false, &vec![true, true, true]), "docker");
    assert_eq!(
        default_executable(true, &vec![false, true, true]),
        "/opt/homebrew/bin/docker"
    );
    assert_eq!(default_executable(true, &vec![false, false, false]), "docker");
    assert_eq!(default_executable(true, &vec![]), "docker");
    assert_eq!(docker_candidates()[0], "/usr/local/bin/docker");
}

#[test]
fn exports_check_ownership_and_the_destination_first() {
    let docker = Docker::with_executable(PathBuf::from("docker"));
    let (backup, request) = docker.dump(test_db());
    match &request {
        BackupRequest::Inspect(args) => assert_eq!(args.last().unwrap(), "tusklet-test-id"),
        _ => panic!("expected the owner check"),
    }
    let (backup, request) = backup.advance(BackupReply::Output(Ok("test-id\n".into())));
    assert!(matches!(request, BackupRequest::CheckDestination));
    let (refused, request) = Backup {
        db: backup.db.clone(),
        kind: backup.kind,
        stage: backup.stage,
    }
    .advance(BackupReply::Exists(true));
    assert_eq!(refused.stage, BackupStage::Done);
    match request {
        BackupRequest::Finished(Err(e)) => {
            assert_eq!(e.message(), "That file already exists. Choose a new filename.")
        }
        _ => panic!("expected a refusal"),
    }
    let (backup, request) = backup.advance(BackupReply::Exists(false));
    match &request {
        BackupRequest::Write(args) => assert_eq!(
            args,
            &strings(&[
                "exec",
                "tusklet-test-id",
                "pg_dump",
                "--format=custom",
                "--no-owner",
                "--no-privileges",
                "-U",
                "postgres",
                "--dbname",
                "postgres",
            ])
        ),
        _ => panic!("expected pg_dump"),
    }
    let (backup, request) = backup.advance(BackupReply::Output(Ok(String::new())));
    assert!(matches!(request, BackupRequest::Publish));
    let (_, request) = backup.advance(BackupReply::Output(Ok(String::new())));
    assert!(matches!(request, BackupRequest::Finished(Ok(()))));
}

#[test]
fn restores_refuse_foreign_containers_and_empty_files() {
    let docker = Docker::with_executable(PathBuf::from("docker"));
    let (backup, _) = docker.restore(test_db());
    let (_, request) = backup.advance(BackupReply::Output(Ok("other".into())));
    assert!(matches!(request, BackupRequest::Finished(Err(DockerError::NotOwned))));
    let (backup, _) = docker.restore(test_db());
    let (backup, request) = backup.advance(BackupReply::Output(Ok("test-id".into())));
    assert!(matches!(request, BackupRequest::ReadHeader));
    let (_, request) = Backup {
        db: backup.db.clone(),
        kind: backup.kind,
        stage: backup.stage,
    }
    .advance(BackupReply::Header(Ok(vec![])));
    assert!(matches!(request, BackupRequest::Finished(Err(DockerError::EmptyBackup))));
    let (backup, request) = backup.advance(BackupReply::Header(Ok(b"PGDMP".to_vec())));
    match &request {
        BackupRequest::Feed(args) => assert_eq!(args[3], "pg_restore"),
        _ => panic!("expected pg_restore"),
    }
    let (_, request) = backup.advance(BackupReply::Output(Ok(String::new())));
    assert!(matches!(request, BackupRequest::Finished(Ok(()))));
}

#[test]
fn transfers_get_the_long_time_limit() {
    assert_eq!(timeout_secs(false), 20);
    assert_eq!(timeout_secs(true), 30 * 60);
}

#[test]
fn capping_chunk_by_chunk_keeps_the_latest_bytes_of_everything() {
    let all: Vec<u8> = (0..(OUTPUT_LIMIT + 5000)).map(|i| (i % 251) as u8).collect();
    let mut kept = Vec::new();
    for chunk in all.chunks(8192) {
        append_capped(&mut kept, chunk);
    }
    assert_eq!(kept.len(), OUTPUT_LIMIT);
    assert_eq!(&kept[..], &all[all.len() - OUTPUT_LIMIT..]);
}
