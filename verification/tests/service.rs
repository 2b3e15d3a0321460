use std::path::PathBuf;
use tusklet::docker::{ContainerStates, DockerError};
use tusklet::model::{ContainerState, Database, DatabaseConfig, ModelError, Project, Snapshot};
use tusklet::service::{
    add_images, add_logs, check_requested_port, compose_snapshot, logs_target,
    allocate_port, begin_snapshot, images_listed, port_taken_message, usable_port, Action,
    Answer, Chore, Effect, Event, Notice, PortError, Probe, Refresh, Request, PORT_ATTEMPTS,
    ServiceError, Step, Task, Worker,
};

fn saved(id: &str, port: u16) -> Database {
    Database {
        id: id.into(),
        project_id: "p".into(),
        config: DatabaseConfig {
            name: format!("db {id}"),
            ..Default::default()
        },
        password: "pw".into(),
        port,
    }
}

fn effect(step: &Step) -> &Effect {
    match step {
        Step::Perform(e) => e,
        Step::Complete(_) => panic!("expected an effect"),
    }
}

fn outcome(step: Step) -> Result<(Notice, Option<String>), ServiceError> {
    match step {
        Step::Complete(r) => r,
        Step::Perform(_) => panic!("expected completion"),
    }
}

#[test]
fn creating_a_database_validates_reserves_a_port_and_saves() {
    let config = DatabaseConfig {
        name: "Main".into(),
        reserved_port: Some(5440),
        ..Default::default()
    };
    let (task, step) = Task::begin(Action::CreateDatabase("p".into(), config));
    assert!(matches!(effect(&step), Effect::AllocatedPorts));
    let (task, step) = task.advance(Answer::Ports(Ok(vec![5432])));
    assert!(matches!(effect(&step), Effect::BindPort(5440)));
    let (task, step) = task.advance(Answer::Done(Ok(())));
    match effect(&step) {
        Effect::InsertDatabase(project, config, port) => {
            assert_eq!(project, "p");
            assert_eq!(config.name, "Main");
            assert_eq!(*port, 5440);
        }
        _ => panic!("expected insert"),
    }
    let (_, step) = task.advance(Answer::Id(Ok("new-id".into())));
    let (notice, selection) = outcome(step).unwrap();
    assert_eq!(notice.message(), "Database created. Start it when you're ready.");
    assert_eq!(selection, Some("new-id".into()));
}

#[test]
fn invalid_configurations_never_reach_the_store() {
    let config = DatabaseConfig {
        name: "Main".into(),
        command: "--port=1".into(),
        ..Default::default()
    };
    let (_, step) = Task::begin(Action::CreateDatabase("p".into(), config));
    assert_eq!(
        outcome(step),
        Err(ServiceError::Invalid(ModelError::ManagedSetting("port".into())))
    );
}

#[test]
fn updates_keep_identity_require_stopped_containers_and_keep_ports() {
    let config = DatabaseConfig {
        name: "Renamed".into(),
        ..Default::default()
    };
    let (task, step) = Task::begin(Action::UpdateDatabase("a".into(), config.clone()));
    assert!(matches!(effect(&step), Effect::FindDatabase(id) if id == "a"));
    let mut other = saved("a", 5433);
    other.config.tag = "17".into();
    let (_, step) = task.advance(Answer::Found(Ok(other)));
    assert_eq!(outcome(step), Err(ServiceError::ImmutableSettings));

    let (task, _) = Task::begin(Action::UpdateDatabase("a".into(), config.clone()));
    let (task, step) = task.advance(Answer::Found(Ok(saved("a", 5433))));
    assert!(matches!(effect(&step), Effect::ContainerStates));
    let mut states = ContainerStates::new();
    states.insert("tusklet-a".into(), ContainerState::Running);
    let (_, step) = task.advance(Answer::States(Ok(states)));
    assert_eq!(outcome(step), Err(ServiceError::StopBeforeEditing));
    assert_eq!(
        ServiceError::StopBeforeEditing.message(),
        "Stop the database before editing its settings."
    );

    let (task, _) = Task::begin(Action::UpdateDatabase("a".into(), config));
    let (task, _) = task.advance(Answer::Found(Ok(saved("a", 5433))));
    let (task, step) = task.advance(Answer::States(Ok(ContainerStates::new())));
    assert!(matches!(effect(&step), Effect::RemoveContainer(db) if db.id == "a"));
    let (task, step) = task.advance(Answer::Done(Ok(())));
    match effect(&step) {
        Effect::UpdateDatabase(id, config, port) => {
            assert_eq!(id, "a");
            assert_eq!(config.name, "Renamed");
            assert_eq!(*port, 5433);
        }
        _ => panic!("expected update"),
    }
    let (_, step) = task.advance(Answer::Done(Ok(())));
    assert_eq!(outcome(step).unwrap().1, Some("a".into()));
}

#[test]
fn updates_allocate_a_newly_requested_port() {
    let config = DatabaseConfig {
        name: "Moved".into(),
        reserved_port: Some(6000),
        ..Default::default()
    };
    let (task, _) = Task::begin(Action::UpdateDatabase("a".into(), config));
    let (task, _) = task.advance(Answer::Found(Ok(saved("a", 5433))));
    let (task, step) = task.advance(Answer::States(Ok(ContainerStates::new())));
    assert!(matches!(effect(&step), Effect::AllocatedPorts));
    let (task, step) = task.advance(Answer::Ports(Ok(vec![5433])));
    assert!(matches!(effect(&step), Effect::BindPort(6000)));
    let (task, step) = task.advance(Answer::Done(Err("Address in use".into())));
    let _ = task;
    assert_eq!(
        outcome(step),
        Err(ServiceError::Failed("Port 6000 is already in use.: Address in use".into()))
    );
}

#[test]
fn starting_checks_the_port_unless_running() {
    let (task, _) = Task::begin(Action::Start("a".into(), false));
    let (task, _) = task.advance(Answer::Found(Ok(saved("a", 5433))));
    let (task, step) = task.advance(Answer::States(Ok(ContainerStates::new())));
    assert!(matches!(effect(&step), Effect::BindPort(5433)));
    let (task, step) = task.advance(Answer::Done(Ok(())));
    assert!(matches!(effect(&step), Effect::StartContainer(db, false) if db.id == "a"));
    let (_, step) = task.advance(Answer::Done(Ok(())));
    assert_eq!(
        outcome(step).unwrap().0.message(),
        "Container started. PostgreSQL is initializing."
    );

    let (task, _) = Task::begin(Action::Start("a".into(), true));
    let (task, _) = task.advance(Answer::Found(Ok(saved("a", 5433))));
    let mut states = ContainerStates::new();
    states.insert("tusklet-a".into(), ContainerState::Starting);
    let (_, step) = task.advance(Answer::States(Ok(states)));
    assert!(matches!(effect(&step), Effect::StartContainer(_, true)));
}

#[test]
fn deleting_removes_the_container_then_the_record() {
    let (task, _) = Task::begin(Action::DeleteDatabase("a".into()));
    let (task, step) = task.advance(Answer::Found(Ok(saved("a", 5433))));
    assert!(matches!(effect(&step), Effect::RemoveContainer(_)));
    let (task, step) = task.advance(Answer::Done(Ok(())));
    assert!(matches!(effect(&step), Effect::DeleteDatabase(id) if id == "a"));
    let (_, step) = task.advance(Answer::Done(Ok(())));
    let (notice, selection) = outcome(step).unwrap();
    assert_eq!(
        notice.message(),
        "Database removed. Data volume tusklet-a-data was retained."
    );
    assert_eq!(selection, None);

    let (task, _) = Task::begin(Action::DeleteDatabase("a".into()));
    let (task, _) = task.advance(Answer::Found(Ok(saved("a", 5433))));
    let (_, step) = task.advance(Answer::Done(Err("Stop the database first.".into())));
    assert_eq!(
        outcome(step),
        Err(ServiceError::Failed("Stop the database first.".into()))
    );
}

#[test]
fn project_actions_and_backups_report_their_messages() {
    let (task, step) = Task::begin(Action::CreateProject("Work".into()));
    assert!(matches!(effect(&step), Effect::CreateProject(n) if n == "Work"));
    let (_, step) = task.advance(Answer::Id(Ok("id".into())));
    assert_eq!(outcome(step).unwrap(), (Notice::ProjectCreated, None));

    let (task, _) = Task::begin(Action::RenameProject("id".into(), "New".into()));
    let (_, step) = task.advance(Answer::Done(Ok(())));
    assert_eq!(outcome(step).unwrap().0.message(), "Project renamed.");

    let (task, _) = Task::begin(Action::DeleteProject("id".into()));
    let (_, step) = task.advance(Answer::Done(Err("Remove the project's databases before deleting it.".into())));
    assert!(outcome(step).is_err());

    let (task, _) = Task::begin(Action::Dump(
        "a".into(),
        PathBuf::from("/tmp/x.dump"),
        "/tmp/x.dump".into(),
    ));
    let (task, step) = task.advance(Answer::Found(Ok(saved("a", 5433))));
    assert!(matches!(effect(&step), Effect::Dump(_, p) if p == &PathBuf::from("/tmp/x.dump")));
    let (_, step) = task.advance(Answer::Done(Ok(())));
    assert_eq!(outcome(step).unwrap().0.message(), "Backup saved to /tmp/x.dump");

    let (task, _) = Task::begin(Action::Restore("a".into(), PathBuf::from("/tmp/x.sql")));
    let (task, _) = task.advance(Answer::Found(Ok(saved("a", 5433))));
    let (_, step) = task.advance(Answer::Done(Ok(())));
    assert_eq!(outcome(step).unwrap().0.message(), "Backup restored successfully.");

    let (task, _) = Task::begin(Action::Stop("gone".into()));
    assert!(task.expects(&Answer::Found(Err(String::new()))));
    assert!(!task.expects(&Answer::Done(Ok(()))));
    let (_, step) = task.advance(Answer::Found(Err("Database no longer exists.".into())));
    assert_eq!(
        outcome(step),
        Err(ServiceError::Failed("Database no longer exists.".into()))
    );
}

#[test]
fn ports_respect_reservations() {
    assert_eq!(check_requested_port(80, &vec![]), Err(PortError::OutOfRange));
    assert_eq!(check_requested_port(5432, &vec![5432]), Err(PortError::Reserved(5432)));
    assert_eq!(check_requested_port(5432, &vec![5433]), Ok(()));
    assert!(!usable_port(1023, &vec![]));
    assert!(!usable_port(5432, &vec![5432]));
    assert!(usable_port(5432, &vec![]));
    assert_eq!(
        PortError::Reserved(5432).message(),
        "Port 5432 is reserved by another Tusklet database."
    );
    assert_eq!(
        port_taken_message(5432, "Address in use"),
        "Port 5432 is in use by another application. Stop that application or edit the database's port.: Address in use"
    );
}

#[test]
fn workspace_metadata_remains_available_without_docker() {
    let projects = vec![Project {
        id: "p".into(),
        name: "Offline project".into(),
    }];
    let mut db = saved("a", 15432);
    db.config.name = "Saved database".into();
    let snapshot = compose_snapshot(
        projects,
        vec![db],
        &Err(DockerError::Launch("No such file or directory (os error 2)".into())),
    );
    assert_eq!(snapshot.projects[0].name, "Offline project");
    assert_eq!(snapshot.databases[0].database.config.name, "Saved database");
    assert_eq!(snapshot.databases[0].state, ContainerState::Unknown);
    assert!(snapshot.docker_error.is_some());
}

#[test]
fn snapshots_show_states_images_and_selected_logs() {
    let mut states = ContainerStates::new();
    states.insert("tusklet-a".into(), ContainerState::Running);
    let mut snapshot = compose_snapshot(
        vec![],
        vec![saved("a", 5432), saved("b", 5433)],
        &Ok(states),
    );
    assert_eq!(snapshot.databases[0].state, ContainerState::Running);
    assert_eq!(snapshot.databases[1].state, ContainerState::NotCreated);
    assert!(snapshot.docker_error.is_none());
    assert_eq!(logs_target(&snapshot, &Some("a".into()), true), Some(0));
    assert_eq!(logs_target(&snapshot, &Some("a".into()), false), None);
    assert_eq!(logs_target(&snapshot, &Some("b".into()), true), None);
    assert_eq!(logs_target(&snapshot, &None, true), None);
    add_images(&mut snapshot, Ok(vec!["18".into()]));
    assert_eq!(snapshot.images, vec!["18".to_string()]);
    add_images(&mut snapshot, Err(DockerError::TimedOut));
    assert!(snapshot.docker_error.is_some());
    add_logs(&mut snapshot, Err(DockerError::Output));
    assert_eq!(snapshot.logs, "Could not read logs: Could not read Docker output.");
    let mut empty = Snapshot::default();
    add_logs(&mut empty, Ok("line\n".into()));
    assert_eq!(empty.logs, "line\n");
}

#[test]
fn the_worker_follows_selections_and_completed_actions() {
    let mut worker = Worker::new();
    assert_eq!(worker.selected, None);
    assert!(worker.follow);
    assert!(matches!(
        worker.receive(Request::Select(Some("a".into()), false)),
        Chore::Refresh
    ));
    assert_eq!(worker.selected, Some("a".to_string()));
    assert!(!worker.follow);
    assert!(matches!(worker.receive(Request::Refresh), Chore::Refresh));
    match worker.receive(Request::Execute(Action::Stop("a".into()))) {
        Chore::Execute(Action::Stop(id)) => assert_eq!(id, "a"),
        _ => panic!("expected the action back"),
    }
    assert_eq!(worker.selected, Some("a".to_string()));
    worker.completed(Ok(("Created.".into(), Some("b".into()))));
    assert_eq!(worker.selected, Some("b".to_string()));
    assert!(!worker.follow);
    let events = worker.refreshed(Ok(Snapshot::default()));
    assert_eq!(events.len(), 2);
    assert!(matches!(&events[0], Event::Snapshot(_, Some(id)) if id == "b"));
    assert!(matches!(
        &events[1],
        Event::Completed(Ok(m), Some(id)) if m == "Created." && id == "b"
    ));
    assert!(worker.pending.is_none());
    worker.completed(Err("failed".into()));
    assert_eq!(worker.selected, Some("b".to_string()));
    let events = worker.refreshed(Err("locked".into()));
    assert_eq!(events.len(), 1);
    assert!(matches!(&events[0], Event::Completed(Err(e), None) if e == "failed"));
    let events = worker.refreshed(Err("locked".into()));
    assert!(matches!(&events[..], [Event::Fatal(e)] if e == "locked"));
    let events = worker.refreshed(Ok(Snapshot::default()));
    assert!(matches!(&events[..], [Event::Snapshot(_, Some(id))] if id == "b"));
}

#[test]
fn snapshots_ask_docker_for_details_only_after_it_answered() {
    let dbs = vec![saved("a", 5433)];
    let (snapshot, need) = begin_snapshot(vec![], dbs.clone(), Err(DockerError::TimedOut));
    assert!(matches!(need, Refresh::Ready));
    assert!(snapshot.docker_error.is_some());
    let mut states = ContainerStates::new();
    states.insert("tusklet-a".into(), ContainerState::Running);
    let (mut snapshot, need) = begin_snapshot(vec![], dbs, Ok(states));
    assert!(matches!(need, Refresh::Images));
    let need = images_listed(&mut snapshot, Ok(vec!["18".into()]), &Some("a".into()), true);
    assert!(matches!(need, Refresh::Logs(0)));
    assert_eq!(snapshot.images, vec!["18".to_string()]);
    let need = images_listed(&mut snapshot, Ok(vec![]), &Some("a".into()), false);
    assert!(matches!(need, Refresh::Ready));
}

#[test]
fn automatic_ports_skip_reserved_and_privileged_offers() {
    let (task, _) = Task::begin(Action::CreateDatabase("p".into(), DatabaseConfig {
        name: "Auto".into(),
        ..Default::default()
    }));
    let (task, step) = task.advance(Answer::Ports(Ok(vec![5432])));
    assert!(matches!(effect(&step), Effect::OfferPort));
    let (task, step) = task.advance(Answer::Port(Ok(5432)));
    assert!(matches!(effect(&step), Effect::OfferPort));
    let (task, step) = task.advance(Answer::Port(Ok(80)));
    assert!(matches!(effect(&step), Effect::OfferPort));
    let (_, step) = task.advance(Answer::Port(Ok(41000)));
    assert!(matches!(effect(&step), Effect::InsertDatabase(_, _, 41000)));
}

#[test]
fn port_searches_give_up_after_the_attempts() {
    let (mut search, mut probe) = allocate_port(None, vec![5432]);
    let mut offers = 0;
    while matches!(probe, Probe::Offer) {
        offers += 1;
        let (next, next_probe) = search.advance(Answer::Port(Ok(5432)));
        search = next;
        probe = next_probe;
    }
    assert_eq!(offers, PORT_ATTEMPTS);
    assert!(matches!(probe, Probe::Chosen(Err(PortError::Exhausted))));
    assert!(matches!(allocate_port(Some(80), vec![]).1, Probe::Chosen(Err(PortError::OutOfRange))));
    assert!(matches!(
        allocate_port(Some(5432), vec![5432]).1,
        Probe::Chosen(Err(PortError::Reserved(5432)))
    ));
    let (search, probe) = allocate_port(Some(5440), vec![5432]);
    assert!(matches!(probe, Probe::Bind(5440)));
    assert!(matches!(search.advance(Answer::Done(Ok(()))).1, Probe::Chosen(Ok(5440))));
    let (_, probe) = allocate_port(None, vec![]);
    assert!(matches!(probe, Probe::Offer));
    let (search, _) = allocate_port(None, vec![]);
    assert!(matches!(
        search.advance(Answer::Port(Err("no ports".into()))).1,
        Probe::Chosen(Err(PortError::System(ref r))) if r == "no ports"
    ));
}

#[test]
fn a_taken_port_refuses_the_start() {
    let (task, _) = Task::begin(Action::Start("a".into(), false));
    let (task, _) = task.advance(Answer::Found(Ok(saved("a", 5433))));
    let (task, _) = task.advance(Answer::States(Ok(ContainerStates::new())));
    let (_, step) = task.advance(Answer::Done(Err("Address in use".into())));
    assert_eq!(
        outcome(step),
        Err(ServiceError::Failed(
            "Port 5433 is in use by another application. Stop that application or edit the database's port.: Address in use".into()
        ))
    );
}
