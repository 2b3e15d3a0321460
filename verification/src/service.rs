//! The user operations of the workspace and the order in which they consult
//! and change the saved configuration, Docker and the host's ports. An
//! operation is a [`Task`]: it asks for one [`Effect`] at a time, the caller
//! performs it against the store, Docker or the network and hands back the
//! [`Answer`], until the task completes with a message or an error.
use crate::docker::{ContainerStates, Operation};
use crate::model::{
    active, config_rejection, container_name_of, decided_by, rejection_text, volume_name_of,
    AbstractConfig, AbstractDatabase, ContainerState, Database, DatabaseConfig, ModelError,
    Rejection, Snapshot,
};
use crate::text::append;
use vstd::prelude::*;

verus! {

// ---------------------------------------------------------------------------
// What the user asks for
// ---------------------------------------------------------------------------

pub enum Action {
    CreateProject(String),
    RenameProject(String, String),
    DeleteProject(String),
    CreateDatabase(String, DatabaseConfig),
    UpdateDatabase(String, DatabaseConfig),
    Start(String, bool),
    Stop(String),
    DeleteDatabase(String),
    /// Export a backup of a database to a path; the last field is how the
    /// path is shown to the user.
    Dump(String, std::path::PathBuf, String),
    Restore(String, std::path::PathBuf),
}

/// Messages from the interface to the background worker.
pub enum Request {
    /// Select a database (or none) and choose whether its logs are followed.
    Select(Option<String>, bool),
    Execute(Action),
    Refresh,
}

/// Messages from the background worker to the interface.
pub enum Event {
    /// Fresh workspace data, and the database whose logs it holds.
    Snapshot(Box<Snapshot>, Option<String>),
    /// An action finished: its message or error, and the database to select.
    Completed(Result<String, String>, Option<String>),
    Fatal(String),
}

// ---------------------------------------------------------------------------
// Errors and notices
// ---------------------------------------------------------------------------

#[derive(Clone, Debug, PartialEq, Eq)]
pub enum ServiceError {
    Invalid(ModelError),
    /// A store, Docker or network step failed; its message.
    Failed(String),
    ImmutableSettings,
    StopBeforeEditing,
}

pub enum Failure {
    Invalid(Rejection),
    Failed(Seq<char>),
    ImmutableSettings,
    StopBeforeEditing,
}

impl View for ServiceError {
    type V = Failure;

    open spec fn view(&self) -> Failure {
        match self {
            ServiceError::Invalid(e) => Failure::Invalid(e@),
            ServiceError::Failed(m) => Failure::Failed(m@),
            ServiceError::ImmutableSettings => Failure::ImmutableSettings,
            ServiceError::StopBeforeEditing => Failure::StopBeforeEditing,
        }
    }
}

pub open spec fn failure_message(f: Failure) -> Seq<char> {
    match f {
        Failure::Invalid(r) => rejection_text(r),
        Failure::Failed(m) => m,
        Failure::ImmutableSettings =>
            "Create a new database to change the image tag, initial database, or user."@,
        Failure::StopBeforeEditing => "Stop the database before editing its settings."@,
    }
}

impl ServiceError {
    pub fn message(&self) -> (m: String)
        ensures
            m@ == failure_message(self@),
    {
        match self {
            ServiceError::Invalid(e) => e.message(),
            ServiceError::Failed(m) => m.clone(),
            ServiceError::ImmutableSettings => String::from_str(
                "Create a new database to change the image tag, initial database, or user.",
            ),
            ServiceError::StopBeforeEditing => String::from_str(
                "Stop the database before editing its settings.",
            ),
        }
    }
}

/// What a finished action tells the user.
#[derive(Clone, Debug, PartialEq, Eq)]
pub enum Notice {
    ProjectCreated,
    ProjectRenamed,
    ProjectRemoved,
    DatabaseCreated,
    SettingsSaved,
    ContainerStarted,
    DatabaseStopped,
    /// The name of the data volume that was kept.
    DatabaseRemoved(String),
    /// How the backup's path is displayed.
    BackupSaved(String),
    BackupRestored,
}

pub enum Announcement {
    ProjectCreated,
    ProjectRenamed,
    ProjectRemoved,
    DatabaseCreated,
    SettingsSaved,
    ContainerStarted,
    DatabaseStopped,
    DatabaseRemoved(Seq<char>),
    BackupSaved(Seq<char>),
    BackupRestored,
}

impl View for Notice {
    type V = Announcement;

    open spec fn view(&self) -> Announcement {
        match self {
            Notice::ProjectCreated => Announcement::ProjectCreated,
            Notice::ProjectRenamed => Announcement::ProjectRenamed,
            Notice::ProjectRemoved => Announcement::ProjectRemoved,
            Notice::DatabaseCreated => Announcement::DatabaseCreated,
            Notice::SettingsSaved => Announcement::SettingsSaved,
            Notice::ContainerStarted => Announcement::ContainerStarted,
            Notice::DatabaseStopped => Announcement::DatabaseStopped,
            Notice::DatabaseRemoved(v) => Announcement::DatabaseRemoved(v@),
            Notice::BackupSaved(p) => Announcement::BackupSaved(p@),
            Notice::BackupRestored => Announcement::BackupRestored,
        }
    }
}

pub open spec fn announcement_text(a: Announcement) -> Seq<char> {
    match a {
        Announcement::ProjectCreated => "Project created."@,
        Announcement::ProjectRenamed => "Project renamed."@,
        Announcement::ProjectRemoved => "Project removed."@,
        Announcement::DatabaseCreated => "Database created. Start it when you're ready."@,
        Announcement::SettingsSaved => "Settings saved. Start the database to apply them."@,
        Announcement::ContainerStarted => "Container started. PostgreSQL is initializing."@,
        Announcement::DatabaseStopped => "Database stopped. Your data is preserved."@,
        Announcement::DatabaseRemoved(v) => "Database removed. Data volume "@ + v
            + " was retained."@,
        Announcement::BackupSaved(p) => "Backup saved to "@ + p,
        Announcement::BackupRestored => "Backup restored successfully."@,
    }
}

impl Notice {
    pub fn message(&self) -> (m: String)
        ensures
            m@ == announcement_text(self@),
    {
        match self {
            Notice::ProjectCreated => String::from_str("Project created."),
            Notice::ProjectRenamed => String::from_str("Project renamed."),
            Notice::ProjectRemoved => String::from_str("Project removed."),
            Notice::DatabaseCreated => String::from_str(
                "Database created. Start it when you're ready.",
            ),
            Notice::SettingsSaved => String::from_str(
                "Settings saved. Start the database to apply them.",
            ),
            Notice::ContainerStarted => String::from_str(
                "Container started. PostgreSQL is initializing.",
            ),
            Notice::DatabaseStopped => String::from_str("Database stopped. Your data is preserved."),
            Notice::DatabaseRemoved(v) => {
                let mut m = String::from_str("Database removed. Data volume ");
                append(&mut m, v.as_str());
                append(&mut m, " was retained.");
                m
            },
            Notice::BackupSaved(p) => {
                let mut m = String::from_str("Backup saved to ");
                append(&mut m, p.as_str());
                m
            },
            Notice::BackupRestored => String::from_str("Backup restored successfully."),
        }
    }
}

// ---------------------------------------------------------------------------
// Effects and answers
// ---------------------------------------------------------------------------

/// One step of outside work that a task asks for.
pub enum Effect {
    /// Store: create a project with this name; answered with its id.
    CreateProject(String),
    /// Store: rename a project.
    RenameProject(String, String),
    /// Store: remove an empty project.
    DeleteProject(String),
    /// Store: the ports reserved by all saved databases.
    AllocatedPorts,
    /// Network: ask the system for a free port on 127.0.0.1; answered with
    /// the port, or the system's reason.
    OfferPort,
    /// Store: save a new database in a project on a port; answered with its id.
    InsertDatabase(String, DatabaseConfig, u16),
    /// Store: read a saved database by id.
    FindDatabase(String),
    /// Docker: the states of Tusklet's containers.
    ContainerStates,
    /// Docker: remove the stopped container, keeping its data volume.
    RemoveContainer(Database),
    /// Store: save new settings and port for a database.
    UpdateDatabase(String, DatabaseConfig, u16),
    /// Network: check that the port can be bound on 127.0.0.1; a failure is
    /// answered with the system's reason.
    BindPort(u16),
    /// Docker: create if needed and start (downloads allowed or not).
    StartContainer(Database, bool),
    /// Docker: stop the container.
    StopContainer(Database),
    /// Store: remove the database's record.
    DeleteDatabase(String),
    /// Docker: write a custom-format backup to the path.
    Dump(Database, std::path::PathBuf),
    /// Docker: restore a backup from the path.
    Restore(Database, std::path::PathBuf),
}

pub enum Job {
    CreateProject(Seq<char>),
    RenameProject(Seq<char>, Seq<char>),
    DeleteProject(Seq<char>),
    AllocatedPorts,
    OfferPort,
    InsertDatabase(Seq<char>, AbstractConfig, u16),
    FindDatabase(Seq<char>),
    ContainerStates,
    RemoveContainer(AbstractDatabase),
    UpdateDatabase(Seq<char>, AbstractConfig, u16),
    BindPort(u16),
    StartContainer(AbstractDatabase, bool),
    StopContainer(AbstractDatabase),
    DeleteDatabase(Seq<char>),
    Dump(AbstractDatabase, std::path::PathBuf),
    Restore(AbstractDatabase, std::path::PathBuf),
}

impl View for Effect {
    type V = Job;

    open spec fn view(&self) -> Job {
        match self {
            Effect::CreateProject(n) => Job::CreateProject(n@),
            Effect::RenameProject(i, n) => Job::RenameProject(i@, n@),
            Effect::DeleteProject(i) => Job::DeleteProject(i@),
            Effect::AllocatedPorts => Job::AllocatedPorts,
            Effect::OfferPort => Job::OfferPort,
            Effect::InsertDatabase(p, c, port) => Job::InsertDatabase(p@, c@, *port),
            Effect::FindDatabase(i) => Job::FindDatabase(i@),
            Effect::ContainerStates => Job::ContainerStates,
            Effect::RemoveContainer(d) => Job::RemoveContainer(d@),
            Effect::UpdateDatabase(i, c, port) => Job::UpdateDatabase(i@, c@, *port),
            Effect::BindPort(p) => Job::BindPort(*p),
            Effect::StartContainer(d, pull) => Job::StartContainer(d@, *pull),
            Effect::StopContainer(d) => Job::StopContainer(d@),
            Effect::DeleteDatabase(i) => Job::DeleteDatabase(i@),
            Effect::Dump(d, p) => Job::Dump(d@, *p),
            Effect::Restore(d, p) => Job::Restore(d@, *p),
        }
    }
}

/// How an effect turned out; errors are their messages.
pub enum Answer {
    Done(Result<(), String>),
    Id(Result<String, String>),
    Ports(Result<Vec<u16>, String>),
    Port(Result<u16, String>),
    Found(Result<Database, String>),
    States(Result<ContainerStates, String>),
}

pub enum Reported {
    Done(Result<(), Seq<char>>),
    Id(Result<Seq<char>, Seq<char>>),
    Ports(Result<Seq<u16>, Seq<char>>),
    Port(Result<u16, Seq<char>>),
    Found(Result<AbstractDatabase, Seq<char>>),
    States(Result<Map<Seq<char>, ContainerState>, Seq<char>>),
}

impl View for Answer {
    type V = Reported;

    open spec fn view(&self) -> Reported {
        match self {
            Answer::Done(Ok(())) => Reported::Done(Ok(())),
            Answer::Done(Err(m)) => Reported::Done(Err(m@)),
            Answer::Id(Ok(i)) => Reported::Id(Ok(i@)),
            Answer::Id(Err(m)) => Reported::Id(Err(m@)),
            Answer::Ports(Ok(ps)) => Reported::Ports(Ok(ps@)),
            Answer::Ports(Err(m)) => Reported::Ports(Err(m@)),
            Answer::Port(Ok(p)) => Reported::Port(Ok(*p)),
            Answer::Port(Err(m)) => Reported::Port(Err(m@)),
            Answer::Found(Ok(d)) => Reported::Found(Ok(d@)),
            Answer::Found(Err(m)) => Reported::Found(Err(m@)),
            Answer::States(Ok(s)) => Reported::States(Ok(s.map())),
            Answer::States(Err(m)) => Reported::States(Err(m@)),
        }
    }
}

/// The kind of answer each effect gets.
pub open spec fn answers(j: Job, r: Reported) -> bool {
    match j {
        Job::CreateProject(_) | Job::InsertDatabase(..) => r is Id,
        Job::AllocatedPorts => r is Ports,
        Job::OfferPort => r is Port,
        Job::FindDatabase(_) => r is Found,
        Job::ContainerStates => r is States,
        _ => r is Done,
    }
}

/// What a task does next.
pub enum Step {
    Perform(Effect),
    Complete(Result<(Notice, Option<String>), ServiceError>),
}

pub enum Move {
    Perform(Job),
    Complete(Result<(Announcement, Option<Seq<char>>), Failure>),
}

impl View for Step {
    type V = Move;

    open spec fn view(&self) -> Move {
        match self {
            Step::Perform(e) => Move::Perform(e@),
            Step::Complete(Ok((n, sel))) => Move::Complete(
                Ok(
                    (
                        n@,
                        match sel {
                            Some(s) => Some(s@),
                            None => None,
                        },
                    ),
                ),
            ),
            Step::Complete(Err(e)) => Move::Complete(Err(e@)),
        }
    }
}

// ---------------------------------------------------------------------------
// Tasks
// ---------------------------------------------------------------------------

pub enum Intent {
    CreateProject(Seq<char>),
    RenameProject(Seq<char>, Seq<char>),
    DeleteProject(Seq<char>),
    CreateDatabase(Seq<char>, AbstractConfig),
    UpdateDatabase(Seq<char>, AbstractConfig),
    Start(Seq<char>, bool),
    Stop(Seq<char>),
    DeleteDatabase(Seq<char>),
    Dump(Seq<char>, std::path::PathBuf, Seq<char>),
    Restore(Seq<char>, std::path::PathBuf),
}

impl View for Action {
    type V = Intent;

    open spec fn view(&self) -> Intent {
        match self {
            Action::CreateProject(n) => Intent::CreateProject(n@),
            Action::RenameProject(i, n) => Intent::RenameProject(i@, n@),
            Action::DeleteProject(i) => Intent::DeleteProject(i@),
            Action::CreateDatabase(p, c) => Intent::CreateDatabase(p@, c@),
            Action::UpdateDatabase(i, c) => Intent::UpdateDatabase(i@, c@),
            Action::Start(i, pull) => Intent::Start(i@, *pull),
            Action::Stop(i) => Intent::Stop(i@),
            Action::DeleteDatabase(i) => Intent::DeleteDatabase(i@),
            Action::Dump(i, p, shown) => Intent::Dump(i@, *p, shown@),
            Action::Restore(i, p) => Intent::Restore(i@, *p),
        }
    }
}

/// An action in progress: which answer it waits for, and what it still needs.
pub enum Task {
    CreatingProject,
    RenamingProject,
    RemovingProject,
    ReadingPorts { project: String, config: DatabaseConfig },
    ChoosingPort { project: String, config: DatabaseConfig, search: PortSearch },
    InsertingDatabase,
    FindingForUpdate { id: String, config: DatabaseConfig },
    CheckingForUpdate { id: String, config: DatabaseConfig, db: Database },
    ReadingPortsForUpdate { id: String, config: DatabaseConfig, db: Database, requested: u16 },
    ChoosingPortForUpdate { id: String, config: DatabaseConfig, db: Database, search: PortSearch },
    RemovingForUpdate { id: String, config: DatabaseConfig, port: u16 },
    SavingUpdate { id: String },
    FindingForStart { id: String, allow_pull: bool },
    CheckingForStart { id: String, allow_pull: bool, db: Database },
    BindingForStart { id: String, allow_pull: bool, db: Database },
    Starting { id: String },
    FindingForStop { id: String },
    Stopping { id: String },
    FindingForDelete { id: String },
    RemovingContainer { id: String, volume: String },
    DeletingRecord { volume: String },
    FindingForDump { id: String, path: std::path::PathBuf, shown: String },
    Dumping { id: String, shown: String },
    FindingForRestore { id: String, path: std::path::PathBuf },
    Restoring { id: String },
    Finished,
}

pub enum Phase {
    CreatingProject,
    RenamingProject,
    RemovingProject,
    ReadingPorts { project: Seq<char>, config: AbstractConfig },
    ChoosingPort { project: Seq<char>, config: AbstractConfig, search: Search },
    InsertingDatabase,
    FindingForUpdate { id: Seq<char>, config: AbstractConfig },
    CheckingForUpdate { id: Seq<char>, config: AbstractConfig, db: AbstractDatabase },
    ReadingPortsForUpdate {
        id: Seq<char>,
        config: AbstractConfig,
        db: AbstractDatabase,
        requested: u16,
    },
    ChoosingPortForUpdate {
        id: Seq<char>,
        config: AbstractConfig,
        db: AbstractDatabase,
        search: Search,
    },
    RemovingForUpdate { id: Seq<char>, config: AbstractConfig, port: u16 },
    SavingUpdate { id: Seq<char> },
    FindingForStart { id: Seq<char>, allow_pull: bool },
    CheckingForStart { id: Seq<char>, allow_pull: bool, db: AbstractDatabase },
    BindingForStart { id: Seq<char>, allow_pull: bool, db: AbstractDatabase },
    Starting { id: Seq<char> },
    FindingForStop { id: Seq<char> },
    Stopping { id: Seq<char> },
    FindingForDelete { id: Seq<char> },
    RemovingContainer { id: Seq<char>, volume: Seq<char> },
    DeletingRecord { volume: Seq<char> },
    FindingForDump { id: Seq<char>, path: std::path::PathBuf, shown: Seq<char> },
    Dumping { id: Seq<char>, shown: Seq<char> },
    FindingForRestore { id: Seq<char>, path: std::path::PathBuf },
    Restoring { id: Seq<char> },
    Finished,
}

impl View for Task {
    type V = Phase;

    open spec fn view(&self) -> Phase {
        match self {
            Task::CreatingProject => Phase::CreatingProject,
            Task::RenamingProject => Phase::RenamingProject,
            Task::RemovingProject => Phase::RemovingProject,
            Task::ReadingPorts { project, config } => Phase::ReadingPorts {
                project: project@,
                config: config@,
            },
            Task::ChoosingPort { project, config, search } => Phase::ChoosingPort {
                project: project@,
                config: config@,
                search: search@,
            },
            Task::InsertingDatabase => Phase::InsertingDatabase,
            Task::FindingForUpdate { id, config } => Phase::FindingForUpdate {
                id: id@,
                config: config@,
            },
            Task::CheckingForUpdate { id, config, db } => Phase::CheckingForUpdate {
                id: id@,
                config: config@,
                db: db@,
            },
            Task::ReadingPortsForUpdate { id, config, db, requested } =>
                Phase::ReadingPortsForUpdate {
                id: id@,
                config: config@,
                db: db@,
                requested: *requested,
            },
            Task::ChoosingPortForUpdate { id, config, db, search } => Phase::ChoosingPortForUpdate {
                id: id@,
                config: config@,
                db: db@,
                search: search@,
            },
            Task::RemovingForUpdate { id, config, port } => Phase::RemovingForUpdate {
                id: id@,
                config: config@,
                port: *port,
            },
            Task::SavingUpdate { id } => Phase::SavingUpdate { id: id@ },
            Task::FindingForStart { id, allow_pull } => Phase::FindingForStart {
                id: id@,
                allow_pull: *allow_pull,
            },
            Task::CheckingForStart { id, allow_pull, db } => Phase::CheckingForStart {
                id: id@,
                allow_pull: *allow_pull,
                db: db@,
            },
            Task::BindingForStart { id, allow_pull, db } => Phase::BindingForStart {
                id: id@,
                allow_pull: *allow_pull,
                db: db@,
            },
            Task::Starting { id } => Phase::Starting { id: id@ },
            Task::FindingForStop { id } => Phase::FindingForStop { id: id@ },
            Task::Stopping { id } => Phase::Stopping { id: id@ },
            Task::FindingForDelete { id } => Phase::FindingForDelete { id: id@ },
            Task::RemovingContainer { id, volume } => Phase::RemovingContainer {
                id: id@,
                volume: volume@,
            },
            Task::DeletingRecord { volume } => Phase::DeletingRecord { volume: volume@ },
            Task::FindingForDump { id, path, shown } => Phase::FindingForDump {
                id: id@,
                path: *path,
                shown: shown@,
            },
            Task::Dumping { id, shown } => Phase::Dumping { id: id@, shown: shown@ },
            Task::FindingForRestore { id, path } => Phase::FindingForRestore {
                id: id@,
                path: *path,
            },
            Task::Restoring { id } => Phase::Restoring { id: id@ },
            Task::Finished => Phase::Finished,
        }
    }
}

/// The answer kind a phase waits for.
pub open spec fn awaits(t: Phase, r: Reported) -> bool {
    match t {
        Phase::CreatingProject | Phase::InsertingDatabase => r is Id,
        Phase::ReadingPorts { .. } | Phase::ReadingPortsForUpdate { .. } => r is Ports,
        Phase::ChoosingPort { search, .. } | Phase::ChoosingPortForUpdate { search, .. } =>
            search_awaits(search, r),
        Phase::FindingForUpdate { .. } | Phase::FindingForStart { .. } | Phase::FindingForStop {
            ..
        } | Phase::FindingForDelete { .. } | Phase::FindingForDump { .. }
        | Phase::FindingForRestore { .. } => r is Found,
        Phase::CheckingForUpdate { .. } | Phase::CheckingForStart { .. } => r is States,
        Phase::Finished => false,
        _ => r is Done,
    }
}


pub open spec fn complete_ok(a: Announcement, sel: Option<Seq<char>>) -> (Phase, Move) {
    (Phase::Finished, Move::Complete(Ok((a, sel))))
}

/// The value of a step that `Task::advance` never takes (an answer of the
/// wrong kind).
pub open spec fn unexpected() -> (Phase, Move) {
    (Phase::Finished, Move::Complete(Err(Failure::Failed(Seq::empty()))))
}

pub open spec fn complete_err(f: Failure) -> (Phase, Move) {
    (Phase::Finished, Move::Complete(Err(f)))
}

/// How each action starts. Creating or updating a database first validates
/// its configuration; everything about an existing database starts by
/// reading it from the store.
pub open spec fn task_begin(a: Intent) -> (Phase, Move) {
    match a {
        Intent::CreateProject(name) => (
            Phase::CreatingProject,
            Move::Perform(Job::CreateProject(name)),
        ),
        Intent::RenameProject(id, name) => (
            Phase::RenamingProject,
            Move::Perform(Job::RenameProject(id, name)),
        ),
        Intent::DeleteProject(id) => (Phase::RemovingProject, Move::Perform(Job::DeleteProject(id))),
        Intent::CreateDatabase(project, config) => match config_rejection(config) {
            Some(r) => complete_err(Failure::Invalid(r)),
            None => (
                Phase::ReadingPorts { project, config },
                Move::Perform(Job::AllocatedPorts),
            ),
        },
        Intent::UpdateDatabase(id, config) => match config_rejection(config) {
            Some(r) => complete_err(Failure::Invalid(r)),
            None => (Phase::FindingForUpdate { id, config }, Move::Perform(Job::FindDatabase(id))),
        },
        Intent::Start(id, allow_pull) => (
            Phase::FindingForStart { id, allow_pull },
            Move::Perform(Job::FindDatabase(id)),
        ),
        Intent::Stop(id) => (Phase::FindingForStop { id }, Move::Perform(Job::FindDatabase(id))),
        Intent::DeleteDatabase(id) => (
            Phase::FindingForDelete { id },
            Move::Perform(Job::FindDatabase(id)),
        ),
        Intent::Dump(id, path, shown) => (
            Phase::FindingForDump { id, path, shown },
            Move::Perform(Job::FindDatabase(id)),
        ),
        Intent::Restore(id, path) => (
            Phase::FindingForRestore { id, path },
            Move::Perform(Job::FindDatabase(id)),
        ),
    }
}

/// The image tag, initial database and user of a database never change.
pub open spec fn keeps_identity(config: AbstractConfig, db: AbstractDatabase) -> bool {
    config.tag == db.config.tag && config.database == db.config.database && config.user
        == db.config.user
}

/// A container Docker does not list has not been created.
pub open spec fn listed_state(m: Map<Seq<char>, ContainerState>, db: AbstractDatabase) -> ContainerState {
    if m.contains_key(container_name_of(db)) {
        m[container_name_of(db)]
    } else {
        ContainerState::NotCreated
    }
}

/// How a new database's task goes on from its port search: it probes again,
/// saves the database on the chosen port, or ends with the search's error.
pub open spec fn new_port_move(project: Seq<char>, config: AbstractConfig, s: Search, p: Probing) -> (
    Phase,
    Move,
) {
    match p {
        Probing::Bind(port) => (
            Phase::ChoosingPort { project, config, search: s },
            Move::Perform(Job::BindPort(port)),
        ),
        Probing::Offer => (
            Phase::ChoosingPort { project, config, search: s },
            Move::Perform(Job::OfferPort),
        ),
        Probing::Chosen(Ok(port)) => (
            Phase::InsertingDatabase,
            Move::Perform(Job::InsertDatabase(project, config, port)),
        ),
        Probing::Chosen(Err(e)) => complete_err(Failure::Failed(port_problem_text(e))),
    }
}

/// How an update goes on from its port search: it probes again, removes the
/// old container to save the settings on the chosen port, or ends with the
/// search's error.
pub open spec fn update_port_move(
    id: Seq<char>,
    config: AbstractConfig,
    db: AbstractDatabase,
    s: Search,
    p: Probing,
) -> (Phase, Move) {
    match p {
        Probing::Bind(port) => (
            Phase::ChoosingPortForUpdate { id, config, db, search: s },
            Move::Perform(Job::BindPort(port)),
        ),
        Probing::Offer => (
            Phase::ChoosingPortForUpdate { id, config, db, search: s },
            Move::Perform(Job::OfferPort),
        ),
        Probing::Chosen(Ok(port)) => (
            Phase::RemovingForUpdate { id, config, port },
            Move::Perform(Job::RemoveContainer(db)),
        ),
        Probing::Chosen(Err(e)) => complete_err(Failure::Failed(port_problem_text(e))),
    }
}

/// How a task proceeds on an answer; a failed effect ends it with that
/// effect's message (a failed bind with the message about its port).
pub open spec fn task_step(t: Phase, r: Reported) -> (Phase, Move) {
    match t {
        Phase::CreatingProject => match r {
            Reported::Id(Ok(_)) => complete_ok(Announcement::ProjectCreated, None),
            Reported::Id(Err(m)) => complete_err(Failure::Failed(m)),
            _ => unexpected(),
        },
        Phase::RenamingProject => match r {
            Reported::Done(Ok(())) => complete_ok(Announcement::ProjectRenamed, None),
            Reported::Done(Err(m)) => complete_err(Failure::Failed(m)),
            _ => unexpected(),
        },
        Phase::RemovingProject => match r {
            Reported::Done(Ok(())) => complete_ok(Announcement::ProjectRemoved, None),
            Reported::Done(Err(m)) => complete_err(Failure::Failed(m)),
            _ => unexpected(),
        },
        Phase::ReadingPorts { project, config } => match r {
            Reported::Ports(Ok(ps)) => {
                let (s, p) = search_begin(config.reserved_port, ps);
                new_port_move(project, config, s, p)
            },
            Reported::Ports(Err(m)) => complete_err(Failure::Failed(m)),
            _ => unexpected(),
        },
        Phase::ChoosingPort { project, config, search } => {
            let (s, p) = search_step(search, r);
            new_port_move(project, config, s, p)
        },
        Phase::InsertingDatabase => match r {
            Reported::Id(Ok(id)) => complete_ok(Announcement::DatabaseCreated, Some(id)),
            Reported::Id(Err(m)) => complete_err(Failure::Failed(m)),
            _ => unexpected(),
        },
        Phase::FindingForUpdate { id, config } => match r {
            Reported::Found(Ok(db)) => if keeps_identity(config, db) {
                (Phase::CheckingForUpdate { id, config, db }, Move::Perform(Job::ContainerStates))
            } else {
                complete_err(Failure::ImmutableSettings)
            },
            Reported::Found(Err(m)) => complete_err(Failure::Failed(m)),
            _ => unexpected(),
        },
        Phase::CheckingForUpdate { id, config, db } => match r {
            Reported::States(Ok(m)) => if active(listed_state(m, db)) {
                complete_err(Failure::StopBeforeEditing)
            } else if config.reserved_port is Some && config.reserved_port->0 != db.port {
                (
                    Phase::ReadingPortsForUpdate {
                        id,
                        config,
                        db,
                        requested: config.reserved_port->0,
                    },
                    Move::Perform(Job::AllocatedPorts),
                )
            } else {
                (
                    Phase::RemovingForUpdate { id, config, port: db.port },
                    Move::Perform(Job::RemoveContainer(db)),
                )
            },
            Reported::States(Err(m)) => complete_err(Failure::Failed(m)),
            _ => unexpected(),
        },
        Phase::ReadingPortsForUpdate { id, config, db, requested } => match r {
            Reported::Ports(Ok(ps)) => {
                let (s, p) = search_begin(Some(requested), ps);
                update_port_move(id, config, db, s, p)
            },
            Reported::Ports(Err(m)) => complete_err(Failure::Failed(m)),
            _ => unexpected(),
        },
        Phase::ChoosingPortForUpdate { id, config, db, search } => {
            let (s, p) = search_step(search, r);
            update_port_move(id, config, db, s, p)
        },
        Phase::RemovingForUpdate { id, config, port } => match r {
            Reported::Done(Ok(())) => (
                Phase::SavingUpdate { id },
                Move::Perform(Job::UpdateDatabase(id, config, port)),
            ),
            Reported::Done(Err(m)) => complete_err(Failure::Failed(m)),
            _ => unexpected(),
        },
        Phase::SavingUpdate { id } => match r {
            Reported::Done(Ok(())) => complete_ok(Announcement::SettingsSaved, Some(id)),
            Reported::Done(Err(m)) => complete_err(Failure::Failed(m)),
            _ => unexpected(),
        },
        Phase::FindingForStart { id, allow_pull } => match r {
            Reported::Found(Ok(db)) => (
                Phase::CheckingForStart { id, allow_pull, db },
                Move::Perform(Job::ContainerStates),
            ),
            Reported::Found(Err(m)) => complete_err(Failure::Failed(m)),
            _ => unexpected(),
        },
        Phase::CheckingForStart { id, allow_pull, db } => match r {
            Reported::States(Ok(m)) => if active(listed_state(m, db)) {
                (Phase::Starting { id }, Move::Perform(Job::StartContainer(db, allow_pull)))
            } else {
                (
                    Phase::BindingForStart { id, allow_pull, db },
                    Move::Perform(Job::BindPort(db.port)),
                )
            },
            Reported::States(Err(m)) => complete_err(Failure::Failed(m)),
            _ => unexpected(),
        },
        Phase::BindingForStart { id, allow_pull, db } => match r {
            Reported::Done(Ok(())) => (
                Phase::Starting { id },
                Move::Perform(Job::StartContainer(db, allow_pull)),
            ),
            Reported::Done(Err(m)) => complete_err(Failure::Failed(port_taken_text(db.port, m))),
            _ => unexpected(),
        },
        Phase::Starting { id } => match r {
            Reported::Done(Ok(())) => complete_ok(Announcement::ContainerStarted, Some(id)),
            Reported::Done(Err(m)) => complete_err(Failure::Failed(m)),
            _ => unexpected(),
        },
        Phase::FindingForStop { id } => match r {
            Reported::Found(Ok(db)) => (Phase::Stopping { id }, Move::Perform(Job::StopContainer(db))),
            Reported::Found(Err(m)) => complete_err(Failure::Failed(m)),
            _ => unexpected(),
        },
        Phase::Stopping { id } => match r {
            Reported::Done(Ok(())) => complete_ok(Announcement::DatabaseStopped, Some(id)),
            Reported::Done(Err(m)) => complete_err(Failure::Failed(m)),
            _ => unexpected(),
        },
        Phase::FindingForDelete { id } => match r {
            Reported::Found(Ok(db)) => (
                Phase::RemovingContainer { id, volume: volume_name_of(db) },
                Move::Perform(Job::RemoveContainer(db)),
            ),
            Reported::Found(Err(m)) => complete_err(Failure::Failed(m)),
            _ => unexpected(),
        },
        Phase::RemovingContainer { id, volume } => match r {
            Reported::Done(Ok(())) => (
                Phase::DeletingRecord { volume },
                Move::Perform(Job::DeleteDatabase(id)),
            ),
            Reported::Done(Err(m)) => complete_err(Failure::Failed(m)),
            _ => unexpected(),
        },
        Phase::DeletingRecord { volume } => match r {
            Reported::Done(Ok(())) => complete_ok(Announcement::DatabaseRemoved(volume), None),
            Reported::Done(Err(m)) => complete_err(Failure::Failed(m)),
            _ => unexpected(),
        },
        Phase::FindingForDump { id, path, shown } => match r {
            Reported::Found(Ok(db)) => (Phase::Dumping { id, shown }, Move::Perform(Job::Dump(db, path))),
            Reported::Found(Err(m)) => complete_err(Failure::Failed(m)),
            _ => unexpected(),
        },
        Phase::Dumping { id, shown } => match r {
            Reported::Done(Ok(())) => complete_ok(Announcement::BackupSaved(shown), Some(id)),
            Reported::Done(Err(m)) => complete_err(Failure::Failed(m)),
            _ => unexpected(),
        },
        Phase::FindingForRestore { id, path } => match r {
            Reported::Found(Ok(db)) => (Phase::Restoring { id }, Move::Perform(Job::Restore(db, path))),
            Reported::Found(Err(m)) => complete_err(Failure::Failed(m)),
            _ => unexpected(),
        },
        Phase::Restoring { id } => match r {
            Reported::Done(Ok(())) => complete_ok(Announcement::BackupRestored, Some(id)),
            Reported::Done(Err(m)) => complete_err(Failure::Failed(m)),
            _ => unexpected(),
        },
        Phase::Finished => unexpected(),
    }
}

fn new_port_step(project: String, config: DatabaseConfig, search: PortSearch, probe: Probe) -> (r: (
    Task,
    Step,
))
    ensures
        (r.0@, r.1@) == new_port_move(project@, config@, search@, probe@),
{
    match probe {
        Probe::Bind(port) => (
            Task::ChoosingPort { project, config, search },
            Step::Perform(Effect::BindPort(port)),
        ),
        Probe::Offer => (Task::ChoosingPort { project, config, search }, Step::Perform(Effect::OfferPort)),
        Probe::Chosen(Ok(port)) => (
            Task::InsertingDatabase,
            Step::Perform(Effect::InsertDatabase(project, config, port)),
        ),
        Probe::Chosen(Err(e)) => refused(ServiceError::Failed(e.message())),
    }
}

fn update_port_step(id: String, config: DatabaseConfig, db: Database, search: PortSearch, probe: Probe) -> (r: (
    Task,
    Step,
))
    ensures
        (r.0@, r.1@) == update_port_move(id@, config@, db@, search@, probe@),
{
    match probe {
        Probe::Bind(port) => (
            Task::ChoosingPortForUpdate { id, config, db, search },
            Step::Perform(Effect::BindPort(port)),
        ),
        Probe::Offer => (
            Task::ChoosingPortForUpdate { id, config, db, search },
            Step::Perform(Effect::OfferPort),
        ),
        Probe::Chosen(Ok(port)) => (
            Task::RemovingForUpdate { id, config, port },
            Step::Perform(Effect::RemoveContainer(db)),
        ),
        Probe::Chosen(Err(e)) => refused(ServiceError::Failed(e.message())),
    }
}

fn completed(n: Notice, selection: Option<String>) -> (r: (Task, Step))
    ensures
        (r.0@, r.1@) == complete_ok(
            n@,
            match selection {
                Some(s) => Some(s@),
                None => None,
            },
        ),
{
    (Task::Finished, Step::Complete(Ok((n, selection))))
}

fn refused(e: ServiceError) -> (r: (Task, Step))
    ensures
        (r.0@, r.1@) == complete_err(e@),
{
    (Task::Finished, Step::Complete(Err(e)))
}

fn same_string(a: &String, b: &String) -> (r: bool)
    ensures
        r == (a@ == b@),
{
    *a == *b
}

impl Task {
    /// Whether `answer` is the kind of answer the task waits for.
    pub fn expects(&self, answer: &Answer) -> (b: bool)
        ensures
            b == awaits(self@, answer@),
    {
        match self {
            Task::CreatingProject | Task::InsertingDatabase => matches!(answer, Answer::Id(_)),
            Task::ReadingPorts { .. } | Task::ReadingPortsForUpdate { .. } => matches!(answer, Answer::Ports(_)),
            Task::ChoosingPort { search, .. } | Task::ChoosingPortForUpdate { search, .. } =>
                search.expects(answer),
            Task::FindingForUpdate { .. } | Task::FindingForStart { .. } | Task::FindingForStop {
                ..
            } | Task::FindingForDelete { .. } | Task::FindingForDump { .. }
            | Task::FindingForRestore { .. } => matches!(answer, Answer::Found(_)),
            Task::CheckingForUpdate { .. } | Task::CheckingForStart { .. } => matches!(answer, Answer::States(_)),
            Task::Finished => false,
            _ => matches!(answer, Answer::Done(_)),
        }
    }

    /// Starts an action and returns its first step.
    pub fn begin(action: Action) -> (r: (Task, Step))
        ensures
            (r.0@, r.1@) == task_begin(action@),
    {
        match action {
            Action::CreateProject(name) => (
                Task::CreatingProject,
                Step::Perform(Effect::CreateProject(name)),
            ),
            Action::RenameProject(id, name) => (
                Task::RenamingProject,
                Step::Perform(Effect::RenameProject(id, name)),
            ),
            Action::DeleteProject(id) => (
                Task::RemovingProject,
                Step::Perform(Effect::DeleteProject(id)),
            ),
            Action::CreateDatabase(project, config) => match config.validate() {
                Err(e) => refused(ServiceError::Invalid(e)),
                Ok(()) => (Task::ReadingPorts { project, config }, Step::Perform(Effect::AllocatedPorts)),
            },
            Action::UpdateDatabase(id, config) => match config.validate() {
                Err(e) => refused(ServiceError::Invalid(e)),
                Ok(()) => {
                    let find = Effect::FindDatabase(id.clone());
                    (Task::FindingForUpdate { id, config }, Step::Perform(find))
                },
            },
            Action::Start(id, allow_pull) => {
                let find = Effect::FindDatabase(id.clone());
                (Task::FindingForStart { id, allow_pull }, Step::Perform(find))
            },
            Action::Stop(id) => {
                let find = Effect::FindDatabase(id.clone());
                (Task::FindingForStop { id }, Step::Perform(find))
            },
            Action::DeleteDatabase(id) => {
                let find = Effect::FindDatabase(id.clone());
                (Task::FindingForDelete { id }, Step::Perform(find))
            },
            Action::Dump(id, path, shown) => {
                let find = Effect::FindDatabase(id.clone());
                (Task::FindingForDump { id, path, shown }, Step::Perform(find))
            },
            Action::Restore(id, path) => {
                let find = Effect::FindDatabase(id.clone());
                (Task::FindingForRestore { id, path }, Step::Perform(find))
            },
        }
    }

    /// Hands the answer to the last effect to the task and returns its next step.
    pub fn advance(self, answer: Answer) -> (r: (Task, Step))
        requires
            awaits(self@, answer@),
        ensures
            (r.0@, r.1@) == task_step(self@, answer@),
    {
        match self {
            Task::CreatingProject => match answer {
                Answer::Id(Ok(_)) => completed(Notice::ProjectCreated, None),
                Answer::Id(Err(m)) => refused(ServiceError::Failed(m)),
                _ => refused(ServiceError::Failed(String::new())),
            },
            Task::RenamingProject => match answer {
                Answer::Done(Ok(())) => completed(Notice::ProjectRenamed, None),
                Answer::Done(Err(m)) => refused(ServiceError::Failed(m)),
                _ => refused(ServiceError::Failed(String::new())),
            },
            Task::RemovingProject => match answer {
                Answer::Done(Ok(())) => completed(Notice::ProjectRemoved, None),
                Answer::Done(Err(m)) => refused(ServiceError::Failed(m)),
                _ => refused(ServiceError::Failed(String::new())),
            },
            Task::ReadingPorts { project, config } => match answer {
                Answer::Ports(Ok(ports)) => {
                    let (search, probe) = allocate_port(config.reserved_port, ports);
                    new_port_step(project, config, search, probe)
                },
                Answer::Ports(Err(m)) => refused(ServiceError::Failed(m)),
                _ => refused(ServiceError::Failed(String::new())),
            },
            Task::ChoosingPort { project, config, search } => {
                let (search, probe) = search.advance(answer);
                new_port_step(project, config, search, probe)
            },
            Task::InsertingDatabase => match answer {
                Answer::Id(Ok(id)) => completed(Notice::DatabaseCreated, Some(id)),
                Answer::Id(Err(m)) => refused(ServiceError::Failed(m)),
                _ => refused(ServiceError::Failed(String::new())),
            },
            Task::FindingForUpdate { id, config } => match answer {
                Answer::Found(Ok(db)) => {
                    if same_string(&config.tag, &db.config.tag) && same_string(
                        &config.database,
                        &db.config.database,
                    ) && same_string(&config.user, &db.config.user) {
                        (
                            Task::CheckingForUpdate { id, config, db },
                            Step::Perform(Effect::ContainerStates),
                        )
                    } else {
                        refused(ServiceError::ImmutableSettings)
                    }
                },
                Answer::Found(Err(m)) => refused(ServiceError::Failed(m)),
                _ => refused(ServiceError::Failed(String::new())),
            },
            Task::CheckingForUpdate { id, config, db } => match answer {
                Answer::States(Ok(states)) => {
                    let name = db.container_name();
                    let state = match states.get(name.as_str()) {
                        Some(s) => s,
                        None => ContainerState::NotCreated,
                    };
                    if state.is_active() {
                        refused(ServiceError::StopBeforeEditing)
                    } else {
                        match config.reserved_port {
                            Some(requested) => if requested != db.port {
                                (
                                    Task::ReadingPortsForUpdate { id, config, db, requested },
                                    Step::Perform(Effect::AllocatedPorts),
                                )
                            } else {
                                let port = db.port;
                                let remove = Effect::RemoveContainer(db);
                                (Task::RemovingForUpdate { id, config, port }, Step::Perform(remove))
                            },
                            None => {
                                let port = db.port;
                                let remove = Effect::RemoveContainer(db);
                                (Task::RemovingForUpdate { id, config, port }, Step::Perform(remove))
                            },
                        }
                    }
                },
                Answer::States(Err(m)) => refused(ServiceError::Failed(m)),
                _ => refused(ServiceError::Failed(String::new())),
            },
            Task::ReadingPortsForUpdate { id, config, db, requested } => match answer {
                Answer::Ports(Ok(ports)) => {
                    let (search, probe) = allocate_port(Some(requested), ports);
                    update_port_step(id, config, db, search, probe)
                },
                Answer::Ports(Err(m)) => refused(ServiceError::Failed(m)),
                _ => refused(ServiceError::Failed(String::new())),
            },
            Task::ChoosingPortForUpdate { id, config, db, search } => {
                let (search, probe) = search.advance(answer);
                update_port_step(id, config, db, search, probe)
            },
            Task::RemovingForUpdate { id, config, port } => match answer {
                Answer::Done(Ok(())) => {
                    let save = Effect::UpdateDatabase(id.clone(), config, port);
                    (Task::SavingUpdate { id }, Step::Perform(save))
                },
                Answer::Done(Err(m)) => refused(ServiceError::Failed(m)),
                _ => refused(ServiceError::Failed(String::new())),
            },
            Task::SavingUpdate { id } => match answer {
                Answer::Done(Ok(())) => completed(Notice::SettingsSaved, Some(id)),
                Answer::Done(Err(m)) => refused(ServiceError::Failed(m)),
                _ => refused(ServiceError::Failed(String::new())),
            },
            Task::FindingForStart { id, allow_pull } => match answer {
                Answer::Found(Ok(db)) => (
                    Task::CheckingForStart { id, allow_pull, db },
                    Step::Perform(Effect::ContainerStates),
                ),
                Answer::Found(Err(m)) => refused(ServiceError::Failed(m)),
                _ => refused(ServiceError::Failed(String::new())),
            },
            Task::CheckingForStart { id, allow_pull, db } => match answer {
                Answer::States(Ok(states)) => {
                    let name = db.container_name();
                    let state = match states.get(name.as_str()) {
                        Some(s) => s,
                        None => ContainerState::NotCreated,
                    };
                    if state.is_active() {
                        (Task::Starting { id }, Step::Perform(Effect::StartContainer(db, allow_pull)))
                    } else {
                        let port = db.port;
                        (
                            Task::BindingForStart { id, allow_pull, db },
                            Step::Perform(Effect::BindPort(port)),
                        )
                    }
                },
                Answer::States(Err(m)) => refused(ServiceError::Failed(m)),
                _ => refused(ServiceError::Failed(String::new())),
            },
            Task::BindingForStart { id, allow_pull, db } => match answer {
                Answer::Done(Ok(())) => (
                    Task::Starting { id },
                    Step::Perform(Effect::StartContainer(db, allow_pull)),
                ),
                Answer::Done(Err(reason)) => {
                    let m = port_taken_message(db.port, reason.as_str());
                    refused(ServiceError::Failed(m))
                },
                _ => refused(ServiceError::Failed(String::new())),
            },
            Task::Starting { id } => match answer {
                Answer::Done(Ok(())) => completed(Notice::ContainerStarted, Some(id)),
                Answer::Done(Err(m)) => refused(ServiceError::Failed(m)),
                _ => refused(ServiceError::Failed(String::new())),
            },
            Task::FindingForStop { id } => match answer {
                Answer::Found(Ok(db)) => (Task::Stopping { id }, Step::Perform(Effect::StopContainer(db))),
                Answer::Found(Err(m)) => refused(ServiceError::Failed(m)),
                _ => refused(ServiceError::Failed(String::new())),
            },
            Task::Stopping { id } => match answer {
                Answer::Done(Ok(())) => completed(Notice::DatabaseStopped, Some(id)),
                Answer::Done(Err(m)) => refused(ServiceError::Failed(m)),
                _ => refused(ServiceError::Failed(String::new())),
            },
            Task::FindingForDelete { id } => match answer {
                Answer::Found(Ok(db)) => {
                    let volume = db.volume_name();
                    (
                        Task::RemovingContainer { id, volume },
                        Step::Perform(Effect::RemoveContainer(db)),
                    )
                },
                Answer::Found(Err(m)) => refused(ServiceError::Failed(m)),
                _ => refused(ServiceError::Failed(String::new())),
            },
            Task::RemovingContainer { id, volume } => match answer {
                Answer::Done(Ok(())) => (
                    Task::DeletingRecord { volume },
                    Step::Perform(Effect::DeleteDatabase(id)),
                ),
                Answer::Done(Err(m)) => refused(ServiceError::Failed(m)),
                _ => refused(ServiceError::Failed(String::new())),
            },
            Task::DeletingRecord { volume } => match answer {
                Answer::Done(Ok(())) => completed(Notice::DatabaseRemoved(volume), None),
                Answer::Done(Err(m)) => refused(ServiceError::Failed(m)),
                _ => refused(ServiceError::Failed(String::new())),
            },
            Task::FindingForDump { id, path, shown } => match answer {
                Answer::Found(Ok(db)) => (Task::Dumping { id, shown }, Step::Perform(Effect::Dump(db, path))),
                Answer::Found(Err(m)) => refused(ServiceError::Failed(m)),
                _ => refused(ServiceError::Failed(String::new())),
            },
            Task::Dumping { id, shown } => match answer {
                Answer::Done(Ok(())) => completed(Notice::BackupSaved(shown), Some(id)),
                Answer::Done(Err(m)) => refused(ServiceError::Failed(m)),
                _ => refused(ServiceError::Failed(String::new())),
            },
            Task::FindingForRestore { id, path } => match answer {
                Answer::Found(Ok(db)) => (Task::Restoring { id }, Step::Perform(Effect::Restore(db, path))),
                Answer::Found(Err(m)) => refused(ServiceError::Failed(m)),
                _ => refused(ServiceError::Failed(String::new())),
            },
            Task::Restoring { id } => match answer {
                Answer::Done(Ok(())) => completed(Notice::BackupRestored, Some(id)),
                Answer::Done(Err(m)) => refused(ServiceError::Failed(m)),
                _ => refused(ServiceError::Failed(String::new())),
            },
            Task::Finished => refused(ServiceError::Failed(String::new())),
        }
    }
}

// ---------------------------------------------------------------------------
// Ports
// ---------------------------------------------------------------------------

/// Why a port cannot be used for a database.
#[derive(Clone, Debug, PartialEq, Eq)]
pub enum PortError {
    OutOfRange,
    /// Another Tusklet database reserved it.
    Reserved(u16),
    /// Binding it on 127.0.0.1 failed; the system's reason.
    InUse(u16, String),
    /// No free automatic port was found.
    Exhausted,
    /// Asking the system for a free port failed; its reason.
    System(String),
}

pub enum PortProblem {
    OutOfRange,
    Reserved(u16),
    InUse(u16, Seq<char>),
    Exhausted,
    System(Seq<char>),
}

impl View for PortError {
    type V = PortProblem;

    open spec fn view(&self) -> PortProblem {
        match self {
            PortError::OutOfRange => PortProblem::OutOfRange,
            PortError::Reserved(p) => PortProblem::Reserved(*p),
            PortError::InUse(p, r) => PortProblem::InUse(*p, r@),
            PortError::Exhausted => PortProblem::Exhausted,
            PortError::System(r) => PortProblem::System(r@),
        }
    }
}

pub open spec fn port_problem_text(p: PortProblem) -> Seq<char> {
    match p {
        PortProblem::OutOfRange => "Port must be between 1024 and 65535."@,
        PortProblem::Reserved(port) => "Port "@ + crate::text::decimal(port as nat)
            + " is reserved by another Tusklet database."@,
        PortProblem::InUse(port, reason) => "Port "@ + crate::text::decimal(port as nat)
            + " is already in use.: "@ + reason,
        PortProblem::Exhausted => "Could not find an available port. Choose one explicitly."@,
        PortProblem::System(reason) => reason,
    }
}

impl PortError {
    pub fn message(&self) -> (m: String)
        ensures
            m@ == port_problem_text(self@),
    {
        match self {
            PortError::OutOfRange => String::from_str("Port must be between 1024 and 65535."),
            PortError::Reserved(p) => {
                let mut m = String::from_str("Port ");
                crate::text::push_decimal(&mut m, *p as u64);
                append(&mut m, " is reserved by another Tusklet database.");
                m
            },
            PortError::InUse(p, reason) => {
                let mut m = String::from_str("Port ");
                crate::text::push_decimal(&mut m, *p as u64);
                append(&mut m, " is already in use.: ");
                append(&mut m, reason.as_str());
                m
            },
            PortError::Exhausted => String::from_str(
                "Could not find an available port. Choose one explicitly.",
            ),
            PortError::System(reason) => reason.clone(),
        }
    }
}

fn reserved(port: u16, allocated: &Vec<u16>) -> (b: bool)
    ensures
        b == allocated@.contains(port),
{
    let mut i: usize = 0;
    while i < allocated.len()
        invariant
            i <= allocated.len(),
            forall|k: int| 0 <= k < i ==> allocated@[k] != port,
        decreases allocated.len() - i,
    {
        if allocated[i] == port {
            assert(allocated@[i as int] == port);
            return true;
        }
        i = i + 1;
    }
    false
}

/// A requested port must be at least 1024 and not reserved by another
/// database; whether the system lets it be bound is checked afterwards.
pub fn check_requested_port(port: u16, allocated: &Vec<u16>) -> (r: Result<(), PortError>)
    ensures
        port < 1024 ==> (r matches Err(e) && e@ == PortProblem::OutOfRange),
        port >= 1024 && allocated@.contains(port) ==> (r matches Err(e) && e@
            == PortProblem::Reserved(port)),
        port >= 1024 && !allocated@.contains(port) ==> r is Ok,
{
    if port < 1024 {
        return Err(PortError::OutOfRange);
    }
    if reserved(port, allocated) {
        return Err(PortError::Reserved(port));
    }
    Ok(())
}

/// A port the system offered automatically is taken when it is at least 1024
/// and no other database reserved it.
pub fn usable_port(port: u16, allocated: &Vec<u16>) -> (b: bool)
    ensures
        b == (port >= 1024 && !allocated@.contains(port)),
{
    port >= 1024 && !reserved(port, allocated)
}

/// How many free ports are asked of the system before giving up.
pub const PORT_ATTEMPTS: u32 = 100;

/// The message for a start whose port cannot be bound.
pub open spec fn port_taken_text(port: u16, reason: Seq<char>) -> Seq<char> {
    "Port "@ + crate::text::decimal(port as nat)
        + " is in use by another application. Stop that application or edit the database's port.: "@
        + reason
}

pub fn port_taken_message(port: u16, reason: &str) -> (m: String)
    ensures
        m@ == port_taken_text(port, reason@),
{
    let mut m = String::from_str("Port ");
    crate::text::push_decimal(&mut m, port as u64);
    append(
        &mut m,
        " is in use by another application. Stop that application or edit the database's port.: ",
    );
    append(&mut m, reason);
    m
}

/// A search for a database's port, as a mathematical value.
pub struct Search {
    pub requested: Option<u16>,
    pub allocated: Seq<u16>,
    /// How many ports the system offered that could not be used.
    pub attempts: u32,
}

/// What a search asks next, or what it chose.
pub enum Probing {
    /// Bind this port on 127.0.0.1 (answered with `Done`: the system's reason
    /// on failure).
    Bind(u16),
    /// Ask the system for a free port on 127.0.0.1 (answered with `Port`).
    Offer,
    Chosen(Result<u16, PortProblem>),
}

/// A requested port is first checked against the reserved ports, then bound;
/// otherwise the system is asked for ports.
pub open spec fn search_begin(requested: Option<u16>, allocated: Seq<u16>) -> (Search, Probing) {
    let s = Search { requested, allocated, attempts: 0 };
    match requested {
        Some(p) => if p < 1024 {
            (s, Probing::Chosen(Err(PortProblem::OutOfRange)))
        } else if allocated.contains(p) {
            (s, Probing::Chosen(Err(PortProblem::Reserved(p))))
        } else {
            (s, Probing::Bind(p))
        },
        None => (s, Probing::Offer),
    }
}

/// The answer a search waits for: the bind of a requested port, or an
/// offered port.
pub open spec fn search_awaits(s: Search, r: Reported) -> bool {
    if s.requested is Some {
        r is Done
    } else {
        r is Port
    }
}

/// The value of a step that `PortSearch::advance` never takes.
pub open spec fn search_unheard(s: Search) -> (Search, Probing) {
    (s, Probing::Chosen(Err(PortProblem::System(Seq::empty()))))
}

/// A bound requested port is chosen; an offered port is chosen when it is at
/// least 1024 and not reserved, and otherwise another one is asked for, up to
/// `PORT_ATTEMPTS` offers in all.
pub open spec fn search_step(s: Search, r: Reported) -> (Search, Probing) {
    match s.requested {
        Some(p) => match r {
            Reported::Done(Ok(())) => (s, Probing::Chosen(Ok(p))),
            Reported::Done(Err(reason)) => (s, Probing::Chosen(Err(PortProblem::InUse(p, reason)))),
            _ => search_unheard(s),
        },
        None => match r {
            Reported::Port(Err(reason)) => (s, Probing::Chosen(Err(PortProblem::System(reason)))),
            Reported::Port(Ok(q)) => if q >= 1024 && !s.allocated.contains(q) {
                (s, Probing::Chosen(Ok(q)))
            } else if s.attempts + 1 >= PORT_ATTEMPTS {
                (s, Probing::Chosen(Err(PortProblem::Exhausted)))
            } else {
                (Search { attempts: (s.attempts + 1) as u32, ..s }, Probing::Offer)
            },
            _ => search_unheard(s),
        },
    }
}

/// A search that is still running: a requested port passed the checks, and
/// fewer than `PORT_ATTEMPTS` offers were refused.
pub open spec fn search_ok(s: Search) -> bool {
    &&& (s.requested matches Some(p) ==> p >= 1024 && !s.allocated.contains(p))
    &&& s.attempts < PORT_ATTEMPTS
}

/// A search for a database's port in progress (see [`allocate_port`]).
pub struct PortSearch {
    pub requested: Option<u16>,
    pub allocated: Vec<u16>,
    pub attempts: u32,
}

impl View for PortSearch {
    type V = Search;

    open spec fn view(&self) -> Search {
        Search { requested: self.requested, allocated: self.allocated@, attempts: self.attempts }
    }
}

/// What a port search asks next, or what it chose.
pub enum Probe {
    Bind(u16),
    Offer,
    Chosen(Result<u16, PortError>),
}

impl View for Probe {
    type V = Probing;

    open spec fn view(&self) -> Probing {
        match self {
            Probe::Bind(p) => Probing::Bind(*p),
            Probe::Offer => Probing::Offer,
            Probe::Chosen(Ok(p)) => Probing::Chosen(Ok(*p)),
            Probe::Chosen(Err(e)) => Probing::Chosen(Err(e@)),
        }
    }
}

/// Begins choosing a port for a database: the requested one when it is at
/// least 1024, not reserved by another database and can be bound; without a
/// request, one that the system offers and no other database reserved.
pub fn allocate_port(requested: Option<u16>, allocated: Vec<u16>) -> (r: (PortSearch, Probe))
    ensures
        (r.0@, r.1@) == search_begin(requested, allocated@),
{
    let probe = match requested {
        Some(p) => match check_requested_port(p, &allocated) {
            Err(e) => Probe::Chosen(Err(e)),
            Ok(()) => Probe::Bind(p),
        },
        None => Probe::Offer,
    };
    (PortSearch { requested, allocated, attempts: 0 }, probe)
}

impl PortSearch {
    /// Whether `answer` is the kind of answer the search waits for.
    pub fn expects(&self, answer: &Answer) -> (b: bool)
        ensures
            b == search_awaits(self@, answer@),
    {
        match self.requested {
            Some(_) => matches!(answer, Answer::Done(_)),
            None => matches!(answer, Answer::Port(_)),
        }
    }

    /// Hands the answer to the last probe to the search.
    pub fn advance(self, answer: Answer) -> (r: (PortSearch, Probe))
        requires
            search_awaits(self@, answer@),
        ensures
            (r.0@, r.1@) == search_step(self@, answer@),
    {
        match self.requested {
            Some(p) => match answer {
                Answer::Done(Ok(())) => (self, Probe::Chosen(Ok(p))),
                Answer::Done(Err(reason)) => (self, Probe::Chosen(Err(PortError::InUse(p, reason)))),
                _ => (self, Probe::Chosen(Err(PortError::System(String::new())))),
            },
            None => match answer {
                Answer::Port(Err(reason)) => (self, Probe::Chosen(Err(PortError::System(reason)))),
                Answer::Port(Ok(q)) => if usable_port(q, &self.allocated) {
                    (self, Probe::Chosen(Ok(q)))
                } else if self.attempts >= PORT_ATTEMPTS - 1 {
                    (self, Probe::Chosen(Err(PortError::Exhausted)))
                } else {
                    let PortSearch { requested, allocated, attempts } = self;
                    (PortSearch { requested, allocated, attempts: attempts + 1 }, Probe::Offer)
                },
                _ => (self, Probe::Chosen(Err(PortError::System(String::new())))),
            },
        }
    }
}

// ---------------------------------------------------------------------------
// Snapshots
// ---------------------------------------------------------------------------

/// The state shown for a database: what Docker lists (not created when it is
/// not listed), or unknown when Docker could not be asked.
pub open spec fn shown_state(
    states: Result<Map<Seq<char>, ContainerState>, crate::docker::DockerFailure>,
    db: AbstractDatabase,
) -> ContainerState {
    match states {
        Ok(m) => listed_state(m, db),
        Err(_) => ContainerState::Unknown,
    }
}

pub open spec fn states_heard(r: Result<ContainerStates, crate::docker::DockerError>) -> Result<
    Map<Seq<char>, ContainerState>,
    crate::docker::DockerFailure,
> {
    match r {
        Ok(s) => Ok(s.map()),
        Err(e) => Err(e@),
    }
}

/// `s` holds the saved projects and databases with each database's state, no
/// images or logs yet, and Docker's failure to list the containers, if any.
pub open spec fn composed(
    s: Snapshot,
    projects: Vec<crate::model::Project>,
    databases: Vec<Database>,
    states: Result<ContainerStates, crate::docker::DockerError>,
) -> bool {
    &&& s.projects == projects
    &&& s.databases@.len() == databases@.len()
    &&& forall|i: int|
        0 <= i < databases@.len() ==> (#[trigger] s.databases@[i]).database@ == databases@[i]@
            && s.databases@[i].state == shown_state(states_heard(states), databases@[i]@)
    &&& s.images@.len() == 0
    &&& match states {
        Ok(_) => s.docker_error is None,
        Err(e) => s.docker_error matches Some(m) && m@ == crate::docker::failure_text(e@),
    }
    &&& s.logs@.len() == 0
}

/// Workspace metadata with each database's state. A Docker failure does not
/// hide the saved projects and databases: it is reported in `docker_error` and
/// every state is unknown.
pub fn compose_snapshot(
    projects: Vec<crate::model::Project>,
    databases: Vec<Database>,
    states: &Result<ContainerStates, crate::docker::DockerError>,
) -> (s: Snapshot)
    ensures
        composed(s, projects, databases, *states),
{
    let mut views: Vec<crate::model::DatabaseView> = Vec::new();
    let mut i: usize = 0;
    while i < databases.len()
        invariant
            i <= databases.len(),
            views@.len() == i,
            forall|k: int|
                0 <= k < i ==> (#[trigger] views@[k]).database@ == databases@[k]@ && views@[k].state
                    == shown_state(states_heard(*states), databases@[k]@),
        decreases databases.len() - i,
    {
        let db = databases[i].duplicate();
        let state = match states {
            Ok(s) => {
                let name = db.container_name();
                match s.get(name.as_str()) {
                    Some(st) => st,
                    None => ContainerState::NotCreated,
                }
            },
            Err(_) => ContainerState::Unknown,
        };
        views.push(crate::model::DatabaseView { database: db, state });
        i = i + 1;
    }
    let docker_error = match states {
        Ok(_) => None,
        Err(e) => Some(e.message()),
    };
    Snapshot { projects, databases: views, images: Vec::new(), docker_error, logs: String::new() }
}

/// Records the cached images, or the failure to list them.
pub fn add_images(snapshot: &mut Snapshot, images: Result<Vec<String>, crate::docker::DockerError>)
    ensures
        final(snapshot).projects == old(snapshot).projects,
        final(snapshot).databases == old(snapshot).databases,
        final(snapshot).logs == old(snapshot).logs,
        match images {
            Ok(v) => final(snapshot).images == v && final(snapshot).docker_error == old(
                snapshot,
            ).docker_error,
            Err(e) => {
                &&& final(snapshot).images == old(snapshot).images
                &&& (final(snapshot).docker_error matches Some(m) && m@
                    == crate::docker::failure_text(e@))
            },
        },
{
    match images {
        Ok(v) => {
            snapshot.images = v;
        },
        Err(e) => {
            snapshot.docker_error = Some(e.message());
        },
    }
}

/// Index of the first view of the database `id`, or the number of views.
pub open spec fn position_of(views: Seq<crate::model::DatabaseView>, id: Seq<char>) -> int
    decreases views.len(),
{
    if views.len() == 0 {
        0
    } else if views[0].database.id@ == id {
        0
    } else {
        1 + position_of(views.drop_first(), id)
    }
}

proof fn lemma_position_of(views: Seq<crate::model::DatabaseView>, id: Seq<char>, i: int)
    requires
        0 <= i <= views.len(),
        forall|k: int| 0 <= k < i ==> (#[trigger] views[k]).database.id@ != id,
    ensures
        position_of(views, id) == i + position_of(views.skip(i), id),
    decreases i,
{
    if i > 0 {
        assert(views.drop_first().skip(i - 1) == views.skip(i));
        assert forall|k: int| 0 <= k < i - 1 implies (#[trigger] views.drop_first()[k]).database.id@ != id by {
            assert(views.drop_first()[k] == views[k + 1]);
        }
        lemma_position_of(views.drop_first(), id, i - 1);
    } else {
        assert(views.skip(0) == views);
    }
}

/// Logs are read for the selected database when following is on and its
/// container exists.
pub open spec fn logs_wanted(views: Seq<crate::model::DatabaseView>, selected: Option<Seq<char>>, follow: bool) -> Option<int> {
    match selected {
        Some(id) => {
            let k = position_of(views, id);
            if follow && k < views.len() && views[k].state != ContainerState::NotCreated {
                Some(k)
            } else {
                None
            }
        },
        None => None,
    }
}

/// The logs that are read belong to the selected database: the index that
/// `logs_wanted` gives lies in the list and names a database with that id whose
/// container exists, and following is on.
pub proof fn wanted_logs_are_the_selected_database(views: Seq<crate::model::DatabaseView>, id: Seq<char>, follow: bool)
    ensures
        logs_wanted(views, Some(id), follow) matches Some(k) ==> (follow && 0 <= k < views.len()
            && views[k].database.id@ == id && views[k].state != ContainerState::NotCreated),
    decreases views.len(),
{
    lemma_position_names(views, id);
}

/// While following, the logs of the selected database are read whenever its
/// container exists (running or stopped): the first view with that id decides,
/// and nothing is read when no view has it or following is off.
pub proof fn followed_logs_are_read_for_existing_containers(views: Seq<crate::model::DatabaseView>, id: Seq<char>, k: int)
    ensures
        logs_wanted(views, Some(id), false) is None,
        logs_wanted(views, None, true) is None,
        (0 <= k < views.len() && views[k].database.id@ == id && (forall|j: int|
            0 <= j < k ==> (#[trigger] views[j]).database.id@ != id)) ==> logs_wanted(
            views,
            Some(id),
            true,
        ) == if views[k].state == ContainerState::NotCreated {
            None
        } else {
            Some(k)
        },
        (forall|j: int| 0 <= j < views.len() ==> (#[trigger] views[j]).database.id@ != id)
            ==> logs_wanted(views, Some(id), true) is None,
{
    if 0 <= k < views.len() && views[k].database.id@ == id && (forall|j: int|
        0 <= j < k ==> (#[trigger] views[j]).database.id@ != id) {
        lemma_position_of(views, id, k);
        assert(views.skip(k)[0] == views[k]);
    }
    if forall|j: int| 0 <= j < views.len() ==> (#[trigger] views[j]).database.id@ != id {
        lemma_position_of(views, id, views.len() as int);
        assert(views.skip(views.len() as int).len() == 0);
    }
}

/// `position_of` is either past the end or the index of a view with that id.
proof fn lemma_position_names(views: Seq<crate::model::DatabaseView>, id: Seq<char>)
    ensures
        0 <= position_of(views, id) <= views.len(),
        position_of(views, id) < views.len() ==> views[position_of(views, id)].database.id@ == id,
    decreases views.len(),
{
    if views.len() > 0 && views[0].database.id@ != id {
        lemma_position_names(views.drop_first(), id);
        let k = position_of(views.drop_first(), id);
        if k < views.drop_first().len() {
            assert(views.drop_first()[k] == views[1 + k]);
        }
    }
}

pub fn logs_target(snapshot: &Snapshot, selected: &Option<String>, follow: bool) -> (r: Option<usize>)
    ensures
        match r {
            Some(k) => logs_wanted(
                snapshot.databases@,
                match selected {
                    Some(s) => Some(s@),
                    None => None,
                },
                follow,
            ) == Some(k as int),
            None => logs_wanted(
                snapshot.databases@,
                match selected {
                    Some(s) => Some(s@),
                    None => None,
                },
                follow,
            ) is None,
        },
{
    match selected {
        None => None,
        Some(id) => {
            let ghost views = snapshot.databases@;
            let mut i: usize = 0;
            while i < snapshot.databases.len()
                invariant
                    i <= views.len(),
                    views == snapshot.databases@,
                    *selected == Some(*id),
                    forall|k: int| 0 <= k < i ==> (#[trigger] views[k]).database.id@ != id@,
                decreases views.len() - i,
            {
                if same_string(&snapshot.databases[i].database.id, id) {
                    proof {
                        lemma_position_of(views, id@, i as int);
                        assert(views.skip(i as int)[0] == views[i as int]);
                        assert(position_of(views.skip(i as int), id@) == 0);
                    }
                    if follow && snapshot.databases[i].state != ContainerState::NotCreated {
                        return Some(i);
                    } else {
                        return None;
                    }
                }
                i = i + 1;
            }
            proof {
                lemma_position_of(views, id@, i as int);
            }
            None
        },
    }
}

/// What a snapshot still needs from Docker.
pub enum Refresh {
    /// The cached images (`images_listed`).
    Images,
    /// The logs of the database at this index of `databases` (`add_logs`).
    Logs(usize),
    /// Nothing more.
    Ready,
}

/// Begins a snapshot from the saved metadata and Docker's answer on the
/// containers: only when Docker listed them are the cached images (and then
/// the followed logs) asked for.
pub fn begin_snapshot(
    projects: Vec<crate::model::Project>,
    databases: Vec<Database>,
    states: Result<ContainerStates, crate::docker::DockerError>,
) -> (r: (Snapshot, Refresh))
    ensures
        composed(r.0, projects, databases, states),
        states is Ok ==> r.1 is Images,
        states is Err ==> r.1 is Ready,
{
    let s = compose_snapshot(projects, databases, &states);
    match states {
        Ok(_) => (s, Refresh::Images),
        Err(_) => (s, Refresh::Ready),
    }
}

/// Records the cached images (or the failure to list them) and says whether
/// logs are wanted: those of the selected database, while following, once its
/// container exists.
pub fn images_listed(
    snapshot: &mut Snapshot,
    images: Result<Vec<String>, crate::docker::DockerError>,
    selected: &Option<String>,
    follow: bool,
) -> (r: Refresh)
    ensures
        final(snapshot).projects == old(snapshot).projects,
        final(snapshot).databases == old(snapshot).databases,
        final(snapshot).logs == old(snapshot).logs,
        match images {
            Ok(v) => final(snapshot).images == v && final(snapshot).docker_error == old(
                snapshot,
            ).docker_error,
            Err(e) => {
                &&& final(snapshot).images == old(snapshot).images
                &&& (final(snapshot).docker_error matches Some(m) && m@
                    == crate::docker::failure_text(e@))
            },
        },
        match logs_wanted(
            old(snapshot).databases@,
            match selected {
                Some(s) => Some(s@),
                None => None,
            },
            follow,
        ) {
            Some(k) => r == Refresh::Logs(k as usize),
            None => r is Ready,
        },
{
    add_images(snapshot, images);
    match logs_target(snapshot, selected, follow) {
        Some(k) => Refresh::Logs(k),
        None => Refresh::Ready,
    }
}

/// Records the logs that were read, or why they could not be read.
pub fn add_logs(snapshot: &mut Snapshot, logs: Result<String, crate::docker::DockerError>)
    ensures
        final(snapshot).projects == old(snapshot).projects,
        final(snapshot).databases == old(snapshot).databases,
        final(snapshot).images == old(snapshot).images,
        final(snapshot).docker_error == old(snapshot).docker_error,
        match logs {
            Ok(t) => final(snapshot).logs@ == t@,
            Err(e) => final(snapshot).logs@ == "Could not read logs: "@ + crate::docker::failure_text(
                e@,
            ),
        },
{
    match logs {
        Ok(t) => {
            snapshot.logs = t;
        },
        Err(e) => {
            let mut m = String::from_str("Could not read logs: ");
            let text = e.message();
            append(&mut m, text.as_str());
            snapshot.logs = m;
        },
    }
}

// ---------------------------------------------------------------------------
// The background worker
// ---------------------------------------------------------------------------

/// The worker sends fresh workspace data (and the followed logs) at least
/// this often, in seconds.
pub const REFRESH_SECS: u64 = 2;

/// What the background worker remembers between requests: the database whose
/// logs it reads, whether it follows them, and the outcome of an action that
/// it has yet to report.
pub struct Worker {
    pub selected: Option<String>,
    pub follow: bool,
    /// An action's message (or error) and the database it selects.
    pub pending: Option<(Result<String, String>, Option<String>)>,
}

/// What the worker does after taking a request.
pub enum Chore {
    /// Send fresh workspace data (`Worker::refreshed`).
    Refresh,
    /// Run the action, record its outcome (`Worker::completed`), then send
    /// fresh workspace data.
    Execute(Action),
}

impl Worker {
    /// Nothing selected; logs are followed.
    pub fn new() -> (w: Worker)
        ensures
            w.selected is None,
            w.follow,
            w.pending is None,
    {
        Worker { selected: None, follow: true, pending: None }
    }

    /// A selection replaces the selected database and the follow setting; an
    /// action is run; a refresh only refreshes.
    pub fn receive(&mut self, request: Request) -> (c: Chore)
        ensures
            match request {
                Request::Select(id, enabled) => {
                    &&& final(self).selected == id
                    &&& final(self).follow == enabled
                    &&& final(self).pending == old(self).pending
                    &&& c is Refresh
                },
                Request::Execute(action) => *final(self) == *old(self) && c == Chore::Execute(
                    action,
                ),
                Request::Refresh => *final(self) == *old(self) && c is Refresh,
            },
    {
        match request {
            Request::Select(id, enabled) => {
                self.selected = id;
                self.follow = enabled;
                Chore::Refresh
            },
            Request::Execute(action) => Chore::Execute(action),
            Request::Refresh => Chore::Refresh,
        }
    }

    /// After an action: the database it names becomes the selected one, and
    /// its message (or error) and that database wait to be reported.
    pub fn completed(&mut self, result: Result<(String, Option<String>), String>)
        ensures
            final(self).follow == old(self).follow,
            match result {
                Ok((message, Some(id))) => {
                    &&& final(self).selected == Some(id)
                    &&& final(self).pending == Some(
                        (Ok::<String, String>(message), Some(id)),
                    )
                },
                Ok((message, None)) => {
                    &&& final(self).selected == old(self).selected
                    &&& final(self).pending == Some(
                        (Ok::<String, String>(message), None::<String>),
                    )
                },
                Err(e) => {
                    &&& final(self).selected == old(self).selected
                    &&& final(self).pending == Some((Err::<String, String>(e), None::<String>))
                },
            },
    {
        match result {
            Ok((message, Some(id))) => {
                self.selected = Some(id.clone());
                self.pending = Some((Ok(message), Some(id)));
            },
            Ok((message, None)) => {
                self.pending = Some((Ok(message), None));
            },
            Err(e) => {
                self.pending = Some((Err(e), None));
            },
        }
    }

    /// The events to send once fresh workspace data was read (or could not
    /// be). After an action, the fresh data goes first, with the action's
    /// database as the selection, so that it can be selected at once; then
    /// the action's outcome; data that could not be read is then passed
    /// over. Without an action, the data is sent, or the failure to read it.
    pub fn refreshed(&mut self, snapshot: Result<Snapshot, String>) -> (events: Vec<Event>)
        ensures
            final(self).selected == old(self).selected,
            final(self).follow == old(self).follow,
            final(self).pending is None,
            match (old(self).pending, snapshot) {
                (Some((result, selection)), Ok(s)) => {
                    &&& events@.len() == 2
                    &&& events@[0] matches Event::Snapshot(b, logs_of) && *b == s && logs_of
                        == old(self).selected
                    &&& events@[1] == Event::Completed(result, selection)
                },
                (Some((result, selection)), Err(_)) => {
                    &&& events@.len() == 1
                    &&& events@[0] == Event::Completed(result, selection)
                },
                (None, Ok(s)) => {
                    &&& events@.len() == 1
                    &&& events@[0] matches Event::Snapshot(b, logs_of) && *b == s && logs_of
                        == old(self).selected
                },
                (None, Err(e)) => events@.len() == 1 && events@[0] == Event::Fatal(e),
            },
    {
        let mut events: Vec<Event> = Vec::new();
        let pending = self.pending.take();
        match pending {
            Some((result, selection)) => {
                if let Ok(s) = snapshot {
                    events.push(Event::Snapshot(Box::new(s), self.selected.clone()));
                }
                events.push(Event::Completed(result, selection));
            },
            None => match snapshot {
                Ok(s) => events.push(Event::Snapshot(Box::new(s), self.selected.clone())),
                Err(e) => events.push(Event::Fatal(e)),
            },
        }
        events
    }
}

// ---------------------------------------------------------------------------
// Laws
// ---------------------------------------------------------------------------

/// What the phases of a task carry: a configuration that passed validation,
/// for an update one that keeps the saved image tag, database and user, and
/// a running port search for the port the configuration requests.
pub open spec fn consistent(t: Phase) -> bool {
    match t {
        Phase::ReadingPorts { config, .. } | Phase::FindingForUpdate { config, .. }
        | Phase::RemovingForUpdate { config, .. } => config_rejection(config) is None,
        Phase::ChoosingPort { config, search, .. } => config_rejection(config) is None
            && search.requested == config.reserved_port && search_ok(search),
        Phase::CheckingForUpdate { config, db, .. } => config_rejection(config) is None
            && keeps_identity(config, db),
        Phase::ReadingPortsForUpdate { config, db, requested, .. } => config_rejection(config)
            is None && keeps_identity(config, db) && config.reserved_port == Some(requested),
        Phase::ChoosingPortForUpdate { config, db, search, .. } => config_rejection(config)
            is None && keeps_identity(config, db) && search.requested == config.reserved_port
            && search.requested is Some && search_ok(search),
        _ => true,
    }
}

/// Every task begins consistent, and each step keeps it so.
pub proof fn tasks_stay_consistent(a: Intent, t: Phase, r: Reported)
    requires
        consistent(t),
        awaits(t, r),
    ensures
        consistent(task_begin(a).0),
        consistent(task_step(t, r).0),
{
}

/// Only validated configurations are written to the store.
pub proof fn stored_configurations_are_valid(t: Phase, r: Reported)
    requires
        consistent(t),
        awaits(t, r),
    ensures
        task_step(t, r).1 matches Move::Perform(Job::InsertDatabase(_, c, _)) ==> config_rejection(c) is None,
        task_step(t, r).1 matches Move::Perform(Job::UpdateDatabase(_, c, _)) ==> config_rejection(c) is None,
{
}

/// Settings are saved only after the old container was removed (which
/// Docker refuses for a running one), and an update that would change the image
/// tag, initial database or user, or that finds the container active, is
/// refused.
pub proof fn settings_change_only_for_stopped_databases(t: Phase, r: Reported)
    requires
        awaits(t, r),
    ensures
        task_step(t, r).1 matches Move::Perform(Job::UpdateDatabase(..)) ==> (t is RemovingForUpdate
            && r is Done && r->Done_0 is Ok),
        (t matches Phase::FindingForUpdate { config, .. } && (r matches Reported::Found(Ok(db))
            && !keeps_identity(config, db))) ==> task_step(t, r) == complete_err(
            Failure::ImmutableSettings,
        ),
        (t matches Phase::CheckingForUpdate { db, .. } && (r matches Reported::States(Ok(m))
            && active(listed_state(m, db)))) ==> task_step(t, r) == complete_err(
            Failure::StopBeforeEditing,
        ),
{
    match t {
        Phase::Finished => {},
        _ => {},
    }
}

/// A stopped database is started only once its port could be bound; a
/// database that is already running is started without that check.
pub proof fn start_follows_port_check(t: Phase, r: Reported)
    requires
        awaits(t, r),
    ensures
        task_step(t, r).1 matches Move::Perform(Job::StartContainer(..)) ==> ((t is BindingForStart
            && r is Done && r->Done_0 is Ok) || (t matches Phase::CheckingForStart { db, .. } && (r matches Reported::States(Ok(m))
            && active(listed_state(m, db))))),
{
    match t {
        Phase::Finished => {},
        _ => {},
    }
}

/// A database's record is deleted only after its container was removed.
pub proof fn record_deleted_after_container(t: Phase, r: Reported)
    requires
        awaits(t, r),
    ensures
        task_step(t, r).1 matches Move::Perform(Job::DeleteDatabase(_)) ==> (t is RemovingContainer
            && r is Done && r->Done_0 is Ok),
{
    match t {
        Phase::Finished => {},
        _ => {},
    }
}

/// The phases that bind a port on 127.0.0.1.
pub open spec fn binding(t: Phase) -> bool {
    t is BindingForStart || t is ChoosingPort || t is ChoosingPortForUpdate
}

/// Any failed step ends the task with that step's message; a failed bind
/// with the message about its port and the system's reason.
pub proof fn failures_end_the_task(t: Phase, r: Reported)
    requires
        awaits(t, r),
    ensures
        !binding(t) ==> (r matches Reported::Done(Err(m)) ==> task_step(t, r) == complete_err(
            Failure::Failed(m),
        )),
        t matches Phase::BindingForStart { db, .. } ==> (r matches Reported::Done(Err(m))
            ==> task_step(t, r) == complete_err(Failure::Failed(port_taken_text(db.port, m)))),
        t matches Phase::ChoosingPort { search, .. } ==> (r matches Reported::Done(Err(m)) ==> (
        search.requested matches Some(p) && task_step(t, r) == complete_err(
            Failure::Failed(port_problem_text(PortProblem::InUse(p, m))),
        ))),
        t matches Phase::ChoosingPortForUpdate { search, .. } ==> (r matches Reported::Done(Err(m))
            ==> (search.requested matches Some(p) && task_step(t, r) == complete_err(
            Failure::Failed(port_problem_text(PortProblem::InUse(p, m))),
        ))),
        r matches Reported::Id(Err(m)) ==> task_step(t, r) == complete_err(Failure::Failed(m)),
        r matches Reported::Ports(Err(m)) ==> task_step(t, r) == complete_err(Failure::Failed(m)),
        r matches Reported::Port(Err(m)) ==> task_step(t, r) == complete_err(Failure::Failed(m)),
        r matches Reported::Found(Err(m)) ==> task_step(t, r) == complete_err(Failure::Failed(m)),
        r matches Reported::States(Err(m)) ==> task_step(t, r) == complete_err(Failure::Failed(m)),
{
}

/// A new database is saved only on a port of at least 1024 that no saved
/// database reserved: the requested one once it could be bound, or else one
/// the system offered. The search starts from every reserved port.
pub proof fn new_databases_take_a_free_unreserved_port(t: Phase, r: Reported)
    requires
        consistent(t),
        awaits(t, r),
    ensures
        t matches Phase::ReadingPorts { config, .. } ==> (r matches Reported::Ports(Ok(ps)) ==> (
        task_step(t, r).0 matches Phase::ChoosingPort { search, .. } ==> search == (Search {
            requested: config.reserved_port,
            allocated: ps,
            attempts: 0,
        }))),
        task_step(t, r).1 matches Move::Perform(Job::InsertDatabase(project, c, port)) ==> (
        t matches Phase::ChoosingPort { project: p0, config, search } && project == p0 && c
            == config && port >= 1024 && !search.allocated.contains(port) && match config.reserved_port {
            Some(q) => port == q && r is Done && r->Done_0 is Ok,
            None => r == Reported::Port(Ok(port)),
        }),
{
    match t {
        Phase::ChoosingPort { search, .. } => {
            searches_choose_free_unreserved_ports(None, Seq::empty(), search, r);
        },
        Phase::ReadingPorts { .. } => {},
        _ => {},
    }
}

/// An update saves a newly requested port only when it is at least 1024, no
/// other database reserved it, and it could be bound.
pub proof fn updates_take_a_free_unreserved_port(t: Phase, r: Reported)
    requires
        consistent(t),
        awaits(t, r),
    ensures
        t matches Phase::ReadingPortsForUpdate { requested, .. } ==> (r matches Reported::Ports(Ok(ps))
            ==> (task_step(t, r).0 matches Phase::ChoosingPortForUpdate { search, .. } ==> search
            == (Search { requested: Some(requested), allocated: ps, attempts: 0 }))),
        (t is ChoosingPortForUpdate && task_step(t, r).0 is RemovingForUpdate) ==> (t matches Phase::ChoosingPortForUpdate {
            config,
            search,
            ..
        } && task_step(t, r).0 matches Phase::RemovingForUpdate { port, .. } && port >= 1024
            && !search.allocated.contains(port) && config.reserved_port == Some(port) && r is Done
            && r->Done_0 is Ok),
{
    match t {
        Phase::ChoosingPortForUpdate { search, .. } => {
            searches_choose_free_unreserved_ports(None, Seq::empty(), search, r);
        },
        Phase::ReadingPortsForUpdate { .. } => {},
        _ => {},
    }
}

/// A port search never chooses a port under 1024 or one another database
/// reserved; a requested port is chosen only once bound, and after
/// `PORT_ATTEMPTS` unusable offers the search gives up.
pub proof fn searches_choose_free_unreserved_ports(requested: Option<u16>, allocated: Seq<u16>, s: Search, r: Reported)
    requires
        search_ok(s),
        search_awaits(s, r),
    ensures
        !(search_begin(requested, allocated).1 is Chosen) ==> search_ok(
            search_begin(requested, allocated).0,
        ),
        requested matches Some(p) ==> (search_begin(requested, allocated).1 == Probing::Bind(p)
            <==> (p >= 1024 && !allocated.contains(p))),
        !(search_step(s, r).1 is Chosen) ==> search_ok(search_step(s, r).0),
        search_step(s, r).1 matches Probing::Chosen(Ok(q)) ==> q >= 1024 && !s.allocated.contains(q),
        s.requested matches Some(p) ==> (search_step(s, r).1 matches Probing::Chosen(Ok(q)) ==> q
            == p && r is Done && r->Done_0 is Ok),
        s.requested is None ==> (search_step(s, r).1 matches Probing::Chosen(Ok(q)) ==> r
            == Reported::Port(Ok(q))),
        (s.requested is None && s.attempts + 1 == PORT_ATTEMPTS && (r matches Reported::Port(Ok(q))
            && !(q >= 1024 && !s.allocated.contains(q)))) ==> search_step(s, r).1
            == Probing::Chosen(Err(PortProblem::Exhausted)),
{
    match s.requested {
        Some(p) => match r {
            Reported::Done(Ok(())) => {
                assert(search_step(s, r).1 == Probing::Chosen(Ok::<u16, PortProblem>(p)));
                assert(p >= 1024 && !s.allocated.contains(p));
            },
            Reported::Done(Err(m)) => {
                assert(search_step(s, r).1 == Probing::Chosen(Err::<u16, PortProblem>(PortProblem::InUse(p, m))));
            },
            _ => {},
        },
        None => match r {
            Reported::Port(Ok(q)) => {},
            _ => {},
        },
    }
}

/// Stopping a found database asks Docker to stop exactly that database's
/// container; the stop is announced only after Docker stopped it.
pub proof fn stops_are_announced_after_docker_stopped(id: Seq<char>, db: AbstractDatabase, t: Phase, r: Reported)
    requires
        awaits(t, r),
    ensures
        task_step(Phase::FindingForStop { id }, Reported::Found(Ok(db))) == (
            Phase::Stopping { id },
            Move::Perform(Job::StopContainer(db)),
        ),
        task_step(t, r).1 matches Move::Complete(Ok((Announcement::DatabaseStopped, _))) ==> (t
            == Phase::Stopping { id: t->Stopping_id } && r is Done && r->Done_0 is Ok),
{
}

/// Every success is announced only after the store or Docker did the work it
/// names: each announcement comes from one phase on a successful answer.
pub proof fn successes_follow_the_work(t: Phase, r: Reported)
    requires
        awaits(t, r),
    ensures
        task_step(t, r).1 matches Move::Complete(Ok((a, _))) ==> match a {
            Announcement::ProjectCreated => t is CreatingProject && r is Id && r->Id_0 is Ok,
            Announcement::ProjectRenamed => t is RenamingProject && r is Done && r->Done_0 is Ok,
            Announcement::ProjectRemoved => t is RemovingProject && r is Done && r->Done_0 is Ok,
            Announcement::DatabaseCreated => t is InsertingDatabase && r is Id && r->Id_0 is Ok,
            Announcement::SettingsSaved => t is SavingUpdate && r is Done && r->Done_0 is Ok,
            Announcement::ContainerStarted => t is Starting && r is Done && r->Done_0 is Ok,
            Announcement::DatabaseStopped => t is Stopping && r is Done && r->Done_0 is Ok,
            Announcement::DatabaseRemoved(_) => t is DeletingRecord && r is Done && r->Done_0 is Ok,
            Announcement::BackupSaved(_) => t is Dumping && r is Done && r->Done_0 is Ok,
            Announcement::BackupRestored => t is Restoring && r is Done && r->Done_0 is Ok,
        },
{
    match t {
        Phase::Finished => {},
        _ => {},
    }
}

/// An update that keeps the image tag, the initial database and the user goes
/// on to check the container, whatever else it changes (display name, port,
/// PostgreSQL arguments); one that changes any of the three is refused.
pub proof fn updates_may_change_all_but_the_identity(id: Seq<char>, config: AbstractConfig, db: AbstractDatabase)
    ensures
        (config.tag == db.config.tag && config.database == db.config.database && config.user
            == db.config.user) ==> task_step(
            Phase::FindingForUpdate { id, config },
            Reported::Found(Ok(db)),
        ) == (Phase::CheckingForUpdate { id, config, db }, Move::Perform(Job::ContainerStates)),
        !(config.tag == db.config.tag && config.database == db.config.database && config.user
            == db.config.user) ==> task_step(
            Phase::FindingForUpdate { id, config },
            Reported::Found(Ok(db)),
        ) == complete_err(Failure::ImmutableSettings),
{
}

/// The phases of a start.
pub open spec fn starting(t: Phase) -> bool {
    t is FindingForStart || t is CheckingForStart || t is BindingForStart || t is Starting
}

/// A start never moves a database to another port: it saves, allocates or
/// deletes nothing, binds the saved port, and starts the saved database; a
/// port taken by another application ends it with an error.
pub proof fn starts_keep_the_saved_port(id: Seq<char>, allow_pull: bool, t: Phase, r: Reported)
    requires
        starting(t),
        awaits(t, r),
    ensures
        starting(task_begin(Intent::Start(id, allow_pull)).0),
        starting(task_step(t, r).0) || task_step(t, r).0 is Finished,
        !(task_step(t, r).1 matches Move::Perform(Job::UpdateDatabase(..))),
        !(task_step(t, r).1 matches Move::Perform(Job::OfferPort)),
        !(task_step(t, r).1 matches Move::Perform(Job::InsertDatabase(..))),
        !(task_step(t, r).1 matches Move::Perform(Job::DeleteDatabase(..))),
        task_step(t, r).1 matches Move::Perform(Job::BindPort(p)) ==> (t matches Phase::CheckingForStart {
            db,
            ..
        } && p == db.port),
        task_step(t, r).1 matches Move::Perform(Job::StartContainer(d, _)) ==> ((t matches Phase::CheckingForStart {
            db,
            ..
        } && d == db) || (t matches Phase::BindingForStart { db, .. } && d == db)),
        t matches Phase::BindingForStart { db, .. } ==> (r matches Reported::Done(Err(m))
            ==> task_step(t, r) == complete_err(Failure::Failed(port_taken_text(db.port, m)))),
{
}

/// An update keeps the saved port unless a different port is requested.
pub proof fn update_keeps_port_unless_asked(t: Phase, m: Map<Seq<char>, ContainerState>)
    requires
        t matches Phase::CheckingForUpdate { config, db, .. } && !active(listed_state(m, db)) && (
        config.reserved_port is None || config.reserved_port == Some(db.port)),
    ensures
        task_step(t, Reported::States(Ok(m))).0 matches Phase::RemovingForUpdate { port, .. } && port
            == t->CheckingForUpdate_db.port,
{
}

} // verus!
