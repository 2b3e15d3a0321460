use tusklet::interface::{
    after_snapshot, backup_file_name, can_add_project, completion, confirmation, controls, database_entry, database_form,
    database_form_values, docker_banner, docker_status, field_editable, form_opens, line_tone, notice_text,
    offline_images, parse_port_field, project_after_select, project_form_value,
    project_removable, removal_description, shown_line, shown_logs, takes_new_logs, FormKind,
    Tone,
};
use tusklet::service::Action;
use tusklet::model::{ContainerState, Database, DatabaseConfig, DatabaseView, Project, Snapshot};

fn view(id: &str, project: &str) -> DatabaseView {
    DatabaseView {
        database: Database {
            id: id.into(),
            project_id: project.into(),
            config: DatabaseConfig::default(),
            password: "pw".into(),
            port: 5432,
        },
        state: ContainerState::NotCreated,
    }
}

fn workspace() -> Snapshot {
    let mut s = Snapshot::default();
    s.projects = vec![
        Project { id: "p1".into(), name: "One".into() },
        Project { id: "p2".into(), name: "Two".into() },
    ];
    s.databases = vec![view("a", "p1"), view("b", "p2"), view("c", "p2")];
    s
}

fn form(port: &str) -> Vec<String> {
    vec![
        " Main ".into(),
        "18".into(),
        "app".into(),
        "postgres".into(),
        port.into(),
        "".into(),
    ]
}

#[test]
fn port_fields_read_like_unsigned_numbers() {
    assert_eq!(parse_port_field(""), Ok(None));
    assert_eq!(parse_port_field("   "), Ok(None));
    assert_eq!(parse_port_field(" 5440 "), Ok(Some(5440)));
    assert_eq!(parse_port_field("+5440"), Ok(Some(5440)));
    assert_eq!(parse_port_field("0"), Ok(Some(0)));
    assert_eq!(parse_port_field("65535"), Ok(Some(65535)));
    assert_eq!(parse_port_field("65536"), Err(()));
    assert_eq!(parse_port_field("+"), Err(()));
    assert_eq!(parse_port_field("-1"), Err(()));
    assert_eq!(parse_port_field("54a"), Err(()));
    assert_eq!(parse_port_field("5 4"), Err(()));
}

#[test]
fn the_database_form_refuses_bad_ports_then_validates() {
    assert_eq!(
        database_form(&form("port")),
        Err("Port must be a number between 1024 and 65535, or blank for automatic.".to_string())
    );
    let config = database_form(&form("")).unwrap();
    assert_eq!(config.name, "Main");
    assert_eq!(config.reserved_port, None);
    let config = database_form(&form(" 6000 ")).unwrap();
    assert_eq!(config.reserved_port, Some(6000));
    assert_eq!(
        database_form(&form("80")),
        Err("Use a reserved port between 1024 and 65535.".to_string())
    );
}

#[test]
fn form_values_show_the_configuration() {
    let mut config = DatabaseConfig::default();
    config.reserved_port = Some(5440);
    let values = database_form_values(&config);
    assert_eq!(values, vec!["", "18", "postgres", "postgres", "5440", ""]);
    let values = database_form_values(&DatabaseConfig::default());
    assert_eq!(values[4], "");
}

#[test]
fn confirmations_need_the_exact_name() {
    assert_eq!(confirmation(&"Main".to_string(), &"Main".to_string()), Ok(()));
    assert_eq!(
        confirmation(&"main".to_string(), &"Main".to_string()),
        Err("Type Main exactly to confirm.".to_string())
    );
}

#[test]
fn backups_are_named_after_the_initial_database() {
    assert_eq!(backup_file_name("app"), "app.dump");
}

#[test]
fn selection_survives_while_its_database_exists() {
    let s = workspace();
    let r = after_snapshot(&s, Some("p2".into()), Some("c".into()));
    assert_eq!(r.project, Some("p2".to_string()));
    assert_eq!(r.selected, Some("c".to_string()));
    assert!(!r.reselected);
}

#[test]
fn a_vanished_selection_moves_to_the_first_database_of_the_open_project() {
    let s = workspace();
    let r = after_snapshot(&s, Some("p2".into()), Some("gone".into()));
    assert_eq!(r.project, Some("p2".to_string()));
    assert_eq!(r.selected, Some("b".to_string()));
    assert!(r.reselected);
    let r = after_snapshot(&s, Some("gone".into()), None);
    assert_eq!(r.project, Some("p1".to_string()));
    assert_eq!(r.selected, Some("a".to_string()));
    assert!(r.reselected);
    let r = after_snapshot(&Snapshot::default(), Some("p1".into()), None);
    assert_eq!(r.project, None);
    assert_eq!(r.selected, None);
    assert!(!r.reselected);
}

#[test]
fn selecting_a_database_opens_its_project() {
    let s = workspace();
    assert_eq!(
        project_after_select(&s, &Some("b".into()), Some("p1".into())),
        Some("p2".to_string())
    );
    assert_eq!(
        project_after_select(&s, &Some("zzz".into()), Some("p1".into())),
        Some("p1".to_string())
    );
    assert_eq!(project_after_select(&s, &None, None), None);
}

#[test]
fn status_texts_describe_the_workspace() {
    let mut s = Snapshot::default();
    assert_eq!(docker_status(false, &s), "Connecting to workspace…");
    s.images = vec!["16".into(), "17".into()];
    assert_eq!(docker_status(true, &s), "● Docker connected · 2 local images");
    s.docker_error = Some("no daemon".into());
    assert_eq!(docker_status(true, &s), "● Docker unavailable");
    assert_eq!(
        docker_banner("no daemon"),
        "Docker unavailable. Start Docker Desktop or Docker Engine. no daemon"
    );
    let long = "é".repeat(300);
    assert_eq!(docker_banner(&long).chars().count(), 59 + 240);
    assert_eq!(notice_text(&"x".repeat(1500)).len(), 1200);
    assert_eq!(notice_text("short"), "short");
}

#[test]
fn controls_follow_the_container_state() {
    let c = controls(ContainerState::Running, false, false);
    assert!(!c.settings && c.shows_stop && c.lifecycle && c.backup && !c.remove);
    let c = controls(ContainerState::Stopped, false, false);
    assert!(c.settings && !c.shows_stop && c.lifecycle && !c.backup && c.remove);
    let c = controls(ContainerState::Unhealthy, false, false);
    assert!(!c.settings && c.shows_stop && !c.backup && !c.remove);
    let c = controls(ContainerState::Running, true, false);
    assert!(!c.lifecycle && !c.backup);
    let c = controls(ContainerState::NotCreated, false, true);
    assert!(!c.settings && !c.lifecycle && !c.remove);
}

#[test]
fn identity_fields_are_fixed_when_editing() {
    assert!(field_editable(false, false, 1));
    assert!(field_editable(true, false, 0));
    assert!(!field_editable(true, false, 1));
    assert!(!field_editable(true, false, 3));
    assert!(field_editable(true, false, 4));
    assert!(!field_editable(false, true, 0));
}

#[test]
fn only_empty_projects_can_be_removed() {
    let mut s = workspace();
    s.projects.push(Project { id: "p3".into(), name: "Three".into() });
    assert!(!project_removable(&s, &"p1".to_string(), false));
    assert!(project_removable(&s, &"p3".to_string(), false));
    assert!(!project_removable(&s, &"p3".to_string(), true));
}

#[test]
fn sidebar_entries_mark_active_databases() {
    let mut v = view("a", "p1");
    v.database.config.name = "Main".into();
    assert_eq!(database_entry(&v), "○  Main");
    v.state = ContainerState::Starting;
    assert_eq!(database_entry(&v), "●  Main");
}

#[test]
fn the_log_panel_explains_missing_logs_and_colours_lines() {
    assert_eq!(shown_logs(&"line".to_string(), ContainerState::Running), "line");
    assert!(shown_logs(&String::new(), ContainerState::NotCreated)
        .starts_with("Your database is ready to start."));
    assert_eq!(
        shown_logs(&String::new(), ContainerState::Stopped),
        "Waiting for PostgreSQL logs…"
    );
    assert_eq!(line_tone("2024 ERROR:  relation missing"), Tone::Problem);
    assert_eq!(line_tone("FATAL: role"), Tone::Problem);
    assert_eq!(
        line_tone("database system is ready to accept connections"),
        Tone::Ready
    );
    assert_eq!(line_tone("checkpoint complete"), Tone::Plain);
    assert_eq!(shown_line(&"y".repeat(2500)).len(), 2000);
}

#[test]
fn the_form_lists_offline_images() {
    assert_eq!(
        offline_images(&vec![]),
        "Available offline: No postgres images downloaded yet"
    );
    assert_eq!(
        offline_images(&vec!["17".into(), "18-alpine".into()]),
        "Available offline: 17, 18-alpine"
    );
}

#[test]
fn removal_confirmations_name_the_kept_volume() {
    let v = view("a", "p1");
    assert_eq!(
        removal_description(&v.database),
        "Remove the stopped container and its Tusklet entry. The data volume tusklet-a-data will be kept in Docker. Type the database name to confirm."
    );
}

#[test]
fn forms_present_their_fields() {
    let p = FormKind::Project(None).presentation();
    assert_eq!(p.title, "New project");
    assert_eq!(p.labels, vec!["Project name"]);
    assert_eq!(p.save, "Save project");
    let p = FormKind::Database { project: "p1".into(), editing: Some("a".into()) }.presentation();
    assert_eq!(p.title, "Database settings");
    assert_eq!(p.labels.len(), 6);
    assert_eq!(p.labels[4], "Reserved host port (optional)");
    let p = FormKind::Confirm {
        action: Action::DeleteProject("p1".into()),
        name: "One".into(),
        description: "Remove this empty project. Type its name to confirm.".into(),
    }
    .presentation();
    assert_eq!(p.title, "Confirm operation");
    assert_eq!(p.subtitle, "Remove this empty project. Type its name to confirm.");
    assert_eq!(p.save, "Confirm");
}

#[test]
fn renaming_starts_from_the_current_name() {
    let s = workspace();
    assert_eq!(project_form_value(&s, &Some("p2".into())), "Two");
    assert_eq!(project_form_value(&s, &Some("zzz".into())), "");
    assert_eq!(project_form_value(&s, &None), "");
}

#[test]
fn completed_actions_close_the_form_and_select() {
    let o = completion(Ok("Database created. Start it when you're ready.".into()), Some("b".into()));
    assert_eq!(o.notice, "Database created. Start it when you're ready.");
    assert!(!o.error && o.close_form);
    assert_eq!(o.select, Some("b".to_string()));
    let o = completion(Err("Stop the database first.".into()), Some("b".into()));
    assert!(o.error && !o.close_form);
    assert_eq!(o.select, None);
}

#[test]
fn followed_logs_are_replaced_only_for_the_selection() {
    let a = Some("a".to_string());
    let b = Some("b".to_string());
    let old = "old".to_string();
    let new = "new".to_string();
    assert!(takes_new_logs(true, &a, &a, &old, &new));
    assert!(!takes_new_logs(false, &a, &a, &old, &new));
    assert!(!takes_new_logs(true, &a, &b, &old, &new));
    assert!(!takes_new_logs(true, &a, &a, &old, &old));
    assert!(takes_new_logs(true, &None, &None, &old, &new));
}

#[test]
fn adding_projects_and_opening_forms_wait_for_the_workspace() {
    assert!(can_add_project(true, false));
    assert!(!can_add_project(false, false));
    assert!(!can_add_project(true, true));
    assert!(form_opens(false));
    assert!(!form_opens(true));
}
