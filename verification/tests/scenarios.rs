use docker_db_manager::commands::database::{
    create_container_from_docker_args, create_database_container, remove_container,
    start_container, stop_container, update_container_config, update_container_from_docker_args,
    Provision,
};
use docker_db_manager::commands::docker::sync_containers_with_docker;
use docker_db_manager::commands::protocol::{Action, Event, Outcome};
use docker_db_manager::commands::upkeep::{get_all_databases, Upkeep};
use docker_db_manager::services::engine::{EngineReply, EngineRequest};
use docker_db_manager::services::listing::ObservedContainer;
use docker_db_manager::types::docker::{
    ContainerMetadata, DockerRunArgs, DockerRunRequest, EnvVars, PortMapping, VolumeMount,
};
use docker_db_manager::types::{
    CreateDatabaseRequest, DatabaseContainer, DatabaseStore, RedisSettings, UpdateContainerRequest,
};

/// What the engine answers to a request, in a test.
fn engine_says(request: &EngineRequest, failing: &str, message: &str) -> Event {
    let text = format!("{:?}", request);
    if !failing.is_empty() && text.starts_with(failing) {
        return Event::EngineFailed(message.to_string());
    }
    match request {
        EngineRequest::Run { .. } => Event::EngineDone(EngineReply::Text("c0ffee".to_string())),
        EngineRequest::List => Event::EngineDone(EngineReply::Containers(vec![])),
        _ => Event::EngineDone(EngineReply::Done),
    }
}

/// Drives a create or an update to its end; the engine fails on the requests
/// whose debug text begins with `failing`, and saving fails if `save` is no.
fn run_provision(
    started: (Provision, Action),
    store: &mut DatabaseStore,
    failing: &str,
    message: &str,
    save: bool,
) -> (Vec<String>, Outcome) {
    let (mut task, mut action) = started;
    let mut seen = Vec::new();
    loop {
        let event = match action {
            Action::Engine(request) => {
                seen.push(format!("{:?}", request));
                engine_says(&request, failing, message)
            }
            Action::Save(_) => {
                seen.push("Save".to_string());
                if save {
                    Event::Saved
                } else {
                    Event::SaveFailed("disk full".to_string())
                }
            }
            Action::Load => Event::Loaded(None),
            Action::Done(outcome) => return (seen, outcome),
        };
        let next = task.step(store, event);
        task = next.0;
        action = next.1;
    }
}

fn run_upkeep(
    started: (Upkeep, Action),
    store: &mut DatabaseStore,
    failing: &str,
    observed: Vec<ObservedContainer>,
    persisted: Option<Vec<DatabaseContainer>>,
) -> (Vec<String>, Outcome) {
    let (mut task, mut action) = started;
    let mut seen = Vec::new();
    let mut observed = Some(observed);
    let mut persisted = Some(persisted);
    loop {
        let event = match action {
            Action::Engine(request) => {
                seen.push(format!("{:?}", request));
                match request {
                    EngineRequest::List => Event::EngineDone(EngineReply::Containers(
                        observed.take().unwrap_or_default(),
                    )),
                    other => engine_says(&other, failing, "engine says no"),
                }
            }
            Action::Save(_) => {
                seen.push("Save".to_string());
                Event::Saved
            }
            Action::Load => {
                seen.push("Load".to_string());
                Event::Loaded(persisted.take().unwrap_or(None))
            }
            Action::Done(outcome) => return (seen, outcome),
        };
        let next = task.step(store, event);
        task = next.0;
        action = next.1;
    }
}

fn record(id: &str, name: &str, persistent: bool, container: Option<&str>) -> DatabaseContainer {
    DatabaseContainer {
        id: id.to_string(),
        name: name.to_string(),
        db_type: "PostgreSQL".to_string(),
        version: "15".to_string(),
        status: "running".to_string(),
        port: 5432,
        created_at: "2024-01-01".to_string(),
        max_connections: 100,
        container_id: container.map(|c| c.to_string()),
        stored_password: Some("testpass".to_string()),
        stored_username: Some("testuser".to_string()),
        stored_database_name: Some("testdb".to_string()),
        stored_persist_data: persistent,
        stored_enable_auth: true,
    }
}

fn update_request(id: &str) -> UpdateContainerRequest {
    UpdateContainerRequest {
        container_id: id.to_string(),
        name: None,
        port: None,
        username: None,
        password: None,
        database_name: None,
        max_connections: None,
        enable_auth: None,
        persist_data: None,
        restart_policy: None,
        auto_start: None,
    }
}

fn create_request(kind: &str, name: &str) -> CreateDatabaseRequest {
    CreateDatabaseRequest {
        name: name.to_string(),
        db_type: kind.to_string(),
        version: "15".to_string(),
        port: 5555,
        username: Some("pguser".to_string()),
        password: "pw".to_string(),
        database_name: Some("appdb".to_string()),
        persist_data: false,
        enable_auth: true,
        max_connections: None,
        postgres_settings: None,
        mysql_settings: None,
        redis_settings: None,
        mongo_settings: None,
    }
}

fn run_request(name: &str, id: &str, port: i32, volumes: &[&str]) -> DockerRunRequest {
    DockerRunRequest {
        name: name.to_string(),
        docker_args: DockerRunArgs {
            image: "postgres:16".to_string(),
            env_vars: EnvVars::new(),
            ports: vec![PortMapping {
                host: port,
                container: 5432,
            }],
            volumes: volumes
                .iter()
                .map(|v| VolumeMount {
                    name: v.to_string(),
                    path: "/var/lib/postgresql/data".to_string(),
                })
                .collect(),
            command: vec![],
        },
        metadata: ContainerMetadata {
            id: id.to_string(),
            db_type: "PostgreSQL".to_string(),
            version: "16".to_string(),
            port,
            username: Some("postgres".to_string()),
            password: "test123".to_string(),
            database_name: Some("testdb".to_string()),
            persist_data: !volumes.is_empty(),
            enable_auth: true,
            max_connections: None,
        },
    }
}

#[test]
fn create_postgresql_record_runs_with_its_arguments() {
    let request = create_request("PostgreSQL", "pg1");
    let (task, action) = create_database_container(&request).unwrap();
    let args = match action {
        Action::Engine(EngineRequest::Run { args }) => args,
        other => panic!("a run should come first, not {:?}", other),
    };
    assert_eq!(
        args,
        vec![
            "run",
            "-d",
            "--name",
            "pg1",
            "-p",
            "5555:5432",
            "-e",
            "POSTGRES_PASSWORD=pw",
            "-e",
            "POSTGRES_USER=pguser",
            "-e",
            "POSTGRES_DB=appdb",
            "postgres:15",
        ]
    );
    assert!(!args.contains(&"-v".to_string()));
    assert_eq!(task.request.metadata.id.len(), 36);

    let mut store = DatabaseStore::new();
    let (task, action) = task.step(
        &mut store,
        Event::EngineDone(EngineReply::Text("abc123".to_string())),
    );
    assert!(matches!(&action, Action::Save(list) if list.len() == 1));
    let (_, action) = task.step(&mut store, Event::Saved);
    let created = match action {
        Action::Done(Outcome::Record(record)) => record,
        other => panic!("the record should be the outcome, not {:?}", other),
    };
    assert_eq!(created.name, "pg1");
    assert_eq!(created.status, "running");
    assert_eq!(created.port, 5555);
    assert_eq!(created.max_connections, 100);
    assert_eq!(created.container_id, Some("abc123".to_string()));
    assert_eq!(created.stored_password, Some("pw".to_string()));
    assert_eq!(created.created_at.len(), 10);
    assert_eq!(store.len(), 1);
    assert_eq!(store.get(&created.id).unwrap().name, "pg1");
}

#[test]
fn create_redis_with_auth_has_exact_trailing_command() {
    let mut request = create_request("Redis", "cache");
    request.password = "rpw".to_string();
    let (task, _) = create_database_container(&request).unwrap();
    assert_eq!(
        task.request.docker_args.command,
        vec!["redis-server", "--requirepass", "rpw"]
    );
    assert!(task.request.docker_args.env_vars.is_empty());
    assert_eq!(task.request.docker_args.image, "redis:15");

    request.enable_auth = false;
    let (task, _) = create_database_container(&request).unwrap();
    assert!(task.request.docker_args.command.is_empty());

    request.redis_settings = Some(RedisSettings {
        max_memory: "256mb".to_string(),
        max_memory_policy: "".to_string(),
        append_only: true,
        require_pass: false,
    });
    let (task, _) = create_database_container(&request).unwrap();
    assert_eq!(
        task.request.docker_args.command,
        vec!["redis-server", "--maxmemory", "256mb", "--appendonly", "yes"]
    );
}

#[test]
fn create_of_unknown_kind_fails_before_the_engine() {
    let request = create_request("Oracle", "db");
    let error = create_database_container(&request).unwrap_err();
    assert_eq!(error, "Unsupported database type: Oracle");
}

#[test]
fn rename_of_persistent_record_migrates_then_removes_old_volume() {
    let mut store = DatabaseStore::new();
    store.insert(record("id-1", "db-a", true, Some("old-container")));
    let mut request = update_request("id-1");
    request.name = Some("db-b".to_string());

    let started = update_container_config(&request, &mut store).unwrap();
    let (seen, outcome) = run_provision(started, &mut store, "", "", true);
    assert_eq!(seen.len(), 5);
    assert_eq!(seen[0], "Remove { container: \"old-container\" }");
    assert_eq!(
        seen[1],
        "MigrateVolume { old_volume: \"db-a-data\", new_volume: \"db-b-data\", data_path: \"/var/lib/postgresql/data\" }"
    );
    assert_eq!(seen[2], "RemoveVolume { name: \"db-a-data\" }");
    assert!(seen[3].starts_with("Run { args: [\"run\", \"-d\", \"--name\", \"db-b\""));
    assert!(seen[3].contains("\"-v\", \"db-b-data:/var/lib/postgresql/data\""));
    assert_eq!(seen[4], "Save");
    let updated = match outcome {
        Outcome::Record(record) => record,
        other => panic!("the record should be the outcome, not {:?}", other),
    };
    assert_eq!(updated.id, "id-1");
    assert_eq!(updated.name, "db-b");
    assert_eq!(updated.created_at, "2024-01-01");
    assert_eq!(updated.container_id, Some("c0ffee".to_string()));
    assert_eq!(store.get("id-1").unwrap().name, "db-b");
}

#[test]
fn failed_migration_keeps_the_old_volume() {
    let mut store = DatabaseStore::new();
    store.insert(record("id-1", "db-a", true, None));
    let mut request = update_request("id-1");
    request.name = Some("db-b".to_string());

    let started = update_container_config(&request, &mut store).unwrap();
    let (seen, outcome) = run_provision(started, &mut store, "MigrateVolume", "copy broke", true);
    assert_eq!(seen.len(), 1);
    assert!(seen[0].starts_with("MigrateVolume"));
    assert!(matches!(outcome, Outcome::Failed(message) if message == "copy broke"));
    assert_eq!(store.get("id-1").unwrap().name, "db-a");
}

#[test]
fn update_transitions_create_delete_and_ensure() {
    // no data before, data after: the volume is created
    let mut store = DatabaseStore::new();
    store.insert(record("id-1", "db-a", false, Some("c1")));
    let mut request = update_request("id-1");
    request.persist_data = Some(true);
    let started = update_container_config(&request, &mut store).unwrap();
    let (seen, _) = run_provision(started, &mut store, "", "", true);
    assert_eq!(seen[1], "CreateVolume { name: \"db-a-data\" }");
    assert!(seen[2].starts_with("Run"));

    // data before, none after: the volume is removed, renamed or not
    let mut store = DatabaseStore::new();
    store.insert(record("id-1", "db-a", true, Some("c1")));
    let mut request = update_request("id-1");
    request.persist_data = Some(false);
    let started = update_container_config(&request, &mut store).unwrap();
    let (seen, _) = run_provision(started, &mut store, "", "", true);
    assert_eq!(seen[1], "RemoveVolume { name: \"db-a-data\" }");
    assert!(seen[2].starts_with("Run"));
    assert!(!seen[2].contains("\"-v\""));

    // the port changes, name and data stay: the volume is only made sure of
    let mut store = DatabaseStore::new();
    store.insert(record("id-1", "db-a", true, Some("c1")));
    let mut request = update_request("id-1");
    request.port = Some(5433);
    let started = update_container_config(&request, &mut store).unwrap();
    let (seen, outcome) = run_provision(started, &mut store, "", "", true);
    assert_eq!(seen[1], "CreateVolume { name: \"db-a-data\" }");
    assert!(seen[2].contains("\"5433:5432\""));
    assert!(matches!(outcome, Outcome::Record(r) if r.port == 5433));
}

#[test]
fn metadata_update_asks_nothing_of_the_engine() {
    let mut store = DatabaseStore::new();
    let mut odd = record("id-1", "db-a", true, Some("c1"));
    odd.db_type = "Custom".to_string();
    store.insert(odd);
    let mut request = update_request("id-1");
    request.max_connections = Some(200);
    request.username = Some("newuser".to_string());
    request.password = Some("newpass".to_string());
    request.name = Some("db-a".to_string());
    request.persist_data = Some(true);

    let started = update_container_config(&request, &mut store).unwrap();
    let (seen, outcome) = run_provision(started, &mut store, "", "", true);
    assert_eq!(seen, vec!["Save"]);
    let updated = match outcome {
        Outcome::Record(record) => record,
        other => panic!("the record should be the outcome, not {:?}", other),
    };
    assert_eq!(updated.max_connections, 200);
    assert_eq!(updated.stored_username, Some("testuser".to_string()));
    assert_eq!(updated.container_id, Some("c1".to_string()));
    assert_eq!(store.get("id-1").unwrap().max_connections, 200);
}

#[test]
fn update_fails_for_missing_record_and_unknown_kind() {
    let mut store = DatabaseStore::new();
    let request = update_request("nobody");
    assert_eq!(
        update_container_config(&request, &mut store).unwrap_err(),
        "Container not found"
    );
    let (_, action) =
        update_container_from_docker_args(run_request("x", "nobody", 1, &[]), &mut store);
    assert!(matches!(action, Action::Done(Outcome::Failed(m)) if m == "Container not found"));

    let mut odd = record("id-1", "db-a", false, None);
    odd.db_type = "Custom".to_string();
    store.insert(odd);
    let mut request = update_request("id-1");
    request.port = Some(9999);
    assert_eq!(
        update_container_config(&request, &mut store).unwrap_err(),
        "Unsupported database type: Custom"
    );
    assert_eq!(store.get("id-1").unwrap().port, 5432);
}

#[test]
fn remove_of_non_persistent_record_removes_no_volume() {
    let mut store = DatabaseStore::new();
    store.insert(record("id-1", "tmp", false, Some("c1")));
    let started = remove_container("id-1", &mut store);
    let (seen, outcome) = run_upkeep(started, &mut store, "", vec![], None);
    assert_eq!(seen, vec!["Remove { container: \"c1\" }", "Save"]);
    assert!(matches!(outcome, Outcome::Completed));
    assert!(store.is_empty());
}

#[test]
fn remove_of_persistent_record_removes_volume_after_container() {
    let mut store = DatabaseStore::new();
    store.insert(record("id-1", "x", true, Some("c1")));
    store.insert(record("id-2", "y", true, Some("c2")));
    let started = remove_container("id-1", &mut store);
    let (seen, outcome) = run_upkeep(started, &mut store, "", vec![], None);
    assert_eq!(
        seen,
        vec![
            "Remove { container: \"c1\" }",
            "RemoveVolume { name: \"x-data\" }",
            "Save"
        ]
    );
    assert!(matches!(outcome, Outcome::Completed));
    assert_eq!(store.len(), 1);
    assert!(store.get("id-1").is_none());
}

#[test]
fn remove_keeps_record_when_container_stays_and_drops_it_when_volume_stays() {
    let mut store = DatabaseStore::new();
    store.insert(record("id-1", "x", true, Some("c1")));
    let started = remove_container("id-1", &mut store);
    let (seen, outcome) = run_upkeep(started, &mut store, "Remove {", vec![], None);
    assert_eq!(seen.len(), 1);
    assert!(matches!(outcome, Outcome::Failed(m) if m == "engine says no"));
    assert_eq!(store.len(), 1);

    let started = remove_container("id-1", &mut store);
    let (seen, outcome) = run_upkeep(started, &mut store, "RemoveVolume", vec![], None);
    assert_eq!(seen.len(), 3);
    assert_eq!(seen[2], "Save");
    assert!(matches!(outcome, Outcome::Failed(m) if m == "engine says no"));
    assert!(store.is_empty());

    // a record that is not there: nothing but the save
    let started = remove_container("id-9", &mut store);
    let (seen, outcome) = run_upkeep(started, &mut store, "", vec![], None);
    assert_eq!(seen, vec!["Save"]);
    assert!(matches!(outcome, Outcome::Completed));
}

#[test]
fn port_conflict_is_reported_after_one_forced_removal() {
    let mut store = DatabaseStore::new();
    let started = create_container_from_docker_args(run_request("pg", "id-1", 5432, &[]));
    let (seen, outcome) = run_provision(
        started,
        &mut store,
        "Run",
        "docker: Error response from daemon: Bind for 0.0.0.0:5432: port is already allocated",
        true,
    );
    assert_eq!(seen.len(), 2);
    assert!(seen[0].starts_with("Run"));
    assert_eq!(seen[1], "ForceRemove { name: \"pg\" }");
    assert_eq!(seen.iter().filter(|s| s.starts_with("ForceRemove")).count(), 1);
    let error = match outcome {
        Outcome::Rejected(error) => error,
        other => panic!("the run should be rejected, not {:?}", other),
    };
    assert_eq!(error.error_type, "PORT_IN_USE");
    assert_eq!(error.port, Some(5432));
    assert_eq!(error.message, "Port 5432 is already in use");
    assert_eq!(
        error.details,
        Some("You can change the port in the configuration and try again.".to_string())
    );
    assert!(store.is_empty());
}

#[test]
fn failed_create_takes_its_volumes_back() {
    let mut store = DatabaseStore::new();
    let started =
        create_container_from_docker_args(run_request("pg", "id-1", 5432, &["pg-data", "pg-conf"]));
    let (seen, outcome) = run_provision(
        started,
        &mut store,
        "Run",
        "Conflict: that container name is already in use",
        true,
    );
    assert_eq!(
        seen[..2],
        [
            "CreateVolume { name: \"pg-data\" }",
            "CreateVolume { name: \"pg-conf\" }"
        ]
    );
    assert_eq!(
        seen[3..],
        [
            "ForceRemove { name: \"pg\" }",
            "RemoveVolume { name: \"pg-data\" }",
            "RemoveVolume { name: \"pg-conf\" }"
        ]
    );
    let error = match outcome {
        Outcome::Rejected(error) => error,
        other => panic!("the run should be rejected, not {:?}", other),
    };
    assert_eq!(error.error_type, "NAME_IN_USE");
    assert_eq!(error.port, None);
    assert_eq!(error.message, "A container with the name 'pg' already exists");

    // a volume that cannot be created ends the create at once
    let started = create_container_from_docker_args(run_request("pg", "id-1", 5432, &["pg-data"]));
    let (seen, outcome) = run_provision(started, &mut store, "CreateVolume", "no space", true);
    assert_eq!(seen.len(), 1);
    assert!(matches!(outcome, Outcome::Failed(m) if m == "no space"));
}

#[test]
fn other_run_failures_carry_the_engine_text() {
    let mut store = DatabaseStore::new();
    let started = create_container_from_docker_args(run_request("pg", "id-1", 5432, &[]));
    let (_, outcome) = run_provision(started, &mut store, "Run", "pull access denied", true);
    let error = match outcome {
        Outcome::Rejected(error) => error,
        other => panic!("the run should be rejected, not {:?}", other),
    };
    assert_eq!(error.error_type, "DOCKER_ERROR");
    assert_eq!(error.message, "Error creating container");
    assert_eq!(error.details, Some("pull access denied".to_string()));
}

#[test]
fn create_is_rolled_back_when_saving_fails() {
    let mut store = DatabaseStore::new();
    let started = create_container_from_docker_args(run_request("pg", "id-1", 5432, &["pg-data"]));
    let (seen, outcome) = run_provision(started, &mut store, "", "", false);
    assert_eq!(
        seen[2..],
        [
            "Save",
            "Remove { container: \"c0ffee\" }",
            "RemoveVolume { name: \"pg-data\" }"
        ]
    );
    assert!(matches!(outcome, Outcome::Failed(m) if m == "Error saving configuration: disk full"));
    assert!(store.is_empty());
}

#[test]
fn start_and_stop_set_the_status() {
    let mut store = DatabaseStore::new();
    store.insert(record("id-1", "pg", false, Some("c1")));
    store.insert(record("id-2", "lost", false, None));

    let started = stop_container("id-1", &store);
    let (seen, outcome) = run_upkeep(started, &mut store, "", vec![], None);
    assert_eq!(seen, vec!["Stop { container: \"c1\" }", "Save"]);
    assert!(matches!(outcome, Outcome::Completed));
    assert_eq!(store.get("id-1").unwrap().status, "stopped");

    let started = start_container("id-1", &store);
    let (seen, _) = run_upkeep(started, &mut store, "", vec![], None);
    assert_eq!(seen, vec!["Start { container: \"c1\" }", "Save"]);
    assert_eq!(store.get("id-1").unwrap().status, "running");

    let started = stop_container("id-1", &store);
    let (_, outcome) = run_upkeep(started, &mut store, "Stop", vec![], None);
    assert!(matches!(outcome, Outcome::Failed(m) if m == "engine says no"));
    assert_eq!(store.get("id-1").unwrap().status, "running");

    for id in ["id-2", "id-3"] {
        let (_, action) = start_container(id, &store);
        assert!(matches!(action, Action::Done(Outcome::Failed(m)) if m == "Container not found"));
    }
}

#[test]
fn reconcile_marks_unobserved_record_stopped() {
    let mut store = DatabaseStore::new();
    store.insert(record("id-1", "svc1", false, Some("gone")));
    store.insert(record("id-2", "svc2", false, Some("old-id")));
    let observed = vec![
        ObservedContainer {
            id: "new-id".to_string(),
            name: "svc2".to_string(),
            running: false,
        },
        ObservedContainer {
            id: "other".to_string(),
            name: "unrelated".to_string(),
            running: true,
        },
    ];
    let started = sync_containers_with_docker();
    let (seen, outcome) = run_upkeep(started, &mut store, "", observed, None);
    assert_eq!(seen, vec!["List", "Save"]);
    let svc1 = store.get("id-1").unwrap();
    assert_eq!(svc1.status, "stopped");
    assert_eq!(svc1.container_id, None);
    let svc2 = store.get("id-2").unwrap();
    assert_eq!(svc2.status, "stopped");
    assert_eq!(svc2.container_id, Some("new-id".to_string()));
    assert!(matches!(outcome, Outcome::Records(list) if list.len() == 2));
}

#[test]
fn listing_loads_then_reconciles_then_saves() {
    let mut store = DatabaseStore::new();
    store.insert(record("stale", "stale", false, None));
    let persisted = vec![record("id-1", "svc1", false, None)];
    let observed = vec![ObservedContainer {
        id: "abc".to_string(),
        name: "svc1".to_string(),
        running: true,
    }];
    let started = get_all_databases();
    let (seen, outcome) = run_upkeep(started, &mut store, "", observed, Some(persisted));
    assert_eq!(seen, vec!["Load", "List", "Save"]);
    let list = match outcome {
        Outcome::Records(list) => list,
        other => panic!("the records should be the outcome, not {:?}", other),
    };
    assert_eq!(list.len(), 1);
    assert_eq!(list[0].status, "running");
    assert_eq!(list[0].container_id, Some("abc".to_string()));
    assert_eq!(store.len(), 1);
}

#[test]
fn stray_events_end_the_operation() {
    let mut store = DatabaseStore::new();
    let (task, _) = create_container_from_docker_args(run_request("pg", "id-1", 5432, &[]));
    let (task, action) = task.step(&mut store, Event::Saved);
    assert!(
        matches!(action, Action::Done(Outcome::Failed(m)) if m == "No action is outstanding for this event")
    );
    let (_, action) = task.step(&mut store, Event::EngineDone(EngineReply::Done));
    assert!(matches!(action, Action::Done(Outcome::Failed(_))));
}
