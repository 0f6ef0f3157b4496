use docker_db_manager::commands::database::{
    classify_run_failure, classify_volume_transition, needs_recreation, VolumeTransition,
};
use docker_db_manager::services::listing::ObservedContainer;
use docker_db_manager::services::reconcile::find_observed;
use docker_db_manager::services::{DockerService, StorageService};
use docker_db_manager::types::docker::EnvVars;
use docker_db_manager::types::{DatabaseContainer, DatabaseStore};

fn record(id: &str, name: &str, port: i32) -> DatabaseContainer {
    DatabaseContainer {
        id: id.to_string(),
        name: name.to_string(),
        db_type: "MySQL".to_string(),
        version: "8.0".to_string(),
        status: "stopped".to_string(),
        port,
        created_at: "2025-03-04".to_string(),
        max_connections: 151,
        container_id: Some(format!("docker-{}", name)),
        stored_password: Some("pw".to_string()),
        stored_username: None,
        stored_database_name: Some("db".to_string()),
        stored_persist_data: true,
        stored_enable_auth: false,
    }
}

fn fields(r: &DatabaseContainer) -> String {
    format!("{:?}", r)
}

#[test]
fn env_vars_keep_each_key_once_in_first_order() {
    let mut env = EnvVars::new();
    assert!(env.is_empty());
    assert_eq!(env.insert("B".to_string(), "1".to_string()), None);
    assert_eq!(env.insert("A".to_string(), "2".to_string()), None);
    assert_eq!(env.insert("C".to_string(), "3".to_string()), None);
    assert_eq!(
        env.insert("A".to_string(), "4".to_string()),
        Some("2".to_string())
    );
    assert_eq!(env.len(), 3);
    assert_eq!(env.get("A"), Some(&"4".to_string()));
    assert_eq!(env.get("D"), None);
    let order: Vec<(String, String)> = (0..env.len())
        .map(|i| {
            let (k, v) = env.entry(i);
            (k.clone(), v.clone())
        })
        .collect();
    assert_eq!(
        order,
        vec![
            ("B".to_string(), "1".to_string()),
            ("A".to_string(), "4".to_string()),
            ("C".to_string(), "3".to_string()),
        ]
    );
    let copy = env.clone();
    assert_eq!(copy.get("C"), Some(&"3".to_string()));
    assert_eq!(copy.len(), 3);
}

#[test]
fn env_vars_in_key_order_do_not_depend_on_the_order_given() {
    let pairs = [
        ("POSTGRES_USER", "u"),
        ("POSTGRES_DB", "d"),
        ("A", "1"),
        ("POSTGRES", "p"),
        ("b", "2"),
        ("", "e"),
    ];
    let mut forward = EnvVars::new();
    for (k, v) in pairs.iter() {
        forward.insert(k.to_string(), v.to_string());
    }
    let mut backward = EnvVars::new();
    for (k, v) in pairs.iter().rev() {
        backward.insert(k.to_string(), v.to_string());
    }
    let keys = |env: &EnvVars| -> Vec<String> {
        (0..env.len()).map(|i| env.entry(i).0.clone()).collect()
    };
    assert_ne!(keys(&forward), keys(&backward));
    let first = forward.in_key_order();
    let second = backward.in_key_order();
    assert_eq!(
        keys(&first),
        vec!["", "A", "POSTGRES", "POSTGRES_DB", "POSTGRES_USER", "b"]
    );
    assert_eq!(keys(&first), keys(&second));
    assert_eq!(first.get("POSTGRES_DB"), Some(&"d".to_string()));
    assert_eq!(first.len(), 6);
    assert!(EnvVars::new().in_key_order().is_empty());
    let mut sorted: Vec<String> = pairs.iter().map(|p| p.0.to_string()).collect();
    sorted.sort();
    assert_eq!(keys(&forward.in_key_order()), sorted);

    let service = DockerService::new();
    let spec = |env: EnvVars| docker_db_manager::types::docker::DockerRunArgs {
        image: "img".to_string(),
        env_vars: env,
        ports: vec![],
        volumes: vec![],
        command: vec![],
    };
    assert_eq!(
        service.build_docker_command_from_args("n", &spec(first)),
        service.build_docker_command_from_args("n", &spec(second))
    );
}

#[test]
fn store_inserts_replaces_and_removes_by_id() {
    let mut store = DatabaseStore::new();
    assert!(store.insert(record("a", "one", 1)).is_none());
    assert!(store.insert(record("b", "two", 2)).is_none());
    let previous = store.insert(record("a", "uno", 3)).unwrap();
    assert_eq!(previous.name, "one");
    assert_eq!(store.len(), 2);
    assert_eq!(store.record(0).name, "uno");
    assert_eq!(store.record(1).name, "two");
    assert!(store.contains_key("b"));
    assert!(!store.contains_key("c"));
    assert_eq!(store.get("a").unwrap().port, 3);
    assert!(store.get("zzz").is_none());

    store.set_status("b", "running".to_string());
    store.set_status("nobody", "running".to_string());
    assert_eq!(store.get("b").unwrap().status, "running");
    assert_eq!(store.get("b").unwrap().container_id, Some("docker-two".to_string()));
    assert_eq!(store.get("a").unwrap().status, "stopped");

    assert!(store.remove("c").is_none());
    let removed = store.remove("a").unwrap();
    assert_eq!(removed.name, "uno");
    assert_eq!(store.len(), 1);
    assert_eq!(store.values()[0].id, "b");
}

#[test]
fn saved_records_load_back_equal_in_all_fields() {
    let storage = StorageService::new();
    assert_eq!(storage.key(), "databases");
    let mut store = DatabaseStore::new();
    store.insert(record("a", "one", 1));
    store.insert(record("b", "two", 2));
    store.insert(record("c", "three", 3));

    let saved = storage.save_databases_to_store(&store);
    assert_eq!(saved.len(), 3);
    let loaded = storage.load_databases_from_store(Some(saved));
    assert_eq!(loaded.len(), 3);
    for id in ["a", "b", "c"] {
        assert_eq!(fields(loaded.get(id).unwrap()), fields(store.get(id).unwrap()));
    }

    // the order of the list does not matter
    let mut saved = storage.save_databases_to_store(&store);
    saved.reverse();
    let loaded = storage.load_databases_from_store(Some(saved));
    for id in ["a", "b", "c"] {
        assert_eq!(fields(loaded.get(id).unwrap()), fields(store.get(id).unwrap()));
    }

    // of two records with one id the later one stays
    let twice = vec![record("a", "first", 1), record("a", "second", 2)];
    let loaded = storage.load_databases_from_store(Some(twice));
    assert_eq!(loaded.len(), 1);
    assert_eq!(loaded.get("a").unwrap().name, "second");

    assert!(storage.load_databases_from_store(None).is_empty());
    assert!(storage.load_databases_from_store(Some(vec![])).is_empty());
}

#[test]
fn reconcile_matches_by_name_not_by_container() {
    let service = DockerService::new();
    let mut store = DatabaseStore::new();
    store.insert(record("a", "svc1", 1));
    store.insert(record("b", "svc2", 2));
    store.insert(record("c", "svc3", 3));
    let observed = vec![
        ObservedContainer {
            id: "docker-svc1".to_string(),
            name: "other".to_string(),
            running: true,
        },
        ObservedContainer {
            id: "x2".to_string(),
            name: "svc2".to_string(),
            running: true,
        },
        ObservedContainer {
            id: "x3".to_string(),
            name: "svc3".to_string(),
            running: true,
        },
        ObservedContainer {
            id: "x3-later".to_string(),
            name: "svc3".to_string(),
            running: false,
        },
    ];
    assert_eq!(find_observed(&observed, "svc3").unwrap().id, "x3-later");
    assert!(find_observed(&observed, "svc1").is_none());

    service.sync_containers_with_docker(&observed, &mut store);
    let a = store.get("a").unwrap();
    assert_eq!((a.status.as_str(), &a.container_id), ("stopped", &None));
    let b = store.get("b").unwrap();
    assert_eq!((b.status.as_str(), &b.container_id), ("running", &Some("x2".to_string())));
    let c = store.get("c").unwrap();
    assert_eq!((c.status.as_str(), &c.container_id), ("stopped", &Some("x3-later".to_string())));
    assert_eq!(c.port, 3);
    assert_eq!(c.created_at, "2025-03-04");

    service.sync_containers_with_docker(&vec![], &mut store);
    assert!(store.values().iter().all(|r| r.status == "stopped" && r.container_id.is_none()));
}

#[test]
fn recreation_is_needed_for_name_port_and_persistence_only() {
    let r = record("a", "db", 3306);
    assert!(!needs_recreation(&r, "db", 3306, true));
    assert!(needs_recreation(&r, "db2", 3306, true));
    assert!(needs_recreation(&r, "db", 3307, true));
    assert!(needs_recreation(&r, "db", 3306, false));
    assert!(needs_recreation(&r, "other", 1, false));
}

#[test]
fn volume_transitions_cover_all_cases() {
    assert_eq!(classify_volume_transition("a", true, "b", true), VolumeTransition::Migrate);
    assert_eq!(classify_volume_transition("a", true, "a", true), VolumeTransition::Ensure);
    assert_eq!(classify_volume_transition("a", false, "a", true), VolumeTransition::Create);
    assert_eq!(classify_volume_transition("a", false, "b", true), VolumeTransition::Create);
    assert_eq!(classify_volume_transition("a", true, "a", false), VolumeTransition::Delete);
    assert_eq!(classify_volume_transition("a", true, "b", false), VolumeTransition::Delete);
    assert_eq!(classify_volume_transition("a", false, "b", false), VolumeTransition::Keep);
}

#[test]
fn run_failures_are_classified_by_what_the_engine_wrote() {
    let e = classify_run_failure("x port is already allocated y", "n", 80);
    assert_eq!((e.error_type.as_str(), e.port), ("PORT_IN_USE", Some(80)));
    let e = classify_run_failure("Bind for 0.0.0.0:80", "n", -1);
    assert_eq!(e.message, "Port -1 is already in use");
    let e = classify_run_failure("Bind for x; name is already in use", "n", 80);
    assert_eq!(e.error_type, "PORT_IN_USE");
    let e = classify_run_failure("the name is already in use", "my-db", 80);
    assert_eq!((e.error_type.as_str(), e.port), ("NAME_IN_USE", None));
    assert_eq!(e.message, "A container with the name 'my-db' already exists");
    assert_eq!(e.details, Some("Change the container name and try again.".to_string()));
    let e = classify_run_failure("volume already exists", "n", 80);
    assert_eq!(e.error_type, "NAME_IN_USE");
    let e = classify_run_failure("", "n", 80);
    assert_eq!(e.error_type, "DOCKER_ERROR");
    assert_eq!(e.details, Some(String::new()));
    let copy = e.clone();
    assert_eq!(copy.message, "Error creating container");
}
