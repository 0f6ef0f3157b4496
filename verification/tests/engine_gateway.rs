use docker_db_manager::commands::docker::{execute_container_command, get_container_logs};
use docker_db_manager::services::engine::{
    CommandOutput, EngineReply, EngineRequest, EngineTask, Execution, Progress, Stage,
};
use docker_db_manager::services::listing::{parse_line, parse_listing};
use docker_db_manager::services::DockerService;

fn ran(success: bool, stdout: &str, stderr: &str) -> Execution {
    Execution::Completed(CommandOutput {
        success,
        code: Some(if success { 0 } else { 1 }),
        stdout: stdout.to_string(),
        stderr: stderr.to_string(),
    })
}

fn unreachable_engine() -> Execution {
    Execution::NotStarted("No such file or directory".to_string())
}

/// Runs a task against scripted outputs; gives the commands and the end.
fn drive(started: (EngineTask, Vec<String>), script: Vec<Execution>) -> (Vec<String>, Progress) {
    let (mut task, first) = started;
    let mut commands = vec![first.join(" ")];
    let mut script = script.into_iter();
    loop {
        let output = script.next().expect("the script is too short");
        let (next, progress) = task.advance(&output);
        task = next;
        match progress {
            Progress::Execute(command) => commands.push(command.join(" ")),
            end => {
                assert_eq!(task.stage, Stage::Closed);
                assert!(script.next().is_none(), "the script is too long");
                return (commands, end);
            }
        }
    }
}

#[test]
fn run_gives_the_trimmed_identifier_or_the_error_stream() {
    let service = DockerService::new();
    let args = vec!["run".to_string(), "-d".to_string(), "img".to_string()];
    let (commands, end) = drive(
        service.run_container(&args),
        vec![ran(true, "  abc123def\n", "")],
    );
    assert_eq!(commands, vec!["run -d img"]);
    assert!(matches!(end, Progress::Finished(EngineReply::Text(id)) if id == "abc123def"));

    let (_, end) = drive(
        service.run_container(&args),
        vec![ran(false, "", "Bind for 0.0.0.0:1 failed")],
    );
    assert!(matches!(end, Progress::Failed(m) if m == "Bind for 0.0.0.0:1 failed"));

    let (_, end) = drive(service.run_container(&args), vec![unreachable_engine()]);
    assert!(
        matches!(end, Progress::Failed(m) if m == "Failed to execute docker command: No such file or directory")
    );
}

#[test]
fn start_and_stop_report_failures_with_their_prefix() {
    let service = DockerService::new();
    let (commands, end) = drive(service.start_container("c1"), vec![ran(true, "c1", "")]);
    assert_eq!(commands, vec!["start c1"]);
    assert!(matches!(end, Progress::Finished(EngineReply::Done)));

    let (_, end) = drive(service.start_container("c1"), vec![ran(false, "", "boom")]);
    assert!(matches!(end, Progress::Failed(m) if m == "Failed to start container: boom"));

    let (commands, end) = drive(service.stop_container("c1"), vec![unreachable_engine()]);
    assert_eq!(commands, vec!["stop c1"]);
    assert!(
        matches!(end, Progress::Failed(m) if m == "Failed to stop container: No such file or directory")
    );
}

#[test]
fn removing_an_absent_container_is_no_error() {
    let service = DockerService::new();
    let (commands, end) = drive(
        service.remove_container("c1"),
        vec![
            ran(false, "", "Error response from daemon: No such container: c1"),
            ran(false, "", "Error response from daemon: No such container: c1"),
        ],
    );
    assert_eq!(commands, vec!["stop c1", "rm c1"]);
    assert!(matches!(end, Progress::Finished(EngineReply::Done)));

    let (_, end) = drive(
        service.remove_container("c1"),
        vec![ran(true, "", ""), ran(false, "", "container is in use")],
    );
    assert!(matches!(end, Progress::Failed(m) if m == "Failed to remove container: container is in use"));

    // an `rm` that could not be run counts as done
    let (_, end) = drive(
        service.remove_container("c1"),
        vec![unreachable_engine(), unreachable_engine()],
    );
    assert!(matches!(end, Progress::Finished(EngineReply::Done)));
}

#[test]
fn removal_by_name_never_fails() {
    let service = DockerService::new();
    let (commands, end) = drive(
        service.force_remove_container_by_name("pg"),
        vec![ran(false, "", "x"), ran(false, "", "container is in use")],
    );
    assert_eq!(commands, vec!["stop pg", "rm pg"]);
    assert!(matches!(end, Progress::Finished(EngineReply::Done)));
}

#[test]
fn volume_is_created_only_if_absent() {
    let service = DockerService::new();
    let (commands, end) = drive(service.create_volume_if_needed("v"), vec![ran(true, "[]", "")]);
    assert_eq!(commands, vec!["volume inspect v"]);
    assert!(matches!(end, Progress::Finished(EngineReply::Done)));

    let (commands, end) = drive(
        service.create_volume_if_needed("v"),
        vec![ran(false, "", "no such volume"), ran(true, "v", "")],
    );
    assert_eq!(commands, vec!["volume inspect v", "volume create v"]);
    assert!(matches!(end, Progress::Finished(EngineReply::Done)));

    let (_, end) = drive(
        service.create_volume_if_needed("v"),
        vec![unreachable_engine(), ran(false, "", "disk full")],
    );
    assert!(matches!(end, Progress::Failed(m) if m == "Failed to create volume: disk full"));
}

#[test]
fn removing_an_absent_volume_is_no_error() {
    let service = DockerService::new();
    let (commands, end) = drive(
        service.remove_volume_if_exists("v"),
        vec![ran(false, "", "Error: No such volume: v")],
    );
    assert_eq!(commands, vec!["volume inspect v"]);
    assert!(matches!(end, Progress::Finished(EngineReply::Done)));

    let (commands, end) = drive(
        service.remove_volume_if_exists("v"),
        vec![ran(true, "[]", ""), ran(false, "", "Error: No such volume: v")],
    );
    assert_eq!(commands, vec!["volume inspect v", "volume rm v"]);
    assert!(matches!(end, Progress::Finished(EngineReply::Done)));

    let (_, end) = drive(
        service.remove_volume_if_exists("v"),
        vec![ran(true, "[]", ""), ran(false, "", "volume is in use")],
    );
    assert!(matches!(end, Progress::Failed(m) if m == "Failed to remove volume: volume is in use"));
}

#[test]
fn migration_copies_and_always_removes_the_helper() {
    let request = || EngineRequest::MigrateVolume {
        old_volume: "a-data".to_string(),
        new_volume: "b-data".to_string(),
        data_path: "/data".to_string(),
    };
    let start = || EngineTask::start_with(request(), "temp-migrate-1".to_string());
    let create = "create --name temp-migrate-1 -v a-data:/old_data -v b-data:/new_data \
                  alpine:latest sh -c cp -a /old_data/. /new_data/ 2>/dev/null || true";

    // nothing to migrate
    let (commands, end) = drive(start(), vec![ran(false, "", "No such volume")]);
    assert_eq!(commands, vec!["volume inspect a-data"]);
    assert!(matches!(end, Progress::Finished(EngineReply::Done)));

    // the whole way, the new volume missing at first
    let (commands, end) = drive(
        start(),
        vec![
            ran(true, "", ""),
            ran(false, "", ""),
            ran(true, "", ""),
            ran(true, "", ""),
            ran(true, "", ""),
            ran(false, "", "rm failed"),
        ],
    );
    assert_eq!(
        commands,
        vec![
            "volume inspect a-data",
            "volume inspect b-data",
            "volume create b-data",
            create,
            "start -a temp-migrate-1",
            "rm temp-migrate-1",
        ]
    );
    assert!(matches!(end, Progress::Finished(EngineReply::Done)));

    // a copy that failed: the helper goes all the same, then the failure
    let (commands, end) = drive(
        start(),
        vec![
            ran(true, "", ""),
            ran(true, "", ""),
            ran(true, "", ""),
            ran(false, "", "cp: no space"),
            ran(true, "", ""),
        ],
    );
    assert_eq!(commands.last().unwrap(), "rm temp-migrate-1");
    assert!(matches!(end, Progress::Failed(m) if m == "Failed to migrate volume data: cp: no space"));

    let (commands, end) = drive(
        start(),
        vec![
            ran(true, "", ""),
            ran(true, "", ""),
            ran(true, "", ""),
            unreachable_engine(),
            ran(true, "", ""),
        ],
    );
    assert_eq!(commands.last().unwrap(), "rm temp-migrate-1");
    assert!(matches!(end, Progress::Failed(m) if m == "Failed to execute data migration"));

    // the helper could not be created: nothing to remove
    let (commands, end) = drive(
        start(),
        vec![ran(true, "", ""), ran(true, "", ""), ran(false, "", "no image")],
    );
    assert_eq!(commands.len(), 3);
    assert!(matches!(end, Progress::Failed(m) if m == "Failed to create migration container: no image"));

    // the new volume could not be created
    let (_, end) = drive(
        start(),
        vec![ran(true, "", ""), ran(false, "", ""), ran(false, "", "denied")],
    );
    assert!(matches!(end, Progress::Failed(m) if m == "Failed to create volume: denied"));
}

#[test]
fn logs_default_to_500_lines() {
    let (commands, end) = drive(
        get_container_logs("c1", None),
        vec![ran(true, "line 1\nline 2\n", "")],
    );
    assert_eq!(commands, vec!["logs --tail 500 --timestamps c1"]);
    assert!(matches!(end, Progress::Finished(EngineReply::Text(t)) if t == "line 1\nline 2\n"));

    let (commands, end) = drive(get_container_logs("c1", Some(20)), vec![ran(false, "", "gone")]);
    assert_eq!(commands, vec!["logs --tail 20 --timestamps c1"]);
    assert!(matches!(end, Progress::Failed(m) if m == "Failed to get container logs: gone"));

    let (task, command) = get_container_logs("c1", Some(-3));
    assert_eq!(command[2], "-3");
    assert_eq!(task.helper, "");
}

#[test]
fn exec_hands_back_both_streams_and_the_exit_code() {
    let (commands, end) = drive(
        execute_container_command("c1", "ls -la /", None),
        vec![ran(false, "out", "err")],
    );
    assert_eq!(commands, vec!["exec -e COLUMNS=80 c1 sh -c ls -la /"]);
    assert!(matches!(
        end,
        Progress::Finished(EngineReply::Command { stdout, stderr, exit_code })
            if stdout == "out" && stderr == "err" && exit_code == 1
    ));

    let (task, command) = execute_container_command("c1", "psql", Some(132));
    assert_eq!(command[2], "COLUMNS=132");
    let killed = Execution::Completed(CommandOutput {
        success: false,
        code: None,
        stdout: String::new(),
        stderr: String::new(),
    });
    let (_, end) = task.advance(&killed);
    assert!(matches!(
        end,
        Progress::Finished(EngineReply::Command { exit_code, .. }) if exit_code == -1
    ));

    let (_, end) = drive(
        execute_container_command("c1", "ls", None),
        vec![unreachable_engine()],
    );
    assert!(
        matches!(end, Progress::Failed(m) if m == "Failed to execute command: No such file or directory")
    );
}

#[test]
fn listing_is_parsed_line_by_line() {
    let service = DockerService::new();
    let text = "abc123,pg1,Up 3 hours\r\n\n  def456 , redis-cache , Exited (0) 2 days ago\n\
                broken,line\n9,dup,Exited\n8,dup,Up 1 second, healthy\n   \n";
    let (commands, end) = drive(service.list_containers(), vec![ran(true, text, "")]);
    assert_eq!(commands, vec!["ps -a --format {{.ID}},{{.Names}},{{.Status}}"]);
    let list = match end {
        Progress::Finished(EngineReply::Containers(list)) => list,
        other => panic!("the containers should come, not {:?}", other),
    };
    let seen: Vec<(String, String, bool)> = list
        .into_iter()
        .map(|c| (c.id, c.name, c.running))
        .collect();
    assert_eq!(
        seen,
        vec![
            ("abc123".to_string(), "pg1".to_string(), true),
            ("def456".to_string(), "redis-cache".to_string(), false),
            ("9".to_string(), "dup".to_string(), false),
            ("8".to_string(), "dup".to_string(), true),
        ]
    );

    assert!(parse_listing("").is_empty());
    assert!(parse_line("a,b").is_none());
    assert!(parse_line(" \t ").is_none());
    let upper = parse_line("1,n,UP 2 hours").unwrap();
    assert!(!upper.running);

    let (_, end) = drive(service.list_containers(), vec![ran(false, "", "denied")]);
    assert!(matches!(end, Progress::Failed(m) if m == "Failed to get Docker containers"));
    let (_, end) = drive(service.list_containers(), vec![unreachable_engine()]);
    assert!(
        matches!(end, Progress::Failed(m) if m == "Failed to get Docker containers: No such file or directory")
    );
}

#[test]
fn ended_task_answers_with_a_failure() {
    let service = DockerService::new();
    let (task, _) = service.start_container("c1");
    let (task, _) = task.advance(&ran(true, "", ""));
    let (task, progress) = task.advance(&ran(true, "", ""));
    assert!(matches!(progress, Progress::Failed(m) if m == "No engine command is outstanding"));
    assert_eq!(task.stage, Stage::Closed);
}
