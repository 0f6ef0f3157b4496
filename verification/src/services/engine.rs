//! The engine gateway. Each operation on the container engine is a short
//! exchange: the library names a command, the caller runs it and hands back
//! what came of it, and the library names the next command or the result.

use vstd::prelude::*;

use crate::ambient::fresh_identifier;
use crate::services::docker::DockerService;
use crate::services::listing::{
    observed_containers, parse_listing, ObservedContainer, ObservedContainerView,
};
use crate::text::{
    contains, copy_list, decimal, has_part, int_to_string, join2, push_text, trim, trimmed,
};

verus! {

/// What a command that ran has left: whether it succeeded, its exit code
/// where it has one, and its two output streams as text.
#[derive(Debug)]
pub struct CommandOutput {
    pub success: bool,
    pub code: Option<i32>,
    pub stdout: String,
    pub stderr: String,
}

pub struct CommandOutputView {
    pub success: bool,
    pub code: Option<i32>,
    pub stdout: Seq<char>,
    pub stderr: Seq<char>,
}

impl View for CommandOutput {
    type V = CommandOutputView;

    open spec fn view(&self) -> CommandOutputView {
        CommandOutputView {
            success: self.success,
            code: self.code,
            stdout: self.stdout@,
            stderr: self.stderr@,
        }
    }
}

/// What came of running one command: it ran and left its output, or it could
/// not be run at all and the executor says why.
#[derive(Debug)]
pub enum Execution {
    Completed(CommandOutput),
    NotStarted(String),
}

pub enum ExecutionView {
    Completed(CommandOutputView),
    NotStarted(Seq<char>),
}

impl View for Execution {
    type V = ExecutionView;

    open spec fn view(&self) -> ExecutionView {
        match self {
            Execution::Completed(output) => ExecutionView::Completed(output@),
            Execution::NotStarted(reason) => ExecutionView::NotStarted(reason@),
        }
    }
}

/// An operation on the container engine.
#[derive(Debug)]
pub enum EngineRequest {
    /// Run a container from a complete argument list.
    Run { args: Vec<String> },
    Start { container: String },
    Stop { container: String },
    /// Stop and remove a container; one that is not there counts as removed.
    Remove { container: String },
    /// Stop and remove a container by name, whatever comes of it.
    ForceRemove { name: String },
    /// Create a volume unless it is there.
    CreateVolume { name: String },
    /// Remove a volume if it is there.
    RemoveVolume { name: String },
    /// Copy what one volume holds into another.
    MigrateVolume { old_volume: String, new_volume: String, data_path: String },
    /// The last lines of a container's log, 500 where no number is given.
    Logs { container: String, tail_lines: Option<i32> },
    /// Run a shell command inside a container.
    Exec { container: String, command: String, columns: u16 },
    /// List all containers.
    List,
}

pub enum EngineRequestView {
    Run { args: Seq<Seq<char>> },
    Start { container: Seq<char> },
    Stop { container: Seq<char> },
    Remove { container: Seq<char> },
    ForceRemove { name: Seq<char> },
    CreateVolume { name: Seq<char> },
    RemoveVolume { name: Seq<char> },
    MigrateVolume { old_volume: Seq<char>, new_volume: Seq<char>, data_path: Seq<char> },
    Logs { container: Seq<char>, tail_lines: Option<i32> },
    Exec { container: Seq<char>, command: Seq<char>, columns: u16 },
    List,
}

impl View for EngineRequest {
    type V = EngineRequestView;

    open spec fn view(&self) -> EngineRequestView {
        match self {
            EngineRequest::Run { args } => EngineRequestView::Run { args: args.deep_view() },
            EngineRequest::Start { container } => EngineRequestView::Start {
                container: container@,
            },
            EngineRequest::Stop { container } => EngineRequestView::Stop { container: container@ },
            EngineRequest::Remove { container } => EngineRequestView::Remove {
                container: container@,
            },
            EngineRequest::ForceRemove { name } => EngineRequestView::ForceRemove { name: name@ },
            EngineRequest::CreateVolume { name } => EngineRequestView::CreateVolume {
                name: name@,
            },
            EngineRequest::RemoveVolume { name } => EngineRequestView::RemoveVolume {
                name: name@,
            },
            EngineRequest::MigrateVolume {
                old_volume,
                new_volume,
                data_path,
            } => EngineRequestView::MigrateVolume {
                old_volume: old_volume@,
                new_volume: new_volume@,
                data_path: data_path@,
            },
            EngineRequest::Logs { container, tail_lines } => EngineRequestView::Logs {
                container: container@,
                tail_lines: *tail_lines,
            },
            EngineRequest::Exec { container, command, columns } => EngineRequestView::Exec {
                container: container@,
                command: command@,
                columns: *columns,
            },
            EngineRequest::List => EngineRequestView::List,
        }
    }
}

impl DeepView for EngineRequest {
    type V = EngineRequestView;

    open spec fn deep_view(&self) -> EngineRequestView {
        self@
    }
}

impl Clone for EngineRequest {
    fn clone(&self) -> (r: Self)
        ensures
            r@ == self@,
    {
        match self {
            EngineRequest::Run { args } => EngineRequest::Run { args: copy_list(args) },
            EngineRequest::Start { container } => EngineRequest::Start {
                container: container.clone(),
            },
            EngineRequest::Stop { container } => EngineRequest::Stop {
                container: container.clone(),
            },
            EngineRequest::Remove { container } => EngineRequest::Remove {
                container: container.clone(),
            },
            EngineRequest::ForceRemove { name } => EngineRequest::ForceRemove {
                name: name.clone(),
            },
            EngineRequest::CreateVolume { name } => EngineRequest::CreateVolume {
                name: name.clone(),
            },
            EngineRequest::RemoveVolume { name } => EngineRequest::RemoveVolume {
                name: name.clone(),
            },
            EngineRequest::MigrateVolume {
                old_volume,
                new_volume,
                data_path,
            } => EngineRequest::MigrateVolume {
                old_volume: old_volume.clone(),
                new_volume: new_volume.clone(),
                data_path: data_path.clone(),
            },
            EngineRequest::Logs { container, tail_lines } => EngineRequest::Logs {
                container: container.clone(),
                tail_lines: *tail_lines,
            },
            EngineRequest::Exec { container, command, columns } => EngineRequest::Exec {
                container: container.clone(),
                command: command.clone(),
                columns: *columns,
            },
            EngineRequest::List => EngineRequest::List,
        }
    }
}

/// What an operation on the engine gives when it succeeds.
#[derive(Debug)]
pub enum EngineReply {
    /// Nothing but the success.
    Done,
    /// A text: the identifier of a new container, or a log.
    Text(String),
    /// The containers that the engine lists.
    Containers(Vec<ObservedContainer>),
    /// What a command inside a container has left.
    Command { stdout: String, stderr: String, exit_code: i32 },
}

pub enum EngineReplyView {
    Done,
    Text(Seq<char>),
    Containers(Seq<ObservedContainerView>),
    Command { stdout: Seq<char>, stderr: Seq<char>, exit_code: i32 },
}

impl View for EngineReply {
    type V = EngineReplyView;

    open spec fn view(&self) -> EngineReplyView {
        match self {
            EngineReply::Done => EngineReplyView::Done,
            EngineReply::Text(text) => EngineReplyView::Text(text@),
            EngineReply::Containers(list) => EngineReplyView::Containers(list.deep_view()),
            EngineReply::Command { stdout, stderr, exit_code } => EngineReplyView::Command {
                stdout: stdout@,
                stderr: stderr@,
                exit_code: *exit_code,
            },
        }
    }
}

/// Where an operation stands: which of its commands is running.
#[derive(Debug, Clone, Copy, PartialEq, Eq, Structural)]
pub enum Stage {
    /// The one command of an operation that has only one.
    Only,
    /// `stop`, before a removal.
    Stopping,
    /// `rm`.
    Removing,
    /// `volume inspect`, before a volume is created or removed.
    Inspecting,
    /// `volume create`.
    Creating,
    /// `volume rm`.
    Deleting,
    /// `volume inspect` of the volume to copy from.
    InspectingOld,
    /// `volume inspect` of the volume to copy into.
    InspectingNew,
    /// `volume create` of the volume to copy into.
    CreatingNew,
    /// `create` of the helper container.
    Preparing,
    /// `start -a` of the helper container: the copy itself.
    Copying,
    /// `rm` of the helper container.
    Cleaning,
    /// No command is running: the operation has ended.
    Closed,
}

/// What the caller does next.
#[derive(Debug)]
pub enum Progress {
    /// Run the engine with these arguments and hand back what came of it.
    Execute(Vec<String>),
    /// The operation succeeded.
    Finished(EngineReply),
    /// The operation failed, with this message.
    Failed(String),
}

pub enum ProgressView {
    Execute(Seq<Seq<char>>),
    Finished(EngineReplyView),
    Failed(Seq<char>),
}

impl View for Progress {
    type V = ProgressView;

    open spec fn view(&self) -> ProgressView {
        match self {
            Progress::Execute(command) => ProgressView::Execute(command.deep_view()),
            Progress::Finished(reply) => ProgressView::Finished(reply@),
            Progress::Failed(message) => ProgressView::Failed(message@),
        }
    }
}

/// An operation on the engine that is under way.
#[derive(Debug)]
pub struct EngineTask {
    pub request: EngineRequest,
    pub stage: Stage,
    /// The name of the helper container of a migration.
    pub helper: String,
    /// Why the copy of a migration failed, kept while the helper is removed.
    pub failure: Option<String>,
}

pub struct EngineTaskView {
    pub request: EngineRequestView,
    pub stage: Stage,
    pub helper: Seq<char>,
    pub failure: Option<Seq<char>>,
}

impl View for EngineTask {
    type V = EngineTaskView;

    open spec fn view(&self) -> EngineTaskView {
        EngineTaskView {
            request: self.request@,
            stage: self.stage,
            helper: self.helper@,
            failure: self.failure.deep_view(),
        }
    }
}

pub open spec fn stop_command(target: Seq<char>) -> Seq<Seq<char>> {
    seq!["stop"@, target]
}

pub open spec fn remove_command(target: Seq<char>) -> Seq<Seq<char>> {
    seq!["rm"@, target]
}

pub open spec fn start_command(target: Seq<char>) -> Seq<Seq<char>> {
    seq!["start"@, target]
}

pub open spec fn inspect_volume_command(name: Seq<char>) -> Seq<Seq<char>> {
    seq!["volume"@, "inspect"@, name]
}

pub open spec fn create_volume_command(name: Seq<char>) -> Seq<Seq<char>> {
    seq!["volume"@, "create"@, name]
}

pub open spec fn remove_volume_command(name: Seq<char>) -> Seq<Seq<char>> {
    seq!["volume"@, "rm"@, name]
}

/// Creates the helper container of a migration: both volumes mounted, and a
/// copy of everything in the old one as its command. The copy counts as done
/// also where there was nothing to copy.
pub open spec fn helper_create_command(
    helper: Seq<char>,
    old_volume: Seq<char>,
    new_volume: Seq<char>,
) -> Seq<Seq<char>> {
    seq![
        "create"@,
        "--name"@,
        helper,
        "-v"@,
        old_volume + ":/old_data"@,
        "-v"@,
        new_volume + ":/new_data"@,
        "alpine:latest"@,
        "sh"@,
        "-c"@,
        "cp -a /old_data/. /new_data/ 2>/dev/null || true"@,
    ]
}

/// Starts the helper container and waits until it has ended.
pub open spec fn helper_start_command(helper: Seq<char>) -> Seq<Seq<char>> {
    seq!["start"@, "-a"@, helper]
}

/// The number of log lines asked for: 500 where none is given.
pub open spec fn tail_of(tail_lines: Option<i32>) -> int {
    match tail_lines {
        Some(n) => n as int,
        None => 500,
    }
}

pub open spec fn logs_command(container: Seq<char>, tail_lines: Option<i32>) -> Seq<Seq<char>> {
    seq!["logs"@, "--tail"@, decimal(tail_of(tail_lines)), "--timestamps"@, container]
}

/// Runs `command` with `sh -c` inside the container, with the width of the
/// terminal in `COLUMNS`.
pub open spec fn exec_command(container: Seq<char>, command: Seq<char>, columns: u16) -> Seq<
    Seq<char>,
> {
    seq![
        "exec"@,
        "-e"@,
        "COLUMNS="@ + decimal(columns as int),
        container,
        "sh"@,
        "-c"@,
        command,
    ]
}

pub open spec fn list_command() -> Seq<Seq<char>> {
    seq!["ps"@, "-a"@, "--format"@, "{{.ID}},{{.Names}},{{.Status}}"@]
}

/// The name of a helper container: `temp-migrate-` and a unique part.
pub open spec fn helper_name(unique: Seq<char>) -> Seq<char> {
    "temp-migrate-"@ + unique
}

/// The stage in which an operation begins.
pub open spec fn first_stage(request: EngineRequestView) -> Stage {
    match request {
        EngineRequestView::Remove { .. } | EngineRequestView::ForceRemove { .. } => Stage::Stopping,
        EngineRequestView::CreateVolume { .. } | EngineRequestView::RemoveVolume { .. } => {
            Stage::Inspecting
        },
        EngineRequestView::MigrateVolume { .. } => Stage::InspectingOld,
        _ => Stage::Only,
    }
}

/// The command with which an operation begins.
pub open spec fn first_command(request: EngineRequestView) -> Seq<Seq<char>> {
    match request {
        EngineRequestView::Run { args } => args,
        EngineRequestView::Start { container } => start_command(container),
        EngineRequestView::Stop { container } => stop_command(container),
        EngineRequestView::Remove { container } => stop_command(container),
        EngineRequestView::ForceRemove { name } => stop_command(name),
        EngineRequestView::CreateVolume { name } => inspect_volume_command(name),
        EngineRequestView::RemoveVolume { name } => inspect_volume_command(name),
        EngineRequestView::MigrateVolume { old_volume, .. } => inspect_volume_command(old_volume),
        EngineRequestView::Logs { container, tail_lines } => logs_command(container, tail_lines),
        EngineRequestView::Exec { container, command, columns } => exec_command(
            container,
            command,
            columns,
        ),
        EngineRequestView::List => list_command(),
    }
}

/// The task with which `request` begins, `helper` being the name for the
/// helper container of a migration.
pub open spec fn opening(request: EngineRequestView, helper: Seq<char>) -> EngineTaskView {
    EngineTaskView { request, stage: first_stage(request), helper, failure: None }
}

/// The command ran and reported success.
pub open spec fn succeeded(execution: ExecutionView) -> bool {
    execution matches ExecutionView::Completed(output) && output.success
}

/// `what` and then the reason for which the command did not succeed: what
/// it wrote to its error stream, or why it could not be run.
pub open spec fn failure(what: Seq<char>, execution: ExecutionView) -> Seq<char> {
    match execution {
        ExecutionView::Completed(output) => what + output.stderr,
        ExecutionView::NotStarted(reason) => what + reason,
    }
}

/// The command ran and failed for another reason than the one that `marker`
/// names: its error stream does not hold `marker`.
pub open spec fn refused(execution: ExecutionView, marker: Seq<char>) -> bool {
    execution matches ExecutionView::Completed(output) && !output.success && !has_part(
        output.stderr,
        marker,
    )
}

/// The task at rest.
pub open spec fn closed(task: EngineTaskView) -> EngineTaskView {
    EngineTaskView { stage: Stage::Closed, ..task }
}

pub open spec fn finished(task: EngineTaskView, reply: EngineReplyView) -> (
    EngineTaskView,
    ProgressView,
) {
    (closed(task), ProgressView::Finished(reply))
}

pub open spec fn failed(task: EngineTaskView, message: Seq<char>) -> (
    EngineTaskView,
    ProgressView,
) {
    (closed(task), ProgressView::Failed(message))
}

pub open spec fn proceed(task: EngineTaskView, stage: Stage, command: Seq<Seq<char>>) -> (
    EngineTaskView,
    ProgressView,
) {
    (EngineTaskView { stage, ..task }, ProgressView::Execute(command))
}

/// What is said of an output that belongs to no command.
pub open spec fn stray_output() -> Seq<char> {
    "No engine command is outstanding"@
}

/// The exit code that stands for a command that was ended from outside.
pub open spec fn exit_code_of(code: Option<i32>) -> i32 {
    match code {
        Some(c) => c,
        None => -1i32,
    }
}

/// The end of an operation that has a single command.
pub open spec fn step_only(task: EngineTaskView, execution: ExecutionView) -> (
    EngineTaskView,
    ProgressView,
) {
    match task.request {
        EngineRequestView::Run { .. } => match execution {
            ExecutionView::NotStarted(reason) => failed(
                task,
                "Failed to execute docker command: "@ + reason,
            ),
            ExecutionView::Completed(output) => if output.success {
                finished(task, EngineReplyView::Text(trimmed(output.stdout)))
            } else {
                failed(task, output.stderr)
            },
        },
        EngineRequestView::Start { .. } => if succeeded(execution) {
            finished(task, EngineReplyView::Done)
        } else {
            failed(task, failure("Failed to start container: "@, execution))
        },
        EngineRequestView::Stop { .. } => if succeeded(execution) {
            finished(task, EngineReplyView::Done)
        } else {
            failed(task, failure("Failed to stop container: "@, execution))
        },
        EngineRequestView::Logs { .. } => match execution {
            ExecutionView::Completed(output) => if output.success {
                finished(task, EngineReplyView::Text(output.stdout))
            } else {
                failed(task, failure("Failed to get container logs: "@, execution))
            },
            ExecutionView::NotStarted(_) => failed(
                task,
                failure("Failed to get container logs: "@, execution),
            ),
        },
        EngineRequestView::Exec { .. } => match execution {
            ExecutionView::Completed(output) => finished(
                task,
                EngineReplyView::Command {
                    stdout: output.stdout,
                    stderr: output.stderr,
                    exit_code: exit_code_of(output.code),
                },
            ),
            ExecutionView::NotStarted(reason) => failed(
                task,
                "Failed to execute command: "@ + reason,
            ),
        },
        EngineRequestView::List => match execution {
            ExecutionView::Completed(output) => if output.success {
                finished(task, EngineReplyView::Containers(observed_containers(output.stdout)))
            } else {
                failed(task, "Failed to get Docker containers"@)
            },
            ExecutionView::NotStarted(reason) => failed(
                task,
                "Failed to get Docker containers: "@ + reason,
            ),
        },
        _ => failed(task, stray_output()),
    }
}

/// A step in the removal of a container. Whatever comes of `stop`, `rm`
/// follows. A container that is not there counts as removed, and so does one
/// whose `rm` could not be run; a removal by name never fails.
pub open spec fn step_removal(task: EngineTaskView, execution: ExecutionView) -> (
    EngineTaskView,
    ProgressView,
) {
    match task.request {
        EngineRequestView::Remove { container } => if task.stage == Stage::Stopping {
            proceed(task, Stage::Removing, remove_command(container))
        } else if refused(execution, "No such container"@) {
            failed(task, failure("Failed to remove container: "@, execution))
        } else {
            finished(task, EngineReplyView::Done)
        },
        EngineRequestView::ForceRemove { name } => if task.stage == Stage::Stopping {
            proceed(task, Stage::Removing, remove_command(name))
        } else {
            finished(task, EngineReplyView::Done)
        },
        _ => failed(task, stray_output()),
    }
}

/// A step in the creation or removal of a volume. A volume that is there is
/// not created again; one that is not there is not removed, and one that has
/// gone in the meantime counts as removed.
pub open spec fn step_volume(task: EngineTaskView, execution: ExecutionView) -> (
    EngineTaskView,
    ProgressView,
) {
    match task.request {
        EngineRequestView::CreateVolume { name } => if task.stage == Stage::Inspecting {
            if succeeded(execution) {
                finished(task, EngineReplyView::Done)
            } else {
                proceed(task, Stage::Creating, create_volume_command(name))
            }
        } else if task.stage == Stage::Creating {
            if succeeded(execution) {
                finished(task, EngineReplyView::Done)
            } else {
                failed(task, failure("Failed to create volume: "@, execution))
            }
        } else {
            failed(task, stray_output())
        },
        EngineRequestView::RemoveVolume { name } => if task.stage == Stage::Inspecting {
            if succeeded(execution) {
                proceed(task, Stage::Deleting, remove_volume_command(name))
            } else {
                finished(task, EngineReplyView::Done)
            }
        } else if task.stage == Stage::Deleting {
            if refused(execution, "No such volume"@) {
                failed(task, failure("Failed to remove volume: "@, execution))
            } else {
                finished(task, EngineReplyView::Done)
            }
        } else {
            failed(task, stray_output())
        },
        _ => failed(task, stray_output()),
    }
}

/// Why the copy failed, if it did.
pub open spec fn copy_failure(execution: ExecutionView) -> Option<Seq<char>> {
    match execution {
        ExecutionView::Completed(output) => if output.success {
            None
        } else {
            Some("Failed to migrate volume data: "@ + output.stderr)
        },
        ExecutionView::NotStarted(_) => Some("Failed to execute data migration"@),
    }
}

/// A step in the migration of a volume. Without the old volume there is
/// nothing to do. The new volume is created unless it is there. Once the
/// helper container exists it is removed again whatever comes of the copy,
/// and only a copy that failed makes the migration fail.
pub open spec fn step_migration(task: EngineTaskView, execution: ExecutionView) -> (
    EngineTaskView,
    ProgressView,
) {
    match task.request {
        EngineRequestView::MigrateVolume { old_volume, new_volume, .. } => {
            let prepare = helper_create_command(task.helper, old_volume, new_volume);
            match task.stage {
                Stage::InspectingOld => if succeeded(execution) {
                    proceed(task, Stage::InspectingNew, inspect_volume_command(new_volume))
                } else {
                    finished(task, EngineReplyView::Done)
                },
                Stage::InspectingNew => if succeeded(execution) {
                    proceed(task, Stage::Preparing, prepare)
                } else {
                    proceed(task, Stage::CreatingNew, create_volume_command(new_volume))
                },
                Stage::CreatingNew => if succeeded(execution) {
                    proceed(task, Stage::Preparing, prepare)
                } else {
                    failed(task, failure("Failed to create volume: "@, execution))
                },
                Stage::Preparing => if succeeded(execution) {
                    proceed(task, Stage::Copying, helper_start_command(task.helper))
                } else {
                    failed(task, failure("Failed to create migration container: "@, execution))
                },
                Stage::Copying => proceed(
                    EngineTaskView { failure: copy_failure(execution), ..task },
                    Stage::Cleaning,
                    remove_command(task.helper),
                ),
                Stage::Cleaning => match task.failure {
                    Some(message) => failed(task, message),
                    None => finished(task, EngineReplyView::Done),
                },
                _ => failed(task, stray_output()),
            }
        },
        _ => failed(task, stray_output()),
    }
}

/// What follows when the command that `task` waits for has ended as
/// `execution` says: the task from then on, and what the caller does next.
pub open spec fn step(task: EngineTaskView, execution: ExecutionView) -> (
    EngineTaskView,
    ProgressView,
) {
    match task.stage {
        Stage::Only => step_only(task, execution),
        Stage::Stopping | Stage::Removing => step_removal(task, execution),
        Stage::Inspecting | Stage::Creating | Stage::Deleting => step_volume(task, execution),
        Stage::InspectingOld
        | Stage::InspectingNew
        | Stage::CreatingNew
        | Stage::Preparing
        | Stage::Copying
        | Stage::Cleaning => step_migration(task, execution),
        Stage::Closed => failed(task, stray_output()),
    }
}

fn words2(a: &str, b: &str) -> (r: Vec<String>)
    ensures
        r.deep_view() == seq![a@, b@],
{
    let mut out: Vec<String> = Vec::new();
    push_text(&mut out, String::from_str(a));
    push_text(&mut out, String::from_str(b));
    assert(out.deep_view() =~= seq![a@, b@]);
    out
}

fn words3(a: &str, b: &str, c: &str) -> (r: Vec<String>)
    ensures
        r.deep_view() == seq![a@, b@, c@],
{
    let mut out: Vec<String> = Vec::new();
    push_text(&mut out, String::from_str(a));
    push_text(&mut out, String::from_str(b));
    push_text(&mut out, String::from_str(c));
    assert(out.deep_view() =~= seq![a@, b@, c@]);
    out
}

fn helper_create_words(helper: &str, old_volume: &str, new_volume: &str) -> (r: Vec<String>)
    ensures
        r.deep_view() == helper_create_command(helper@, old_volume@, new_volume@),
{
    let mut out: Vec<String> = Vec::new();
    push_text(&mut out, String::from_str("create"));
    push_text(&mut out, String::from_str("--name"));
    push_text(&mut out, String::from_str(helper));
    push_text(&mut out, String::from_str("-v"));
    push_text(&mut out, join2(old_volume, ":/old_data"));
    push_text(&mut out, String::from_str("-v"));
    push_text(&mut out, join2(new_volume, ":/new_data"));
    push_text(&mut out, String::from_str("alpine:latest"));
    push_text(&mut out, String::from_str("sh"));
    push_text(&mut out, String::from_str("-c"));
    push_text(&mut out, String::from_str("cp -a /old_data/. /new_data/ 2>/dev/null || true"));
    assert(out.deep_view() =~= helper_create_command(helper@, old_volume@, new_volume@));
    out
}

fn logs_words(container: &str, tail_lines: Option<i32>) -> (r: Vec<String>)
    ensures
        r.deep_view() == logs_command(container@, tail_lines),
{
    let tail: i32 = match tail_lines {
        Some(n) => n,
        None => 500,
    };
    let mut out: Vec<String> = Vec::new();
    push_text(&mut out, String::from_str("logs"));
    push_text(&mut out, String::from_str("--tail"));
    push_text(&mut out, int_to_string(tail as i64));
    push_text(&mut out, String::from_str("--timestamps"));
    push_text(&mut out, String::from_str(container));
    assert(out.deep_view() =~= logs_command(container@, tail_lines));
    out
}

fn exec_words(container: &str, command: &str, columns: u16) -> (r: Vec<String>)
    ensures
        r.deep_view() == exec_command(container@, command@, columns),
{
    let width = int_to_string(columns as i64);
    let mut out: Vec<String> = Vec::new();
    push_text(&mut out, String::from_str("exec"));
    push_text(&mut out, String::from_str("-e"));
    push_text(&mut out, join2("COLUMNS=", width.as_str()));
    push_text(&mut out, String::from_str(container));
    push_text(&mut out, String::from_str("sh"));
    push_text(&mut out, String::from_str("-c"));
    push_text(&mut out, String::from_str(command));
    assert(out.deep_view() =~= exec_command(container@, command@, columns));
    out
}

fn list_words() -> (r: Vec<String>)
    ensures
        r.deep_view() == list_command(),
{
    let mut out: Vec<String> = Vec::new();
    push_text(&mut out, String::from_str("ps"));
    push_text(&mut out, String::from_str("-a"));
    push_text(&mut out, String::from_str("--format"));
    push_text(&mut out, String::from_str("{{.ID}},{{.Names}},{{.Status}}"));
    assert(out.deep_view() =~= list_command());
    out
}

impl Execution {
    /// Whether the command ran and reported success.
    pub fn succeeded(&self) -> (r: bool)
        ensures
            r == succeeded(self@),
    {
        match self {
            Execution::Completed(output) => output.success,
            Execution::NotStarted(_) => false,
        }
    }

    /// `what` and then the reason for which the command did not succeed.
    pub fn failure(&self, what: &str) -> (r: String)
        ensures
            r@ == failure(what@, self@),
    {
        match self {
            Execution::Completed(output) => join2(what, output.stderr.as_str()),
            Execution::NotStarted(reason) => join2(what, reason.as_str()),
        }
    }

    /// Whether the command ran and failed without naming `marker` in its
    /// error stream.
    pub fn refused(&self, marker: &str) -> (r: bool)
        ensures
            r == refused(self@, marker@),
    {
        match self {
            Execution::Completed(output) => !output.success && !contains(
                output.stderr.as_str(),
                marker,
            ),
            Execution::NotStarted(_) => false,
        }
    }
}

impl EngineRequest {
    /// The command with which the operation begins.
    pub fn first_command(&self) -> (r: Vec<String>)
        ensures
            r.deep_view() == first_command(self@),
    {
        match self {
            EngineRequest::Run { args } => copy_list(args),
            EngineRequest::Start { container } => words2("start", container.as_str()),
            EngineRequest::Stop { container } => words2("stop", container.as_str()),
            EngineRequest::Remove { container } => words2("stop", container.as_str()),
            EngineRequest::ForceRemove { name } => words2("stop", name.as_str()),
            EngineRequest::CreateVolume { name } => words3("volume", "inspect", name.as_str()),
            EngineRequest::RemoveVolume { name } => words3("volume", "inspect", name.as_str()),
            EngineRequest::MigrateVolume { old_volume, .. } => words3(
                "volume",
                "inspect",
                old_volume.as_str(),
            ),
            EngineRequest::Logs { container, tail_lines } => logs_words(
                container.as_str(),
                *tail_lines,
            ),
            EngineRequest::Exec { container, command, columns } => exec_words(
                container.as_str(),
                command.as_str(),
                *columns,
            ),
            EngineRequest::List => list_words(),
        }
    }

    /// The stage in which the operation begins.
    pub fn first_stage(&self) -> (r: Stage)
        ensures
            r == first_stage(self@),
    {
        match self {
            EngineRequest::Remove { .. } => Stage::Stopping,
            EngineRequest::ForceRemove { .. } => Stage::Stopping,
            EngineRequest::CreateVolume { .. } => Stage::Inspecting,
            EngineRequest::RemoveVolume { .. } => Stage::Inspecting,
            EngineRequest::MigrateVolume { .. } => Stage::InspectingOld,
            _ => Stage::Only,
        }
    }
}

impl EngineTask {
    /// Begins `request`, with `helper` as the name for the helper container
    /// of a migration: the task, and the first command to run.
    pub fn start_with(request: EngineRequest, helper: String) -> (r: (EngineTask, Vec<String>))
        ensures
            r.0@ == opening(request@, helper@),
            r.1.deep_view() == first_command(request@),
    {
        let command = request.first_command();
        let stage = request.first_stage();
        (EngineTask { request, stage, helper, failure: None }, command)
    }

    /// Begins `request`: the task, and the first command to run. A migration
    /// gets a helper container with a fresh name, `temp-migrate-` and 36
    /// characters; any other operation has none and the name is empty.
    pub fn start(request: EngineRequest) -> (r: (EngineTask, Vec<String>))
        ensures
            r.0@ == opening(request@, r.0@.helper),
            r.1.deep_view() == first_command(request@),
            request@ is MigrateVolume ==> exists|unique: Seq<char>|
                unique.len() == 36 && r.0@.helper == helper_name(unique),
            !(request@ is MigrateVolume) ==> r.0@.helper == Seq::<char>::empty(),
    {
        let helper = match &request {
            EngineRequest::MigrateVolume { .. } => {
                let unique = fresh_identifier();
                let name = join2("temp-migrate-", unique.as_str());
                assert(name@ == helper_name(unique@));
                name
            },
            _ => String::new(),
        };
        EngineTask::start_with(request, helper)
    }

    fn finish(self, reply: EngineReply) -> (r: (EngineTask, Progress))
        ensures
            (r.0@, r.1@) == finished(self@, reply@),
    {
        (
            EngineTask {
                request: self.request,
                stage: Stage::Closed,
                helper: self.helper,
                failure: self.failure,
            },
            Progress::Finished(reply),
        )
    }

    fn fail(self, message: String) -> (r: (EngineTask, Progress))
        ensures
            (r.0@, r.1@) == failed(self@, message@),
    {
        (
            EngineTask {
                request: self.request,
                stage: Stage::Closed,
                helper: self.helper,
                failure: self.failure,
            },
            Progress::Failed(message),
        )
    }

    fn proceed(self, stage: Stage, command: Vec<String>) -> (r: (EngineTask, Progress))
        ensures
            (r.0@, r.1@) == proceed(self@, stage, command.deep_view()),
    {
        (
            EngineTask {
                request: self.request,
                stage,
                helper: self.helper,
                failure: self.failure,
            },
            Progress::Execute(command),
        )
    }

    fn stray(self) -> (r: (EngineTask, Progress))
        ensures
            (r.0@, r.1@) == failed(self@, stray_output()),
    {
        self.fail(String::from_str("No engine command is outstanding"))
    }

    fn advance_only(self, execution: &Execution) -> (r: (EngineTask, Progress))
        ensures
            (r.0@, r.1@) == step_only(self@, execution@),
    {
        match &self.request {
            EngineRequest::Run { .. } => match execution {
                Execution::NotStarted(reason) => {
                    let message = join2("Failed to execute docker command: ", reason.as_str());
                    self.fail(message)
                },
                Execution::Completed(output) => {
                    if output.success {
                        let id = trim(output.stdout.as_str());
                        self.finish(EngineReply::Text(id))
                    } else {
                        let message = output.stderr.clone();
                        self.fail(message)
                    }
                },
            },
            EngineRequest::Start { .. } => {
                if execution.succeeded() {
                    self.finish(EngineReply::Done)
                } else {
                    let message = execution.failure("Failed to start container: ");
                    self.fail(message)
                }
            },
            EngineRequest::Stop { .. } => {
                if execution.succeeded() {
                    self.finish(EngineReply::Done)
                } else {
                    let message = execution.failure("Failed to stop container: ");
                    self.fail(message)
                }
            },
            EngineRequest::Logs { .. } => match execution {
                Execution::Completed(output) => {
                    if output.success {
                        let text = output.stdout.clone();
                        self.finish(EngineReply::Text(text))
                    } else {
                        let message = execution.failure("Failed to get container logs: ");
                        self.fail(message)
                    }
                },
                Execution::NotStarted(_) => {
                    let message = execution.failure("Failed to get container logs: ");
                    self.fail(message)
                },
            },
            EngineRequest::Exec { .. } => match execution {
                Execution::Completed(output) => {
                    let exit_code: i32 = match output.code {
                        Some(c) => c,
                        None => -1,
                    };
                    let reply = EngineReply::Command {
                        stdout: output.stdout.clone(),
                        stderr: output.stderr.clone(),
                        exit_code,
                    };
                    self.finish(reply)
                },
                Execution::NotStarted(reason) => {
                    let message = join2("Failed to execute command: ", reason.as_str());
                    self.fail(message)
                },
            },
            EngineRequest::List => match execution {
                Execution::Completed(output) => {
                    if output.success {
                        let list = parse_listing(output.stdout.as_str());
                        self.finish(EngineReply::Containers(list))
                    } else {
                        self.fail(String::from_str("Failed to get Docker containers"))
                    }
                },
                Execution::NotStarted(reason) => {
                    let message = join2("Failed to get Docker containers: ", reason.as_str());
                    self.fail(message)
                },
            },
            _ => self.stray(),
        }
    }

    fn advance_removal(self, execution: &Execution) -> (r: (EngineTask, Progress))
        requires
            self.stage == Stage::Stopping || self.stage == Stage::Removing,
        ensures
            (r.0@, r.1@) == step_removal(self@, execution@),
    {
        match &self.request {
            EngineRequest::Remove { container } => {
                if self.stage == Stage::Stopping {
                    let command = words2("rm", container.as_str());
                    self.proceed(Stage::Removing, command)
                } else if execution.refused("No such container") {
                    let message = execution.failure("Failed to remove container: ");
                    self.fail(message)
                } else {
                    self.finish(EngineReply::Done)
                }
            },
            EngineRequest::ForceRemove { name } => {
                if self.stage == Stage::Stopping {
                    let command = words2("rm", name.as_str());
                    self.proceed(Stage::Removing, command)
                } else {
                    self.finish(EngineReply::Done)
                }
            },
            _ => self.stray(),
        }
    }

    fn advance_volume(self, execution: &Execution) -> (r: (EngineTask, Progress))
        ensures
            (r.0@, r.1@) == step_volume(self@, execution@),
    {
        match &self.request {
            EngineRequest::CreateVolume { name } => {
                if self.stage == Stage::Inspecting {
                    if execution.succeeded() {
                        self.finish(EngineReply::Done)
                    } else {
                        let command = words3("volume", "create", name.as_str());
                        self.proceed(Stage::Creating, command)
                    }
                } else if self.stage == Stage::Creating {
                    if execution.succeeded() {
                        self.finish(EngineReply::Done)
                    } else {
                        let message = execution.failure("Failed to create volume: ");
                        self.fail(message)
                    }
                } else {
                    self.stray()
                }
            },
            EngineRequest::RemoveVolume { name } => {
                if self.stage == Stage::Inspecting {
                    if execution.succeeded() {
                        let command = words3("volume", "rm", name.as_str());
                        self.proceed(Stage::Deleting, command)
                    } else {
                        self.finish(EngineReply::Done)
                    }
                } else if self.stage == Stage::Deleting {
                    if execution.refused("No such volume") {
                        let message = execution.failure("Failed to remove volume: ");
                        self.fail(message)
                    } else {
                        self.finish(EngineReply::Done)
                    }
                } else {
                    self.stray()
                }
            },
            _ => self.stray(),
        }
    }

    fn advance_migration(self, execution: &Execution) -> (r: (EngineTask, Progress))
        ensures
            (r.0@, r.1@) == step_migration(self@, execution@),
    {
        match &self.request {
            EngineRequest::MigrateVolume { old_volume, new_volume, .. } => {
                match self.stage {
                    Stage::InspectingOld => {
                        if execution.succeeded() {
                            let command = words3("volume", "inspect", new_volume.as_str());
                            self.proceed(Stage::InspectingNew, command)
                        } else {
                            self.finish(EngineReply::Done)
                        }
                    },
                    Stage::InspectingNew => {
                        if execution.succeeded() {
                            let command = helper_create_words(
                                self.helper.as_str(),
                                old_volume.as_str(),
                                new_volume.as_str(),
                            );
                            self.proceed(Stage::Preparing, command)
                        } else {
                            let command = words3("volume", "create", new_volume.as_str());
                            self.proceed(Stage::CreatingNew, command)
                        }
                    },
                    Stage::CreatingNew => {
                        if execution.succeeded() {
                            let command = helper_create_words(
                                self.helper.as_str(),
                                old_volume.as_str(),
                                new_volume.as_str(),
                            );
                            self.proceed(Stage::Preparing, command)
                        } else {
                            let message = execution.failure("Failed to create volume: ");
                            self.fail(message)
                        }
                    },
                    Stage::Preparing => {
                        if execution.succeeded() {
                            let command = words3("start", "-a", self.helper.as_str());
                            self.proceed(Stage::Copying, command)
                        } else {
                            let message = execution.failure(
                                "Failed to create migration container: ",
                            );
                            self.fail(message)
                        }
                    },
                    Stage::Copying => {
                        let failure = match execution {
                            Execution::Completed(output) => {
                                if output.success {
                                    None
                                } else {
                                    Some(
                                        join2(
                                            "Failed to migrate volume data: ",
                                            output.stderr.as_str(),
                                        ),
                                    )
                                }
                            },
                            Execution::NotStarted(_) => Some(
                                String::from_str("Failed to execute data migration"),
                            ),
                        };
                        let command = words2("rm", self.helper.as_str());
                        let task = EngineTask {
                            request: self.request,
                            stage: self.stage,
                            helper: self.helper,
                            failure,
                        };
                        task.proceed(Stage::Cleaning, command)
                    },
                    Stage::Cleaning => {
                        match &self.failure {
                            Some(message) => {
                                let message = message.clone();
                                self.fail(message)
                            },
                            None => self.finish(EngineReply::Done),
                        }
                    },
                    _ => self.stray(),
                }
            },
            _ => self.stray(),
        }
    }

    /// Takes what came of the command that the task waits for, and says what
    /// the caller does next. A task that has ended answers every further
    /// output with a failure.
    pub fn advance(self, execution: &Execution) -> (r: (EngineTask, Progress))
        ensures
            (r.0@, r.1@) == step(self@, execution@),
    {
        match self.stage {
            Stage::Only => self.advance_only(execution),
            Stage::Stopping => self.advance_removal(execution),
            Stage::Removing => self.advance_removal(execution),
            Stage::Inspecting => self.advance_volume(execution),
            Stage::Creating => self.advance_volume(execution),
            Stage::Deleting => self.advance_volume(execution),
            Stage::Closed => self.stray(),
            _ => self.advance_migration(execution),
        }
    }
}

impl DockerService {
    /// Begins to start the container `container_id`.
    pub fn start_container(&self, container_id: &str) -> (r: (EngineTask, Vec<String>))
        ensures
            r.0@ == opening(
                EngineRequestView::Start { container: container_id@ },
                Seq::<char>::empty(),
            ),
            r.1.deep_view() == start_command(container_id@),
    {
        EngineTask::start(EngineRequest::Start { container: String::from_str(container_id) })
    }

    /// Begins to stop the container `container_id`.
    pub fn stop_container(&self, container_id: &str) -> (r: (EngineTask, Vec<String>))
        ensures
            r.0@ == opening(
                EngineRequestView::Stop { container: container_id@ },
                Seq::<char>::empty(),
            ),
            r.1.deep_view() == stop_command(container_id@),
    {
        EngineTask::start(EngineRequest::Stop { container: String::from_str(container_id) })
    }

    /// Begins to remove the container `container_id`: it is stopped first.
    pub fn remove_container(&self, container_id: &str) -> (r: (EngineTask, Vec<String>))
        ensures
            r.0@ == opening(
                EngineRequestView::Remove { container: container_id@ },
                Seq::<char>::empty(),
            ),
            r.1.deep_view() == stop_command(container_id@),
    {
        EngineTask::start(EngineRequest::Remove { container: String::from_str(container_id) })
    }

    /// Begins to remove the container called `container_name`, whatever
    /// comes of it: it is stopped first.
    pub fn force_remove_container_by_name(&self, container_name: &str) -> (r: (
        EngineTask,
        Vec<String>,
    ))
        ensures
            r.0@ == opening(
                EngineRequestView::ForceRemove { name: container_name@ },
                Seq::<char>::empty(),
            ),
            r.1.deep_view() == stop_command(container_name@),
    {
        EngineTask::start(EngineRequest::ForceRemove { name: String::from_str(container_name) })
    }

    /// Begins to create the volume `volume_name` unless it is there: it is
    /// looked for first.
    pub fn create_volume_if_needed(&self, volume_name: &str) -> (r: (EngineTask, Vec<String>))
        ensures
            r.0@ == opening(
                EngineRequestView::CreateVolume { name: volume_name@ },
                Seq::<char>::empty(),
            ),
            r.1.deep_view() == inspect_volume_command(volume_name@),
    {
        EngineTask::start(EngineRequest::CreateVolume { name: String::from_str(volume_name) })
    }

    /// Begins to remove the volume `volume_name` if it is there: it is looked
    /// for first.
    pub fn remove_volume_if_exists(&self, volume_name: &str) -> (r: (EngineTask, Vec<String>))
        ensures
            r.0@ == opening(
                EngineRequestView::RemoveVolume { name: volume_name@ },
                Seq::<char>::empty(),
            ),
            r.1.deep_view() == inspect_volume_command(volume_name@),
    {
        EngineTask::start(EngineRequest::RemoveVolume { name: String::from_str(volume_name) })
    }

    /// Begins to run a container from the argument list `docker_args`.
    pub fn run_container(&self, docker_args: &Vec<String>) -> (r: (EngineTask, Vec<String>))
        ensures
            r.0@ == opening(
                EngineRequestView::Run { args: docker_args.deep_view() },
                Seq::<char>::empty(),
            ),
            r.1.deep_view() == docker_args.deep_view(),
    {
        EngineTask::start(EngineRequest::Run { args: copy_list(docker_args) })
    }

    /// Begins to copy what the volume `old_volume` holds into `new_volume`:
    /// the old volume is looked for first. The helper container gets a fresh
    /// name, `temp-migrate-` and 36 characters.
    pub fn migrate_volume_data(&self, old_volume: &str, new_volume: &str, data_path: &str) -> (r: (
        EngineTask,
        Vec<String>,
    ))
        ensures
            r.0@ == opening(
                EngineRequestView::MigrateVolume {
                    old_volume: old_volume@,
                    new_volume: new_volume@,
                    data_path: data_path@,
                },
                r.0@.helper,
            ),
            exists|unique: Seq<char>| unique.len() == 36 && r.0@.helper == helper_name(unique),
            r.1.deep_view() == inspect_volume_command(old_volume@),
    {
        EngineTask::start(
            EngineRequest::MigrateVolume {
                old_volume: String::from_str(old_volume),
                new_volume: String::from_str(new_volume),
                data_path: String::from_str(data_path),
            },
        )
    }

    /// Begins to read the last `tail_lines` lines of the log of the container
    /// `container_id`, with timestamps; 500 lines where no number is given.
    pub fn get_container_logs(&self, container_id: &str, tail_lines: Option<i32>) -> (r: (
        EngineTask,
        Vec<String>,
    ))
        ensures
            r.0@ == opening(
                EngineRequestView::Logs { container: container_id@, tail_lines },
                Seq::<char>::empty(),
            ),
            r.1.deep_view() == logs_command(container_id@, tail_lines),
    {
        EngineTask::start(
            EngineRequest::Logs { container: String::from_str(container_id), tail_lines },
        )
    }

    /// Begins to run the shell command `command` inside the container
    /// `container_id`, for a terminal that is `columns` wide.
    pub fn execute_container_command(&self, container_id: &str, command: &str, columns: u16) -> (r: (
        EngineTask,
        Vec<String>,
    ))
        ensures
            r.0@ == opening(
                EngineRequestView::Exec { container: container_id@, command: command@, columns },
                Seq::<char>::empty(),
            ),
            r.1.deep_view() == exec_command(container_id@, command@, columns),
    {
        EngineTask::start(
            EngineRequest::Exec {
                container: String::from_str(container_id),
                command: String::from_str(command),
                columns,
            },
        )
    }

    /// Begins to list all containers.
    pub fn list_containers(&self) -> (r: (EngineTask, Vec<String>))
        ensures
            r.0@ == opening(EngineRequestView::List, Seq::<char>::empty()),
            r.1.deep_view() == list_command(),
    {
        EngineTask::start(EngineRequest::List)
    }
}

/// Removing a container that is not there is no failure: when `rm` says
/// that there is no such container, the removal has succeeded.
pub proof fn lemma_absent_container_is_removed(task: EngineTaskView, execution: ExecutionView)
    requires
        task.stage == Stage::Removing,
        task.request is Remove || task.request is ForceRemove,
        execution matches ExecutionView::Completed(output) && has_part(
            output.stderr,
            "No such container"@,
        ),
    ensures
        step(task, execution).1 == ProgressView::Finished(EngineReplyView::Done),
{
}

/// A removal by name never fails, whatever comes of its commands.
pub proof fn lemma_forced_removal_never_fails(task: EngineTaskView, execution: ExecutionView)
    requires
        task.request is ForceRemove,
        task.stage == Stage::Stopping || task.stage == Stage::Removing,
    ensures
        !(step(task, execution).1 is Failed),
{
}

/// Removing a volume that is not there is no failure: when the volume is
/// not found no `rm` is tried, and when `rm` says that there is no such
/// volume, the removal has succeeded.
pub proof fn lemma_absent_volume_is_removed(task: EngineTaskView, execution: ExecutionView)
    requires
        task.request is RemoveVolume,
        (task.stage == Stage::Inspecting && !succeeded(execution)) || (task.stage
            == Stage::Deleting && (execution matches ExecutionView::Completed(output) && has_part(
            output.stderr,
            "No such volume"@,
        ))),
    ensures
        step(task, execution).1 == ProgressView::Finished(EngineReplyView::Done),
{
}

/// Once the helper container of a migration exists, it is removed whatever
/// comes of the copy; and after that the migration fails exactly where the
/// copy failed, whatever comes of the removal.
pub proof fn lemma_helper_is_always_removed(
    task: EngineTaskView,
    copy: ExecutionView,
    removal: ExecutionView,
)
    requires
        task.request is MigrateVolume,
        task.stage == Stage::Copying,
    ensures
        step(task, copy).1 == ProgressView::Execute(remove_command(task.helper)),
        step(task, copy).0.stage == Stage::Cleaning,
        step(step(task, copy).0, removal).1 is Failed <==> !succeeded(copy),
        !succeeded(copy) ==> step(step(task, copy).0, removal).1 == ProgressView::Failed(
            copy_failure(copy)->0,
        ),
        succeeded(copy) ==> step(step(task, copy).0, removal).1 == ProgressView::Finished(
            EngineReplyView::Done,
        ),
{
}

/// A migration without the old volume has nothing to do and succeeds.
pub proof fn lemma_nothing_to_migrate(task: EngineTaskView, execution: ExecutionView)
    requires
        task.request is MigrateVolume,
        task.stage == Stage::InspectingOld,
        !succeeded(execution),
    ensures
        step(task, execution).1 == ProgressView::Finished(EngineReplyView::Done),
{
}

/// A task that has ended stays ended.
pub proof fn lemma_closed_stays_closed(task: EngineTaskView, execution: ExecutionView)
    requires
        task.stage == Stage::Closed,
    ensures
        step(task, execution).0 == task,
        step(task, execution).1 == ProgressView::Failed(stray_output()),
{
}

} // verus!
