//! Looking at the engine: its status, the log of a container, and commands
//! run inside one.

use vstd::prelude::*;

use crate::services::docker::DockerService;
use crate::services::engine::{
    exec_command, logs_command, opening, EngineRequestView, EngineTask,
};
use crate::services::status::{version_command, StatusCheck, StatusCheckView, StatusStage};

pub use crate::commands::upkeep::sync_containers_with_docker;

verus! {

/// The width of a terminal for which none is given.
pub open spec fn default_columns() -> u16 {
    80
}

/// The width that `columns` asks for: 80 where none is given.
pub open spec fn columns_of(columns: Option<u16>) -> u16 {
    match columns {
        Some(width) => width,
        None => default_columns(),
    }
}

/// Begins to check the engine: the check, and the first command.
pub fn get_docker_status() -> (r: (StatusCheck, Vec<String>))
    ensures
        r.0@ == (StatusCheckView { stage: StatusStage::Version, version: None }),
        r.1.deep_view() == version_command(),
{
    DockerService::new().check_docker_status()
}

/// Begins to read the last `tail_lines` lines of the log of the container
/// `container_id`; 500 lines where no number is given.
pub fn get_container_logs(container_id: &str, tail_lines: Option<i32>) -> (r: (
    EngineTask,
    Vec<String>,
))
    ensures
        r.0@ == opening(
            EngineRequestView::Logs { container: container_id@, tail_lines },
            Seq::<char>::empty(),
        ),
        r.1.deep_view() == logs_command(container_id@, tail_lines),
{
    DockerService::new().get_container_logs(container_id, tail_lines)
}

/// Begins to run the shell command `command` inside the container
/// `container_id`, for a terminal that is `columns` wide; 80 where no width
/// is given.
pub fn execute_container_command(container_id: &str, command: &str, columns: Option<u16>) -> (r: (
    EngineTask,
    Vec<String>,
))
    ensures
        r.0@ == opening(
            EngineRequestView::Exec {
                container: container_id@,
                command: command@,
                columns: columns_of(columns),
            },
            Seq::<char>::empty(),
        ),
        r.1.deep_view() == exec_command(container_id@, command@, columns_of(columns)),
{
    let width: u16 = match columns {
        Some(width) => width,
        None => 80,
    };
    DockerService::new().execute_container_command(container_id, command, width)
}

} // verus!
