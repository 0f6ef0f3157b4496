//! Creating and updating a database: volumes, the container, the record,
//! and what is taken back when a later part fails.

use vstd::prelude::*;

use crate::ambient::{fresh_identifier, today};
use crate::commands::protocol::{
    from_engine, not_found, stray_event, Action, ActionView, Event, EventView, Outcome,
    OutcomeView,
};
use crate::services::docker::{
    data_path_of, kind_of, kind_run_spec, run_args, unsupported_kind, DatabaseKind, DockerService,
};
use crate::services::engine::{EngineReply, EngineReplyView, EngineRequest, EngineRequestView};
use crate::services::reconcile::running_status;
use crate::text::{contains, copy_optional, decimal, has_part, int_to_string, join2, join3};
use crate::types::database::{
    record_of, with_record, without_id, DatabaseContainer, DatabaseContainerView, DatabaseStore,
};
use crate::types::docker::{
    ContainerMetadata, ContainerMetadataView, DockerRunArgs, DockerRunArgsView, DockerRunRequest,
    DockerRunRequestView, EnvVars,
};
use crate::types::errors::{CreateContainerError, CreateContainerErrorView};
use crate::types::requests::{
    CreateDatabaseRequest, CreateDatabaseRequestView, UpdateContainerRequest,
    UpdateContainerRequestView,
};

pub use crate::commands::upkeep::{
    get_all_databases, remove_container, start_container, stop_container,
};

verus! {

/// What happens to the data volume when a container is made anew.
#[derive(Debug, Clone, Copy, PartialEq, Eq, Structural)]
pub enum VolumeTransition {
    /// There was no volume and there will be none.
    Keep,
    /// The name changes and the data stays: the old volume is copied into
    /// the new one and then removed.
    Migrate,
    /// There was no volume and there will be one: it is created.
    Create,
    /// There was a volume and there will be none: it is removed.
    Delete,
    /// The name stays and the data stays: the volume is created only if it
    /// has gone missing.
    Ensure,
}

/// The name of the volume that holds the data of the container `name`.
pub open spec fn volume_name(name: Seq<char>) -> Seq<char> {
    name + "-data"@
}

/// Whether a record can only take the new name, port and persistence by
/// having its container made anew. Nothing else forces that.
pub open spec fn recreation_needed(
    record: DatabaseContainerView,
    name: Seq<char>,
    port: i32,
    persist_data: bool,
) -> bool {
    record.name != name || record.port != port || record.stored_persist_data != persist_data
}

/// What happens to the data volume of a container that is made anew.
pub open spec fn volume_transition(
    old_name: Seq<char>,
    old_persist: bool,
    new_name: Seq<char>,
    new_persist: bool,
) -> VolumeTransition {
    if old_persist && new_persist {
        if old_name != new_name {
            VolumeTransition::Migrate
        } else {
            VolumeTransition::Ensure
        }
    } else if new_persist {
        VolumeTransition::Create
    } else if old_persist {
        VolumeTransition::Delete
    } else {
        VolumeTransition::Keep
    }
}

/// The engine says that the port is taken.
pub open spec fn port_conflict(error: Seq<char>) -> bool {
    has_part(error, "port is already allocated"@) || has_part(error, "Bind for"@)
}

/// The engine says that the name is taken.
pub open spec fn name_conflict(error: Seq<char>) -> bool {
    has_part(error, "name is already in use"@) || has_part(error, "already exists"@)
}

/// The failure of a `run` that wrote `error`, for a container called `name`
/// on the port `port`. A taken port comes first, then a taken name; anything
/// else is a failure of the engine with what it wrote as details.
pub open spec fn classified(error: Seq<char>, name: Seq<char>, port: i32) -> CreateContainerErrorView {
    if port_conflict(error) {
        CreateContainerErrorView {
            error_type: "PORT_IN_USE"@,
            message: "Port "@ + decimal(port as int) + " is already in use"@,
            port: Some(port),
            details: Some("You can change the port in the configuration and try again."@),
        }
    } else if name_conflict(error) {
        CreateContainerErrorView {
            error_type: "NAME_IN_USE"@,
            message: "A container with the name '"@ + name + "' already exists"@,
            port: None,
            details: Some("Change the container name and try again."@),
        }
    } else {
        CreateContainerErrorView {
            error_type: "DOCKER_ERROR"@,
            message: "Error creating container"@,
            port: None,
            details: Some(error),
        }
    }
}

/// Where a create or an update stands: which action is under way.
#[derive(Debug, Clone, Copy, PartialEq, Eq, Structural)]
pub enum ProvisionPhase {
    /// The container of the record as it was is being removed.
    RemovingOld,
    /// The old volume is being copied into the new one.
    Migrating,
    /// The old volume is being removed.
    RemovingOldVolume,
    /// The volume at this position of the run specification is being
    /// created.
    CreatingVolumes(usize),
    /// The container is being run.
    Running,
    /// The run failed; what it may have left of the container is being
    /// removed.
    CleaningContainer,
    /// The run failed; the volume at this position is being removed.
    CleaningVolumes(usize),
    /// The records are being persisted.
    Saving,
    /// The records could not be persisted; the new container is being
    /// removed.
    RollingBackContainer,
    /// The records could not be persisted; the volume at this position is
    /// being removed.
    RollingBackVolumes(usize),
    /// Nothing is under way: the operation has ended.
    Closed,
}

/// A create or an update that is under way.
#[derive(Debug)]
pub struct Provision {
    pub phase: ProvisionPhase,
    /// What was asked for.
    pub request: DockerRunRequest,
    /// The record as it was before an update; `None` for a create.
    pub previous: Option<DatabaseContainer>,
    /// What happens to the data volume in an update.
    pub transition: VolumeTransition,
    /// The failure that is reported once everything is taken back.
    pub failure: String,
    /// The record as it will be, once the container runs.
    pub record: Option<DatabaseContainer>,
    /// The date that a new record got.
    pub stamp: String,
}

pub struct ProvisionView {
    pub phase: ProvisionPhase,
    pub request: DockerRunRequestView,
    pub previous: Option<DatabaseContainerView>,
    pub transition: VolumeTransition,
    pub failure: Seq<char>,
    pub record: Option<DatabaseContainerView>,
    pub stamp: Seq<char>,
}

impl View for Provision {
    type V = ProvisionView;

    open spec fn view(&self) -> ProvisionView {
        ProvisionView {
            phase: self.phase,
            request: self.request@,
            previous: self.previous.deep_view(),
            transition: self.transition,
            failure: self.failure@,
            record: self.record.deep_view(),
            stamp: self.stamp@,
        }
    }
}

/// The task while `request` is carried out on the engine.
pub open spec fn wait(task: ProvisionView, phase: ProvisionPhase, request: EngineRequestView) -> (
    ProvisionView,
    ActionView,
) {
    (ProvisionView { phase, ..task }, ActionView::Engine(request))
}

/// The task at its end.
pub open spec fn end(task: ProvisionView, outcome: OutcomeView) -> (ProvisionView, ActionView) {
    (ProvisionView { phase: ProvisionPhase::Closed, ..task }, ActionView::Done(outcome))
}

/// The end that an event brings which answers no action.
pub open spec fn stray(task: ProvisionView) -> (ProvisionView, ActionView) {
    end(task, OutcomeView::Failed(stray_event()))
}

/// The container is run, from the run specification of the request.
pub open spec fn run_now(task: ProvisionView) -> (ProvisionView, ActionView) {
    wait(
        task,
        ProvisionPhase::Running,
        EngineRequestView::Run { args: run_args(task.request.name, task.request.docker_args) },
    )
}

/// The volumes of the run specification are created one after the other,
/// from position `at` on; after the last one the container is run.
pub open spec fn create_volumes_from(task: ProvisionView, at: int) -> (ProvisionView, ActionView) {
    if 0 <= at < task.request.docker_args.volumes.len() {
        wait(
            task,
            ProvisionPhase::CreatingVolumes(at as usize),
            EngineRequestView::CreateVolume { name: task.request.docker_args.volumes[at].name },
        )
    } else {
        run_now(task)
    }
}

/// Whether the volumes of the run specification were made by this very
/// operation, so that a failed run takes them away again: in a create, and
/// in an update that gives data a volume for the first time.
pub open spec fn cleans_volumes(task: ProvisionView) -> bool {
    task.previous is None || task.transition == VolumeTransition::Create
}

/// After a failed run, the volumes that this operation made are removed one
/// after the other, from position `at` on; then the failure is reported by
/// its kind.
pub open spec fn clean_volumes_from(task: ProvisionView, at: int) -> (ProvisionView, ActionView) {
    if cleans_volumes(task) && 0 <= at < task.request.docker_args.volumes.len() {
        wait(
            task,
            ProvisionPhase::CleaningVolumes(at as usize),
            EngineRequestView::RemoveVolume { name: task.request.docker_args.volumes[at].name },
        )
    } else {
        end(
            task,
            OutcomeView::Rejected(
                classified(task.failure, task.request.name, task.request.metadata.port),
            ),
        )
    }
}

/// The message for records that could not be persisted.
pub open spec fn save_failure(reason: Seq<char>) -> Seq<char> {
    "Error saving configuration: "@ + reason
}

/// After a create whose record could not be persisted, the volumes are
/// removed one after the other, from position `at` on; then the failure is
/// reported.
pub open spec fn roll_back_volumes_from(task: ProvisionView, at: int) -> (
    ProvisionView,
    ActionView,
) {
    if 0 <= at < task.request.docker_args.volumes.len() {
        wait(
            task,
            ProvisionPhase::RollingBackVolumes(at as usize),
            EngineRequestView::RemoveVolume { name: task.request.docker_args.volumes[at].name },
        )
    } else {
        end(task, OutcomeView::Failed(save_failure(task.failure)))
    }
}

/// What an update does once the old container is out of the way: the step
/// that its volume transition asks for, or the run itself.
pub open spec fn after_old_container(task: ProvisionView) -> (ProvisionView, ActionView) {
    match task.previous {
        Some(previous) => match task.transition {
            VolumeTransition::Migrate => wait(
                task,
                ProvisionPhase::Migrating,
                EngineRequestView::MigrateVolume {
                    old_volume: volume_name(previous.name),
                    new_volume: volume_name(task.request.name),
                    data_path: data_path_of(task.request.metadata.db_type),
                },
            ),
            VolumeTransition::Delete => wait(
                task,
                ProvisionPhase::RemovingOldVolume,
                EngineRequestView::RemoveVolume { name: volume_name(previous.name) },
            ),
            VolumeTransition::Create | VolumeTransition::Ensure => create_volumes_from(task, 0),
            VolumeTransition::Keep => run_now(task),
        },
        None => stray(task),
    }
}

/// The number of connections of a record for which none is asked.
pub open spec fn default_max_connections() -> i32 {
    100
}

/// The record of the container `container` that now runs. A new record has
/// the id of the request, the date `today` and 100 connections unless the
/// request names a number. An updated record keeps its id, its date and,
/// unless the request names a number, its connections. Everything else is
/// as the request says.
pub open spec fn built_record(
    task: ProvisionView,
    container: Seq<char>,
    today: Seq<char>,
) -> DatabaseContainerView {
    let metadata = task.request.metadata;
    DatabaseContainerView {
        id: match task.previous {
            Some(previous) => previous.id,
            None => metadata.id,
        },
        name: task.request.name,
        db_type: metadata.db_type,
        version: metadata.version,
        status: running_status(),
        port: metadata.port,
        created_at: match task.previous {
            Some(previous) => previous.created_at,
            None => today,
        },
        max_connections: match metadata.max_connections {
            Some(number) => number,
            None => match task.previous {
                Some(previous) => previous.max_connections,
                None => default_max_connections(),
            },
        },
        container_id: Some(container),
        stored_password: Some(metadata.password),
        stored_username: metadata.username,
        stored_database_name: metadata.database_name,
        stored_persist_data: metadata.persist_data,
        stored_enable_auth: metadata.enable_auth,
    }
}

/// The record is stored and the records are handed out to be persisted.
pub open spec fn stored(
    task: ProvisionView,
    records: Seq<DatabaseContainerView>,
    record: DatabaseContainerView,
) -> (ProvisionView, Seq<DatabaseContainerView>, ActionView) {
    (
        ProvisionView { phase: ProvisionPhase::Saving, record: Some(record), ..task },
        with_record(records, record),
        ActionView::Save(with_record(records, record)),
    )
}

/// A step before the run: the old container and the volumes. A failure
/// here ends the operation with the engine's message, and nothing is taken
/// back.
pub open spec fn step_preparing(task: ProvisionView, event: EventView) -> (
    ProvisionView,
    ActionView,
) {
    match event {
        EventView::EngineFailed(message) => end(task, OutcomeView::Failed(message)),
        EventView::EngineDone(_) => match task.phase {
            ProvisionPhase::RemovingOld => after_old_container(task),
            ProvisionPhase::Migrating => match task.previous {
                Some(previous) => wait(
                    task,
                    ProvisionPhase::RemovingOldVolume,
                    EngineRequestView::RemoveVolume { name: volume_name(previous.name) },
                ),
                None => stray(task),
            },
            ProvisionPhase::RemovingOldVolume => run_now(task),
            ProvisionPhase::CreatingVolumes(at) => create_volumes_from(task, at + 1),
            _ => stray(task),
        },
        _ => stray(task),
    }
}

/// The step after the run. A container that runs gets its record, which is
/// stored and persisted. A run that failed is followed by the removal of
/// whatever it left under the container's name.
pub open spec fn step_running(
    task: ProvisionView,
    records: Seq<DatabaseContainerView>,
    event: EventView,
    today: Seq<char>,
) -> (ProvisionView, Seq<DatabaseContainerView>, ActionView) {
    match event {
        EventView::EngineDone(EngineReplyView::Text(container)) => stored(
            ProvisionView { stamp: today, ..task },
            records,
            built_record(task, container, today),
        ),
        EventView::EngineFailed(message) => {
            let next = wait(
                ProvisionView { failure: message, ..task },
                ProvisionPhase::CleaningContainer,
                EngineRequestView::ForceRemove { name: task.request.name },
            );
            (next.0, records, next.1)
        },
        _ => {
            let next = stray(task);
            (next.0, records, next.1)
        },
    }
}

/// A step while something is taken back. Whatever comes of it, the next
/// thing is taken back, and at the end the failure that started it is
/// reported.
pub open spec fn step_cleaning(task: ProvisionView, event: EventView) -> (
    ProvisionView,
    ActionView,
) {
    match event {
        EventView::EngineDone(_) | EventView::EngineFailed(_) => match task.phase {
            ProvisionPhase::CleaningContainer => clean_volumes_from(task, 0),
            ProvisionPhase::CleaningVolumes(at) => clean_volumes_from(task, at + 1),
            ProvisionPhase::RollingBackContainer => roll_back_volumes_from(task, 0),
            ProvisionPhase::RollingBackVolumes(at) => roll_back_volumes_from(task, at + 1),
            _ => stray(task),
        },
        _ => stray(task),
    }
}

/// The step after the records were handed out to be persisted. Persisted,
/// the record is the outcome. Not persisted, an update fails with the
/// reason; a create takes its record out again and goes on to remove the
/// container and the volumes.
pub open spec fn step_saving(
    task: ProvisionView,
    records: Seq<DatabaseContainerView>,
    event: EventView,
) -> (ProvisionView, Seq<DatabaseContainerView>, ActionView) {
    match task.record {
        Some(record) => match event {
            EventView::Saved => {
                let next = end(task, OutcomeView::Record(record));
                (next.0, records, next.1)
            },
            EventView::SaveFailed(reason) => match (task.previous, record.container_id) {
                (None, Some(container)) => {
                    let next = wait(
                        ProvisionView { failure: reason, ..task },
                        ProvisionPhase::RollingBackContainer,
                        EngineRequestView::Remove { container },
                    );
                    (next.0, without_id(records, record.id), next.1)
                },
                _ => {
                    let next = end(task, OutcomeView::Failed(reason));
                    (next.0, records, next.1)
                },
            },
            _ => {
                let next = stray(task);
                (next.0, records, next.1)
            },
        },
        None => {
            let next = stray(task);
            (next.0, records, next.1)
        },
    }
}

/// What follows when the action that `task` waits for has ended as `event`
/// says: the task from then on, the records from then on, and what the
/// caller does next. `today` is the date that a new record gets.
pub open spec fn provision_step(
    task: ProvisionView,
    records: Seq<DatabaseContainerView>,
    event: EventView,
    today: Seq<char>,
) -> (ProvisionView, Seq<DatabaseContainerView>, ActionView) {
    match task.phase {
        ProvisionPhase::RemovingOld
        | ProvisionPhase::Migrating
        | ProvisionPhase::RemovingOldVolume
        | ProvisionPhase::CreatingVolumes(_) => {
            let next = step_preparing(task, event);
            (next.0, records, next.1)
        },
        ProvisionPhase::Running => step_running(task, records, event, today),
        ProvisionPhase::CleaningContainer
        | ProvisionPhase::CleaningVolumes(_)
        | ProvisionPhase::RollingBackContainer
        | ProvisionPhase::RollingBackVolumes(_) => {
            let next = step_cleaning(task, event);
            (next.0, records, next.1)
        },
        ProvisionPhase::Saving => step_saving(task, records, event),
        ProvisionPhase::Closed => {
            let next = stray(task);
            (next.0, records, next.1)
        },
    }
}

/// The step gives a new record its date: a create whose container now
/// runs. The date is then a text of at least ten characters, `YYYY-MM-DD`.
pub open spec fn dated(task: ProvisionView, event: EventView) -> bool {
    &&& task.phase == ProvisionPhase::Running
    &&& task.previous is None
    &&& event matches EventView::EngineDone(EngineReplyView::Text(_))
}

/// A task for `request` before anything has happened.
pub open spec fn fresh_task(
    request: DockerRunRequestView,
    previous: Option<DatabaseContainerView>,
    transition: VolumeTransition,
) -> ProvisionView {
    ProvisionView {
        phase: ProvisionPhase::Closed,
        request,
        previous,
        transition,
        failure: Seq::empty(),
        record: None,
        stamp: Seq::empty(),
    }
}

/// How a create begins: with the first volume of the run specification, or
/// with the run where there is no volume.
pub open spec fn begin_create(request: DockerRunRequestView) -> (ProvisionView, ActionView) {
    create_volumes_from(fresh_task(request, None, VolumeTransition::Keep), 0)
}

/// The record after an update that leaves the container alone: only the
/// number of connections changes, and only where the request names one.
pub open spec fn touched_record(
    previous: DatabaseContainerView,
    request: DockerRunRequestView,
) -> DatabaseContainerView {
    DatabaseContainerView {
        max_connections: match request.metadata.max_connections {
            Some(number) => number,
            None => previous.max_connections,
        },
        ..previous
    }
}

/// How an update begins. Without a record of the request's id it fails.
/// Where the name, the port and the persistence stay, the record is touched
/// and persisted. Otherwise the container is made anew: the old container is
/// removed first where there is one, then the volume transition follows.
pub open spec fn begin_update(
    request: DockerRunRequestView,
    records: Seq<DatabaseContainerView>,
) -> (ProvisionView, Seq<DatabaseContainerView>, ActionView) {
    match record_of(records, request.metadata.id) {
        None => {
            let next = end(
                fresh_task(request, None, VolumeTransition::Keep),
                OutcomeView::Failed(not_found()),
            );
            (next.0, records, next.1)
        },
        Some(previous) => {
            let task = fresh_task(
                request,
                Some(previous),
                volume_transition(
                    previous.name,
                    previous.stored_persist_data,
                    request.name,
                    request.metadata.persist_data,
                ),
            );
            if recreation_needed(
                previous,
                request.name,
                request.metadata.port,
                request.metadata.persist_data,
            ) {
                let next = match previous.container_id {
                    Some(container) => wait(
                        task,
                        ProvisionPhase::RemovingOld,
                        EngineRequestView::Remove { container },
                    ),
                    None => after_old_container(task),
                };
                (next.0, records, next.1)
            } else {
                stored(task, records, touched_record(previous, request))
            }
        },
    }
}

/// The name of the volume that holds the data of the container `name`:
/// the name and `-data`.
pub fn derive_volume_name(name: &str) -> (r: String)
    ensures
        r@ == volume_name(name@),
{
    join2(name, "-data")
}

/// Whether `record` can only take the name `name`, the port `port` and the
/// persistence `persist_data` by having its container made anew: exactly
/// where one of the three differs from what the record holds.
pub fn needs_recreation(record: &DatabaseContainer, name: &str, port: i32, persist_data: bool) -> (r:
    bool)
    ensures
        r == recreation_needed(record@, name@, port, persist_data),
        r == (record.name@ != name@ || record.port != port || record.stored_persist_data
            != persist_data),
{
    let renamed = !crate::text::same_text(record.name.as_str(), name);
    renamed || record.port != port || record.stored_persist_data != persist_data
}

/// What happens to the data volume when a container called `old_name` is
/// made anew under the name `new_name`.
pub fn classify_volume_transition(
    old_name: &str,
    old_persist: bool,
    new_name: &str,
    new_persist: bool,
) -> (r: VolumeTransition)
    ensures
        r == volume_transition(old_name@, old_persist, new_name@, new_persist),
{
    if old_persist && new_persist {
        if !crate::text::same_text(old_name, new_name) {
            VolumeTransition::Migrate
        } else {
            VolumeTransition::Ensure
        }
    } else if new_persist {
        VolumeTransition::Create
    } else if old_persist {
        VolumeTransition::Delete
    } else {
        VolumeTransition::Keep
    }
}

/// The failure of a `run` that wrote `error`, for a container called `name`
/// on the port `port`, by its kind.
pub fn classify_run_failure(error: &str, name: &str, port: i32) -> (r: CreateContainerError)
    ensures
        r@ == classified(error@, name@, port),
{
    if contains(error, "port is already allocated") || contains(error, "Bind for") {
        let number = int_to_string(port as i64);
        CreateContainerError {
            error_type: String::from_str("PORT_IN_USE"),
            message: join3("Port ", number.as_str(), " is already in use"),
            port: Some(port),
            details: Some(
                String::from_str("You can change the port in the configuration and try again."),
            ),
        }
    } else if contains(error, "name is already in use") || contains(error, "already exists") {
        CreateContainerError {
            error_type: String::from_str("NAME_IN_USE"),
            message: join3("A container with the name '", name, "' already exists"),
            port: None,
            details: Some(String::from_str("Change the container name and try again.")),
        }
    } else {
        CreateContainerError {
            error_type: String::from_str("DOCKER_ERROR"),
            message: String::from_str("Error creating container"),
            port: None,
            details: Some(String::from_str(error)),
        }
    }
}

impl Provision {
    fn fresh(
        request: DockerRunRequest,
        previous: Option<DatabaseContainer>,
        transition: VolumeTransition,
    ) -> (r: Provision)
        ensures
            r@ == fresh_task(request@, previous.deep_view(), transition),
    {
        Provision {
            phase: ProvisionPhase::Closed,
            request,
            previous,
            transition,
            failure: String::new(),
            record: None,
            stamp: String::new(),
        }
    }

    fn wait(self, phase: ProvisionPhase, request: EngineRequest) -> (r: (Provision, Action))
        ensures
            (r.0@, r.1@) == wait(self@, phase, request@),
    {
        (Provision { phase, ..self }, Action::Engine(request))
    }

    fn end(self, outcome: Outcome) -> (r: (Provision, Action))
        ensures
            (r.0@, r.1@) == end(self@, outcome@),
    {
        (Provision { phase: ProvisionPhase::Closed, ..self }, Action::Done(outcome))
    }

    fn stray(self) -> (r: (Provision, Action))
        ensures
            (r.0@, r.1@) == stray(self@),
    {
        self.end(Outcome::Failed(String::from_str("No action is outstanding for this event")))
    }

    fn run_now(self) -> (r: (Provision, Action))
        ensures
            (r.0@, r.1@) == run_now(self@),
    {
        let service = DockerService::new();
        let args = service.build_docker_command_from_args(
            self.request.name.as_str(),
            &self.request.docker_args,
        );
        self.wait(ProvisionPhase::Running, EngineRequest::Run { args })
    }

    fn create_volumes_from(self, at: usize) -> (r: (Provision, Action))
        ensures
            (r.0@, r.1@) == create_volumes_from(self@, at as int),
    {
        if at < self.request.docker_args.volumes.len() {
            let name = self.request.docker_args.volumes[at].name.clone();
            self.wait(ProvisionPhase::CreatingVolumes(at), EngineRequest::CreateVolume { name })
        } else {
            self.run_now()
        }
    }

    fn cleans_volumes(&self) -> (r: bool)
        ensures
            r == cleans_volumes(self@),
    {
        self.previous.is_none() || self.transition == VolumeTransition::Create
    }

    fn clean_volumes_from(self, at: usize) -> (r: (Provision, Action))
        ensures
            (r.0@, r.1@) == clean_volumes_from(self@, at as int),
    {
        if self.cleans_volumes() && at < self.request.docker_args.volumes.len() {
            let name = self.request.docker_args.volumes[at].name.clone();
            self.wait(ProvisionPhase::CleaningVolumes(at), EngineRequest::RemoveVolume { name })
        } else {
            let error = classify_run_failure(
                self.failure.as_str(),
                self.request.name.as_str(),
                self.request.metadata.port,
            );
            self.end(Outcome::Rejected(error))
        }
    }

    fn roll_back_volumes_from(self, at: usize) -> (r: (Provision, Action))
        ensures
            (r.0@, r.1@) == roll_back_volumes_from(self@, at as int),
    {
        if at < self.request.docker_args.volumes.len() {
            let name = self.request.docker_args.volumes[at].name.clone();
            self.wait(ProvisionPhase::RollingBackVolumes(at), EngineRequest::RemoveVolume { name })
        } else {
            let message = join2("Error saving configuration: ", self.failure.as_str());
            self.end(Outcome::Failed(message))
        }
    }

    fn after_old_container(self) -> (r: (Provision, Action))
        ensures
            (r.0@, r.1@) == after_old_container(self@),
    {
        let old_name = match &self.previous {
            Some(previous) => previous.name.clone(),
            None => {
                return self.stray();
            },
        };
        match self.transition {
            VolumeTransition::Migrate => {
                let service = DockerService::new();
                let request = EngineRequest::MigrateVolume {
                    old_volume: derive_volume_name(old_name.as_str()),
                    new_volume: derive_volume_name(self.request.name.as_str()),
                    data_path: String::from_str(
                        service.get_data_path(self.request.metadata.db_type.as_str()),
                    ),
                };
                self.wait(ProvisionPhase::Migrating, request)
            },
            VolumeTransition::Delete => {
                let request = EngineRequest::RemoveVolume {
                    name: derive_volume_name(old_name.as_str()),
                };
                self.wait(ProvisionPhase::RemovingOldVolume, request)
            },
            VolumeTransition::Create => self.create_volumes_from(0),
            VolumeTransition::Ensure => self.create_volumes_from(0),
            VolumeTransition::Keep => self.run_now(),
        }
    }

    /// The record of the container `container` that now runs, with the date
    /// `today` where the record is new.
    fn build_record(&self, container: String, today: &String) -> (r: DatabaseContainer)
        ensures
            r@ == built_record(self@, container@, today@),
    {
        let metadata = &self.request.metadata;
        let (id, created_at, fallback) = match &self.previous {
            Some(previous) => (
                previous.id.clone(),
                previous.created_at.clone(),
                previous.max_connections,
            ),
            None => (metadata.id.clone(), today.clone(), 100),
        };
        let max_connections: i32 = match metadata.max_connections {
            Some(number) => number,
            None => fallback,
        };
        DatabaseContainer {
            id,
            name: self.request.name.clone(),
            db_type: metadata.db_type.clone(),
            version: metadata.version.clone(),
            status: String::from_str("running"),
            port: metadata.port,
            created_at,
            max_connections,
            container_id: Some(container),
            stored_password: Some(metadata.password.clone()),
            stored_username: copy_optional(&metadata.username),
            stored_database_name: copy_optional(&metadata.database_name),
            stored_persist_data: metadata.persist_data,
            stored_enable_auth: metadata.enable_auth,
        }
    }

    fn store(self, databases: &mut DatabaseStore, record: DatabaseContainer) -> (r: (
        Provision,
        Action,
    ))
        ensures
            (r.0@, final(databases)@, r.1@) == stored(self@, old(databases)@, record@),
    {
        let kept = record.clone();
        databases.insert(record);
        let snapshot = databases.values();
        (
            Provision { phase: ProvisionPhase::Saving, record: Some(kept), ..self },
            Action::Save(snapshot),
        )
    }

    fn advance_preparing(self, event: Event) -> (r: (Provision, Action))
        ensures
            (r.0@, r.1@) == step_preparing(self@, event@),
    {
        match event {
            Event::EngineFailed(message) => self.end(Outcome::Failed(message)),
            Event::EngineDone(_) => match self.phase {
                ProvisionPhase::RemovingOld => self.after_old_container(),
                ProvisionPhase::Migrating => {
                    let old_name = match &self.previous {
                        Some(previous) => previous.name.clone(),
                        None => {
                            return self.stray();
                        },
                    };
                    let request = EngineRequest::RemoveVolume {
                        name: derive_volume_name(old_name.as_str()),
                    };
                    self.wait(ProvisionPhase::RemovingOldVolume, request)
                },
                ProvisionPhase::RemovingOldVolume => self.run_now(),
                ProvisionPhase::CreatingVolumes(at) => {
                    if at < self.request.docker_args.volumes.len() {
                        self.create_volumes_from(at + 1)
                    } else {
                        self.run_now()
                    }
                },
                _ => self.stray(),
            },
            _ => self.stray(),
        }
    }

    fn advance_running(self, databases: &mut DatabaseStore, event: Event) -> (r: (
        Provision,
        Action,
    ))
        ensures
            (r.0@, final(databases)@, r.1@) == step_running(
                self@,
                old(databases)@,
                event@,
                r.0@.stamp,
            ),
            dated(self@, event@) ==> r.0@.stamp.len() >= 10,
    {
        match event {
            Event::EngineDone(EngineReply::Text(container)) => {
                let stamp = match &self.previous {
                    Some(_) => self.stamp.clone(),
                    None => today(),
                };
                let record = self.build_record(container, &stamp);
                let task = Provision { stamp, ..self };
                task.store(databases, record)
            },
            Event::EngineFailed(message) => {
                let name = self.request.name.clone();
                let task = Provision { failure: message, ..self };
                task.wait(ProvisionPhase::CleaningContainer, EngineRequest::ForceRemove { name })
            },
            _ => self.stray(),
        }
    }

    fn advance_cleaning(self, event: Event) -> (r: (Provision, Action))
        ensures
            (r.0@, r.1@) == step_cleaning(self@, event@),
    {
        if !event.is_from_engine() {
            return self.stray();
        }
        let volumes: usize = self.request.docker_args.volumes.len();
        match self.phase {
            ProvisionPhase::CleaningContainer => self.clean_volumes_from(0),
            ProvisionPhase::CleaningVolumes(at) => {
                if at < volumes {
                    self.clean_volumes_from(at + 1)
                } else {
                    self.clean_volumes_from(volumes)
                }
            },
            ProvisionPhase::RollingBackContainer => self.roll_back_volumes_from(0),
            ProvisionPhase::RollingBackVolumes(at) => {
                if at < volumes {
                    self.roll_back_volumes_from(at + 1)
                } else {
                    self.roll_back_volumes_from(volumes)
                }
            },
            _ => self.stray(),
        }
    }

    fn advance_saving(self, databases: &mut DatabaseStore, event: Event) -> (r: (
        Provision,
        Action,
    ))
        ensures
            (r.0@, final(databases)@, r.1@) == step_saving(self@, old(databases)@, event@),
    {
        let record = match &self.record {
            Some(record) => record.clone(),
            None => {
                return self.stray();
            },
        };
        match event {
            Event::Saved => self.end(Outcome::Record(record)),
            Event::SaveFailed(reason) => {
                if self.previous.is_none() {
                    match record.container_id {
                        Some(container) => {
                            databases.remove(record.id.as_str());
                            let task = Provision { failure: reason, ..self };
                            task.wait(
                                ProvisionPhase::RollingBackContainer,
                                EngineRequest::Remove { container },
                            )
                        },
                        None => self.end(Outcome::Failed(reason)),
                    }
                } else {
                    self.end(Outcome::Failed(reason))
                }
            },
            _ => self.stray(),
        }
    }

    /// Takes the event that answers the action that the task waits for, and
    /// says what the caller does next. The records change where a record is
    /// stored or taken out again. A new record gets the date of the day, a
    /// text of at least ten characters, which the task holds as its stamp. A
    /// task that has ended answers every further event with a failure.
    pub fn step(self, databases: &mut DatabaseStore, event: Event) -> (r: (Provision, Action))
        ensures
            (r.0@, final(databases)@, r.1@) == provision_step(
                self@,
                old(databases)@,
                event@,
                r.0@.stamp,
            ),
            dated(self@, event@) ==> r.0@.stamp.len() >= 10,
    {
        match self.phase {
            ProvisionPhase::RemovingOld => self.advance_preparing(event),
            ProvisionPhase::Migrating => self.advance_preparing(event),
            ProvisionPhase::RemovingOldVolume => self.advance_preparing(event),
            ProvisionPhase::CreatingVolumes(_) => self.advance_preparing(event),
            ProvisionPhase::Running => self.advance_running(databases, event),
            ProvisionPhase::CleaningContainer => self.advance_cleaning(event),
            ProvisionPhase::CleaningVolumes(_) => self.advance_cleaning(event),
            ProvisionPhase::RollingBackContainer => self.advance_cleaning(event),
            ProvisionPhase::RollingBackVolumes(_) => self.advance_cleaning(event),
            ProvisionPhase::Saving => self.advance_saving(databases, event),
            ProvisionPhase::Closed => self.stray(),
        }
    }
}

/// Begins to create the container that `request` describes: the task, and
/// the first action. The volumes of the run specification are created
/// first, then the container is run.
pub fn create_container_from_docker_args(request: DockerRunRequest) -> (r: (Provision, Action))
    ensures
        (r.0@, r.1@) == begin_create(request@),
{
    Provision::fresh(request, None, VolumeTransition::Keep).create_volumes_from(0)
}

/// Begins to update the record that has the id of `request`: the task, and
/// the first action.
pub fn update_container_from_docker_args(request: DockerRunRequest, databases: &mut DatabaseStore) -> (r:
    (Provision, Action))
    ensures
        (r.0@, final(databases)@, r.1@) == begin_update(request@, old(databases)@),
{
    let previous = match databases.get(request.metadata.id.as_str()) {
        Some(previous) => previous.clone(),
        None => {
            let task = Provision::fresh(request, None, VolumeTransition::Keep);
            return task.end(Outcome::Failed(String::from_str("Container not found")));
        },
    };
    let transition = classify_volume_transition(
        previous.name.as_str(),
        previous.stored_persist_data,
        request.name.as_str(),
        request.metadata.persist_data,
    );
    let recreate = needs_recreation(
        &previous,
        request.name.as_str(),
        request.metadata.port,
        request.metadata.persist_data,
    );
    if recreate {
        let old_container = copy_optional(&previous.container_id);
        let task = Provision::fresh(request, Some(previous), transition);
        match old_container {
            Some(container) => task.wait(
                ProvisionPhase::RemovingOld,
                EngineRequest::Remove { container },
            ),
            None => task.after_old_container(),
        }
    } else {
        let mut record = previous.clone();
        match request.metadata.max_connections {
            Some(number) => {
                record.max_connections = number;
            },
            None => {},
        }
        let task = Provision::fresh(request, Some(previous), transition);
        task.store(databases, record)
    }
}

/// The run request for the database that `create` describes, under the id
/// `id`: the run specification of its kind, with a volume called after the
/// container where the data is to persist.
pub open spec fn run_request_of(
    kind: DatabaseKind,
    create: CreateDatabaseRequestView,
    id: Seq<char>,
) -> DockerRunRequestView {
    DockerRunRequestView {
        name: create.name,
        docker_args: kind_run_spec(
            kind,
            create,
            if create.persist_data {
                Some(volume_name(create.name))
            } else {
                None
            },
        ),
        metadata: metadata_of(create, id),
    }
}

/// What is kept of the database that `create` describes, under the id `id`.
pub open spec fn metadata_of(create: CreateDatabaseRequestView, id: Seq<char>) -> ContainerMetadataView {
    ContainerMetadataView {
        id,
        db_type: create.db_type,
        version: create.version,
        port: create.port,
        username: create.username,
        password: create.password,
        database_name: create.database_name,
        persist_data: create.persist_data,
        enable_auth: create.enable_auth,
        max_connections: create.max_connections,
    }
}

/// A run request that names no image, port, volume or variable: enough for
/// an update that leaves the container alone.
pub open spec fn bare_run_request(create: CreateDatabaseRequestView, id: Seq<char>) -> DockerRunRequestView {
    DockerRunRequestView {
        name: create.name,
        docker_args: DockerRunArgsView {
            image: Seq::empty(),
            env_vars: Seq::empty(),
            ports: Seq::empty(),
            volumes: Seq::empty(),
            command: Seq::empty(),
        },
        metadata: metadata_of(create, id),
    }
}

/// The password of a record that stores none.
pub open spec fn fallback_password() -> Seq<char> {
    "password"@
}

/// The database that a record becomes when `request` is applied to it:
/// what the request names is taken from it, everything else from the record.
pub open spec fn planned_create(
    previous: DatabaseContainerView,
    request: UpdateContainerRequestView,
) -> CreateDatabaseRequestView {
    CreateDatabaseRequestView {
        name: match request.name {
            Some(name) => name,
            None => previous.name,
        },
        db_type: previous.db_type,
        version: previous.version,
        port: match request.port {
            Some(port) => port,
            None => previous.port,
        },
        username: match request.username {
            Some(user) => Some(user),
            None => previous.stored_username,
        },
        password: match request.password {
            Some(password) => password,
            None => match previous.stored_password {
                Some(password) => password,
                None => fallback_password(),
            },
        },
        database_name: match request.database_name {
            Some(database) => Some(database),
            None => previous.stored_database_name,
        },
        persist_data: match request.persist_data {
            Some(persist) => persist,
            None => previous.stored_persist_data,
        },
        enable_auth: match request.enable_auth {
            Some(auth) => auth,
            None => previous.stored_enable_auth,
        },
        max_connections: match request.max_connections {
            Some(number) => Some(number),
            None => Some(previous.max_connections),
        },
        postgres_settings: None,
        mysql_settings: None,
        redis_settings: None,
        mongo_settings: None,
    }
}

/// How an update in the fixed schema begins. Without a record of the id it
/// fails. Where the container must be made anew the run specification comes
/// from the record's kind, and a kind that is not known fails before anything
/// is done; otherwise the record is touched and persisted.
pub open spec fn begin_config_update(
    request: UpdateContainerRequestView,
    records: Seq<DatabaseContainerView>,
) -> Result<(ProvisionView, Seq<DatabaseContainerView>, ActionView), Seq<char>> {
    match record_of(records, request.container_id) {
        None => Err(not_found()),
        Some(previous) => {
            let create = planned_create(previous, request);
            if recreation_needed(previous, create.name, create.port, create.persist_data) {
                match kind_of(previous.db_type) {
                    Some(kind) => Ok(begin_update(run_request_of(kind, create, previous.id), records)),
                    None => Err(unsupported_kind(previous.db_type)),
                }
            } else {
                Ok(begin_update(bare_run_request(create, previous.id), records))
            }
        },
    }
}

/// What is kept of the database that `create` describes, under the id `id`.
fn metadata_for(create: &CreateDatabaseRequest, id: String) -> (r: ContainerMetadata)
    ensures
        r@ == metadata_of(create@, id@),
{
    ContainerMetadata {
        id,
        db_type: create.db_type.clone(),
        version: create.version.clone(),
        port: create.port,
        username: copy_optional(&create.username),
        password: create.password.clone(),
        database_name: copy_optional(&create.database_name),
        persist_data: create.persist_data,
        enable_auth: create.enable_auth,
        max_connections: create.max_connections,
    }
}

/// The run request for the database that `create` describes, under the id
/// `id`. A `db_type` that names no known kind is refused.
pub fn plan_run_request(create: &CreateDatabaseRequest, id: String) -> (r: Result<
    DockerRunRequest,
    String,
>)
    ensures
        match r {
            Ok(request) => kind_of(create.db_type@) matches Some(kind) && request@
                == run_request_of(kind, create@, id@),
            Err(message) => kind_of(create.db_type@) is None && message@ == unsupported_kind(
                create.db_type@,
            ),
        },
{
    let service = DockerService::new();
    let volume = if create.persist_data {
        Some(derive_volume_name(create.name.as_str()))
    } else {
        None
    };
    match service.run_specification(create, &volume) {
        Ok(docker_args) => Ok(
            DockerRunRequest {
                name: create.name.clone(),
                docker_args,
                metadata: metadata_for(create, id),
            },
        ),
        Err(message) => Err(message),
    }
}

/// Begins to create the database that `request` describes: the task, and
/// the first action. The record gets a fresh id of 36 characters. A
/// `db_type` that names no known kind is refused before anything is done.
pub fn create_database_container(request: &CreateDatabaseRequest) -> (r: Result<
    (Provision, Action),
    String,
>)
    ensures
        match r {
            Ok(started) => {
                &&& kind_of(request.db_type@) matches Some(kind)
                &&& (started.0@, started.1@) == begin_create(
                    run_request_of(kind, request@, started.0@.request.metadata.id),
                )
                &&& started.0@.request.metadata.id.len() == 36
            },
            Err(message) => kind_of(request.db_type@) is None && message@ == unsupported_kind(
                request.db_type@,
            ),
        },
{
    let id = fresh_identifier();
    match plan_run_request(request, id) {
        Ok(run_request) => Ok(create_container_from_docker_args(run_request)),
        Err(message) => Err(message),
    }
}

/// The database that `previous` becomes when `request` is applied to it.
pub fn plan_create_request(previous: &DatabaseContainer, request: &UpdateContainerRequest) -> (r:
    CreateDatabaseRequest)
    ensures
        r@ == planned_create(previous@, request@),
{
    CreateDatabaseRequest {
        name: match &request.name {
            Some(name) => name.clone(),
            None => previous.name.clone(),
        },
        db_type: previous.db_type.clone(),
        version: previous.version.clone(),
        port: match request.port {
            Some(port) => port,
            None => previous.port,
        },
        username: match &request.username {
            Some(user) => Some(user.clone()),
            None => copy_optional(&previous.stored_username),
        },
        password: match &request.password {
            Some(password) => password.clone(),
            None => match &previous.stored_password {
                Some(password) => password.clone(),
                None => String::from_str("password"),
            },
        },
        database_name: match &request.database_name {
            Some(database) => Some(database.clone()),
            None => copy_optional(&previous.stored_database_name),
        },
        persist_data: match request.persist_data {
            Some(persist) => persist,
            None => previous.stored_persist_data,
        },
        enable_auth: match request.enable_auth {
            Some(auth) => auth,
            None => previous.stored_enable_auth,
        },
        max_connections: match request.max_connections {
            Some(number) => Some(number),
            None => Some(previous.max_connections),
        },
        postgres_settings: None,
        mysql_settings: None,
        redis_settings: None,
        mongo_settings: None,
    }
}

/// Begins to apply `request` to the record that it names: the task, and
/// the first action. It fails at once, with the records untouched, where no
/// record has the id or where the container must be made anew and the
/// record's kind is not known.
pub fn update_container_config(request: &UpdateContainerRequest, databases: &mut DatabaseStore) -> (r:
    Result<(Provision, Action), String>)
    ensures
        match r {
            Ok(started) => begin_config_update(request@, old(databases)@) == Ok::<
                (ProvisionView, Seq<DatabaseContainerView>, ActionView),
                Seq<char>,
            >((started.0@, final(databases)@, started.1@)),
            Err(message) => begin_config_update(request@, old(databases)@) == Err::<
                (ProvisionView, Seq<DatabaseContainerView>, ActionView),
                Seq<char>,
            >(message@) && final(databases)@ == old(databases)@,
        },
{
    let previous = match databases.get(request.container_id.as_str()) {
        Some(previous) => previous.clone(),
        None => {
            return Err(String::from_str("Container not found"));
        },
    };
    let create = plan_create_request(&previous, request);
    let recreate = needs_recreation(
        &previous,
        create.name.as_str(),
        create.port,
        create.persist_data,
    );
    let run_request = if recreate {
        match plan_run_request(&create, previous.id.clone()) {
            Ok(run_request) => run_request,
            Err(message) => {
                return Err(message);
            },
        }
    } else {
        let docker_args = DockerRunArgs {
            image: String::new(),
            env_vars: EnvVars::new(),
            ports: Vec::new(),
            volumes: Vec::new(),
            command: Vec::new(),
        };
        assert(docker_args@.ports =~= Seq::empty());
        assert(docker_args@.volumes =~= Seq::empty());
        assert(docker_args@.command =~= Seq::empty());
        DockerRunRequest {
            name: create.name.clone(),
            docker_args,
            metadata: metadata_for(&create, previous.id.clone()),
        }
    };
    Ok(update_container_from_docker_args(run_request, databases))
}

/// After a run that failed, whatever it left under the container's name is
/// removed, once and before anything is reported, and the records stay as
/// they are. Where this operation made no volume, the next thing, whatever
/// came of the removal, is the report of the failure of the run by its kind.
pub proof fn lemma_failed_run_is_cleaned_up(
    task: ProvisionView,
    records: Seq<DatabaseContainerView>,
    message: Seq<char>,
    today: Seq<char>,
    removal: EventView,
)
    requires
        task.phase == ProvisionPhase::Running,
        from_engine(removal),
        task.request.docker_args.volumes.len() == 0 || !cleans_volumes(task),
    ensures
        ({
            let first = provision_step(task, records, EventView::EngineFailed(message), today);
            let second = provision_step(first.0, first.1, removal, today);
            &&& first.2 == ActionView::Engine(
                EngineRequestView::ForceRemove { name: task.request.name },
            )
            &&& first.1 == records
            &&& second.1 == records
            &&& second.2 == ActionView::Done(
                OutcomeView::Rejected(
                    classified(message, task.request.name, task.request.metadata.port),
                ),
            )
        }),
{
}

/// A taken port is reported as such, with the port that was asked for.
pub proof fn lemma_port_conflict_names_the_port(error: Seq<char>, name: Seq<char>, port: i32)
    requires
        port_conflict(error),
    ensures
        classified(error, name, port).error_type == "PORT_IN_USE"@,
        classified(error, name, port).port == Some(port),
{
}

/// In a rename that keeps the data, the old volume is removed only after
/// the migration has succeeded: a migration that failed ends the update
/// with the engine's message, and no volume is removed.
pub proof fn lemma_old_volume_goes_after_migration(
    task: ProvisionView,
    records: Seq<DatabaseContainerView>,
    message: Seq<char>,
    reply: EngineReplyView,
    today: Seq<char>,
)
    requires
        task.phase == ProvisionPhase::Migrating,
        task.previous is Some,
    ensures
        provision_step(task, records, EventView::EngineDone(reply), today).2 == ActionView::Engine(
            EngineRequestView::RemoveVolume { name: volume_name(task.previous->0.name) },
        ),
        provision_step(task, records, EventView::EngineFailed(message), today).2
            == ActionView::Done(OutcomeView::Failed(message)),
{
}

/// An update that changes neither the name, nor the port, nor the
/// persistence asks nothing of the engine: the record is touched and the
/// records are persisted.
pub proof fn lemma_metadata_update_leaves_engine_alone(
    request: DockerRunRequestView,
    records: Seq<DatabaseContainerView>,
)
    requires
        record_of(records, request.metadata.id) matches Some(previous) && !recreation_needed(
            previous,
            request.name,
            request.metadata.port,
            request.metadata.persist_data,
        ),
    ensures
        begin_update(request, records).2 is Save,
        begin_update(request, records).0.record == Some(
            touched_record(record_of(records, request.metadata.id)->0, request),
        ),
{
}

/// The four volume transitions of a rename or a change of persistence:
/// data that stays under a new name is migrated, data that appears gets a
/// volume, data that is given up loses its volume, and without data before
/// and after nothing happens.
pub proof fn lemma_volume_transitions(
    old_name: Seq<char>,
    old_persist: bool,
    new_name: Seq<char>,
    new_persist: bool,
)
    ensures
        volume_transition(old_name, old_persist, new_name, new_persist)
            == VolumeTransition::Migrate <==> old_persist && new_persist && old_name != new_name,
        volume_transition(old_name, old_persist, new_name, new_persist)
            == VolumeTransition::Ensure <==> old_persist && new_persist && old_name == new_name,
        volume_transition(old_name, old_persist, new_name, new_persist)
            == VolumeTransition::Create <==> !old_persist && new_persist,
        volume_transition(old_name, old_persist, new_name, new_persist)
            == VolumeTransition::Delete <==> old_persist && !new_persist,
        volume_transition(old_name, old_persist, new_name, new_persist) == VolumeTransition::Keep
            <==> !old_persist && !new_persist,
{
}

} // verus!
