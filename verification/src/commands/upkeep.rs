//! Starting, stopping and removing a database, and bringing the records in
//! step with the engine.

use vstd::prelude::*;

use crate::commands::database::{derive_volume_name, volume_name};
use crate::commands::protocol::{
    not_found, stray_event, Action, ActionView, Event, EventView, Outcome, OutcomeView,
};
use crate::services::docker::DockerService;
use crate::services::engine::{EngineReply, EngineReplyView, EngineRequest, EngineRequestView};
use crate::services::reconcile::{reconciled_all, running_status, stopped_status};
use crate::services::storage::{loaded, StorageService};
use crate::text::copy_optional;
use crate::types::database::{
    record_of, with_status, without_id, DatabaseContainerView, DatabaseStore,
};

verus! {

/// Where an operation stands: which action is under way.
#[derive(Debug, Clone, Copy, PartialEq, Eq, Structural)]
pub enum UpkeepPhase {
    /// The container is being started or stopped.
    Switching,
    /// The container is being removed.
    RemovingContainer,
    /// The volume is being removed.
    RemovingVolume,
    /// The persisted records are being read.
    Loading,
    /// The engine is listing its containers.
    Listing,
    /// The records are being persisted.
    Saving,
    /// Nothing is under way: the operation has ended.
    Closed,
}

/// A start, stop, removal or refresh that is under way.
#[derive(Debug)]
pub struct Upkeep {
    pub phase: UpkeepPhase,
    /// The id of the record that the operation is about.
    pub target: String,
    /// Whether the container is to run afterwards.
    pub running: bool,
    /// The volume that goes with the container that is removed.
    pub volume: Option<String>,
    /// What is reported once the records are persisted.
    pub outcome: Outcome,
}

pub struct UpkeepView {
    pub phase: UpkeepPhase,
    pub target: Seq<char>,
    pub running: bool,
    pub volume: Option<Seq<char>>,
    pub outcome: OutcomeView,
}

impl View for Upkeep {
    type V = UpkeepView;

    open spec fn view(&self) -> UpkeepView {
        UpkeepView {
            phase: self.phase,
            target: self.target@,
            running: self.running,
            volume: self.volume.deep_view(),
            outcome: self.outcome@,
        }
    }
}

/// A task about the record `target` before anything has happened.
pub open spec fn idle(target: Seq<char>, running: bool, volume: Option<Seq<char>>) -> UpkeepView {
    UpkeepView {
        phase: UpkeepPhase::Closed,
        target,
        running,
        volume,
        outcome: OutcomeView::Completed,
    }
}

/// The task while `request` is carried out on the engine.
pub open spec fn ask(task: UpkeepView, phase: UpkeepPhase, request: EngineRequestView) -> (
    UpkeepView,
    ActionView,
) {
    (UpkeepView { phase, ..task }, ActionView::Engine(request))
}

/// The task at its end.
pub open spec fn close(task: UpkeepView, outcome: OutcomeView) -> (UpkeepView, ActionView) {
    (UpkeepView { phase: UpkeepPhase::Closed, ..task }, ActionView::Done(outcome))
}

/// The records are handed out to be persisted; `outcome` is reported once
/// they are.
pub open spec fn persist(
    task: UpkeepView,
    records: Seq<DatabaseContainerView>,
    outcome: OutcomeView,
) -> (UpkeepView, Seq<DatabaseContainerView>, ActionView) {
    (UpkeepView { phase: UpkeepPhase::Saving, outcome, ..task }, records, ActionView::Save(records))
}

/// The task ends with the outcome that it kept, and keeps none.
pub open spec fn report(task: UpkeepView) -> (UpkeepView, ActionView) {
    close(UpkeepView { outcome: OutcomeView::Completed, ..task }, task.outcome)
}

/// The status that a start or a stop leaves.
pub open spec fn status_text(running: bool) -> Seq<char> {
    if running {
        running_status()
    } else {
        stopped_status()
    }
}

/// The record leaves the records, which are then persisted.
pub open spec fn forget(
    task: UpkeepView,
    records: Seq<DatabaseContainerView>,
    outcome: OutcomeView,
) -> (UpkeepView, Seq<DatabaseContainerView>, ActionView) {
    persist(task, without_id(records, task.target), outcome)
}

/// What follows the removal of the container: the volume that goes with
/// it, if there is one, and then the record.
pub open spec fn after_container(task: UpkeepView, records: Seq<DatabaseContainerView>) -> (
    UpkeepView,
    Seq<DatabaseContainerView>,
    ActionView,
) {
    match task.volume {
        Some(name) => {
            let next = ask(
                task,
                UpkeepPhase::RemovingVolume,
                EngineRequestView::RemoveVolume { name },
            );
            (next.0, records, next.1)
        },
        None => forget(task, records, OutcomeView::Completed),
    }
}

/// What follows when the action that `task` waits for has ended as `event`
/// says.
///
/// A start or a stop that succeeded sets the status of the record and
/// persists the records; one that failed ends with the engine's message.
/// A container that could not be removed ends the removal with the engine's
/// message, and the record stays. A volume that could not be removed does
/// not keep the record: it leaves, the records are persisted, and then the
/// engine's message is reported. A refresh takes the persisted records, then
/// what the engine lists, and persists the reconciled records.
pub open spec fn upkeep_step(
    task: UpkeepView,
    records: Seq<DatabaseContainerView>,
    event: EventView,
) -> (UpkeepView, Seq<DatabaseContainerView>, ActionView) {
    let failed = |message: Seq<char>|
        {
            let next = close(task, OutcomeView::Failed(message));
            (next.0, records, next.1)
        };
    match (task.phase, event) {
        (UpkeepPhase::Switching, EventView::EngineDone(_)) => persist(
            task,
            with_status(records, task.target, status_text(task.running)),
            OutcomeView::Completed,
        ),
        (UpkeepPhase::Switching, EventView::EngineFailed(message)) => failed(message),
        (UpkeepPhase::RemovingContainer, EventView::EngineDone(_)) => after_container(
            task,
            records,
        ),
        (UpkeepPhase::RemovingContainer, EventView::EngineFailed(message)) => failed(message),
        (UpkeepPhase::RemovingVolume, EventView::EngineDone(_)) => forget(
            task,
            records,
            OutcomeView::Completed,
        ),
        (UpkeepPhase::RemovingVolume, EventView::EngineFailed(message)) => forget(
            task,
            records,
            OutcomeView::Failed(message),
        ),
        (UpkeepPhase::Loading, EventView::Loaded(persisted)) => {
            let next = ask(task, UpkeepPhase::Listing, EngineRequestView::List);
            (
                next.0,
                match persisted {
                    Some(list) => loaded(list),
                    None => Seq::empty(),
                },
                next.1,
            )
        },
        (UpkeepPhase::Loading, EventView::LoadFailed(message)) => failed(message),
        (UpkeepPhase::Listing, EventView::EngineDone(EngineReplyView::Containers(observed))) => {
            let now = reconciled_all(records, observed);
            persist(task, now, OutcomeView::Records(now))
        },
        (UpkeepPhase::Listing, EventView::EngineFailed(message)) => failed(message),
        (UpkeepPhase::Saving, EventView::Saved) => {
            let next = report(task);
            (next.0, records, next.1)
        },
        (UpkeepPhase::Saving, EventView::SaveFailed(message)) => failed(message),
        _ => failed(stray_event()),
    }
}

/// How a start (`running`) or a stop of the record `id` begins. It fails
/// where no record has the id, or the record has no container.
pub open spec fn begin_switch(id: Seq<char>, running: bool, records: Seq<DatabaseContainerView>) -> (
    UpkeepView,
    ActionView,
) {
    let task = idle(id, running, None);
    match record_of(records, id) {
        Some(record) => match record.container_id {
            Some(container) => ask(
                task,
                UpkeepPhase::Switching,
                if running {
                    EngineRequestView::Start { container }
                } else {
                    EngineRequestView::Stop { container }
                },
            ),
            None => close(task, OutcomeView::Failed(not_found())),
        },
        None => close(task, OutcomeView::Failed(not_found())),
    }
}

/// The volume that goes with the record `id`: the one called after the
/// record, where the record keeps its data.
pub open spec fn volume_of(id: Seq<char>, records: Seq<DatabaseContainerView>) -> Option<
    Seq<char>,
> {
    match record_of(records, id) {
        Some(record) => if record.stored_persist_data {
            Some(volume_name(record.name))
        } else {
            None
        },
        None => None,
    }
}

/// How the removal of the record `id` begins: with the container where
/// the record has one, else with what follows it.
pub open spec fn begin_removal(id: Seq<char>, records: Seq<DatabaseContainerView>) -> (
    UpkeepView,
    Seq<DatabaseContainerView>,
    ActionView,
) {
    let task = idle(id, false, volume_of(id, records));
    match record_of(records, id) {
        Some(record) => match record.container_id {
            Some(container) => {
                let next = ask(
                    task,
                    UpkeepPhase::RemovingContainer,
                    EngineRequestView::Remove { container },
                );
                (next.0, records, next.1)
            },
            None => after_container(task, records),
        },
        None => after_container(task, records),
    }
}

impl Upkeep {
    fn idle(target: String, running: bool, volume: Option<String>) -> (r: Upkeep)
        ensures
            r@ == idle(target@, running, volume.deep_view()),
    {
        Upkeep { phase: UpkeepPhase::Closed, target, running, volume, outcome: Outcome::Completed }
    }

    fn ask(self, phase: UpkeepPhase, request: EngineRequest) -> (r: (Upkeep, Action))
        ensures
            (r.0@, r.1@) == ask(self@, phase, request@),
    {
        (Upkeep { phase, ..self }, Action::Engine(request))
    }

    fn close(self, outcome: Outcome) -> (r: (Upkeep, Action))
        ensures
            (r.0@, r.1@) == close(self@, outcome@),
    {
        (Upkeep { phase: UpkeepPhase::Closed, ..self }, Action::Done(outcome))
    }

    fn persist(self, databases: &DatabaseStore, outcome: Outcome) -> (r: (Upkeep, Action))
        ensures
            (r.0@, databases@, r.1@) == persist(self@, databases@, outcome@),
    {
        (Upkeep { phase: UpkeepPhase::Saving, outcome, ..self }, Action::Save(databases.values()))
    }

    fn forget(self, databases: &mut DatabaseStore, outcome: Outcome) -> (r: (Upkeep, Action))
        ensures
            (r.0@, final(databases)@, r.1@) == forget(self@, old(databases)@, outcome@),
    {
        databases.remove(self.target.as_str());
        self.persist(databases, outcome)
    }

    fn after_container(self, databases: &mut DatabaseStore) -> (r: (Upkeep, Action))
        ensures
            (r.0@, final(databases)@, r.1@) == after_container(self@, old(databases)@),
    {
        match copy_optional(&self.volume) {
            Some(name) => self.ask(
                UpkeepPhase::RemovingVolume,
                EngineRequest::RemoveVolume { name },
            ),
            None => self.forget(databases, Outcome::Completed),
        }
    }

    /// Takes the event that answers the action that the task waits for, and
    /// says what the caller does next. A task that has ended answers every
    /// further event with a failure.
    pub fn step(self, databases: &mut DatabaseStore, event: Event) -> (r: (Upkeep, Action))
        ensures
            (r.0@, final(databases)@, r.1@) == upkeep_step(self@, old(databases)@, event@),
    {
        match (self.phase, event) {
            (UpkeepPhase::Switching, Event::EngineDone(_)) => {
                let status = if self.running {
                    String::from_str("running")
                } else {
                    String::from_str("stopped")
                };
                databases.set_status(self.target.as_str(), status);
                self.persist(databases, Outcome::Completed)
            },
            (UpkeepPhase::Switching, Event::EngineFailed(message)) => self.close(
                Outcome::Failed(message),
            ),
            (UpkeepPhase::RemovingContainer, Event::EngineDone(_)) => self.after_container(
                databases,
            ),
            (UpkeepPhase::RemovingContainer, Event::EngineFailed(message)) => self.close(
                Outcome::Failed(message),
            ),
            (UpkeepPhase::RemovingVolume, Event::EngineDone(_)) => self.forget(
                databases,
                Outcome::Completed,
            ),
            (UpkeepPhase::RemovingVolume, Event::EngineFailed(message)) => self.forget(
                databases,
                Outcome::Failed(message),
            ),
            (UpkeepPhase::Loading, Event::Loaded(persisted)) => {
                let storage = StorageService::new();
                *databases = storage.load_databases_from_store(persisted);
                self.ask(UpkeepPhase::Listing, EngineRequest::List)
            },
            (UpkeepPhase::Loading, Event::LoadFailed(message)) => self.close(
                Outcome::Failed(message),
            ),
            (UpkeepPhase::Listing, Event::EngineDone(EngineReply::Containers(observed))) => {
                let service = DockerService::new();
                service.sync_containers_with_docker(&observed, databases);
                let now = databases.values();
                self.persist(databases, Outcome::Records(now))
            },
            (UpkeepPhase::Listing, Event::EngineFailed(message)) => self.close(
                Outcome::Failed(message),
            ),
            (UpkeepPhase::Saving, Event::Saved) => self.report(),
            (UpkeepPhase::Saving, Event::SaveFailed(message)) => self.close(
                Outcome::Failed(message),
            ),
            _ => self.close(
                Outcome::Failed(String::from_str("No action is outstanding for this event")),
            ),
        }
    }

    /// Ends the task with the outcome that it kept.
    fn report(self) -> (r: (Upkeep, Action))
        ensures
            (r.0@, r.1@) == report(self@),
    {
        let mut task = self;
        let mut outcome = Outcome::Completed;
        std::mem::swap(&mut task.outcome, &mut outcome);
        (Upkeep { phase: UpkeepPhase::Closed, ..task }, Action::Done(outcome))
    }
}

/// Begins to start the container of the record `container_id`: the task,
/// and the first action.
pub fn start_container(container_id: &str, databases: &DatabaseStore) -> (r: (Upkeep, Action))
    ensures
        (r.0@, r.1@) == begin_switch(container_id@, true, databases@),
{
    begin_switch_of(container_id, true, databases)
}

/// Begins to stop the container of the record `container_id`: the task,
/// and the first action.
pub fn stop_container(container_id: &str, databases: &DatabaseStore) -> (r: (Upkeep, Action))
    ensures
        (r.0@, r.1@) == begin_switch(container_id@, false, databases@),
{
    begin_switch_of(container_id, false, databases)
}

fn begin_switch_of(id: &str, running: bool, databases: &DatabaseStore) -> (r: (Upkeep, Action))
    ensures
        (r.0@, r.1@) == begin_switch(id@, running, databases@),
{
    let task = Upkeep::idle(String::from_str(id), running, None);
    let container = match databases.get(id) {
        Some(record) => copy_optional(&record.container_id),
        None => None,
    };
    match container {
        Some(container) => {
            let request = if running {
                EngineRequest::Start { container }
            } else {
                EngineRequest::Stop { container }
            };
            task.ask(UpkeepPhase::Switching, request)
        },
        None => task.close(Outcome::Failed(String::from_str("Container not found"))),
    }
}

/// Begins to remove the record `container_id` with its container and its
/// volume: the task, and the first action. A record without a container and
/// without a volume leaves the records at once.
pub fn remove_container(container_id: &str, databases: &mut DatabaseStore) -> (r: (Upkeep, Action))
    ensures
        (r.0@, final(databases)@, r.1@) == begin_removal(container_id@, old(databases)@),
{
    let (container, volume) = match databases.get(container_id) {
        Some(record) => {
            let volume = if record.stored_persist_data {
                Some(derive_volume_name(record.name.as_str()))
            } else {
                None
            };
            (copy_optional(&record.container_id), volume)
        },
        None => (None, None),
    };
    let task = Upkeep::idle(String::from_str(container_id), false, volume);
    match container {
        Some(container) => task.ask(
            UpkeepPhase::RemovingContainer,
            EngineRequest::Remove { container },
        ),
        None => task.after_container(databases),
    }
}

/// Begins to list the records as they stand after a look at the persistent
/// store and at the engine: the task, and the first action, which reads the
/// persisted records.
pub fn get_all_databases() -> (r: (Upkeep, Action))
    ensures
        r.0@ == (UpkeepView {
            phase: UpkeepPhase::Loading,
            ..idle(Seq::empty(), false, None)
        }),
        r.1@ == ActionView::Load,
{
    let task = Upkeep::idle(String::new(), false, None);
    (Upkeep { phase: UpkeepPhase::Loading, ..task }, Action::Load)
}

/// Begins to bring the records in step with the engine: the task, and the
/// first action, which lists the containers.
pub fn sync_containers_with_docker() -> (r: (Upkeep, Action))
    ensures
        (r.0@, r.1@) == ask(
            idle(Seq::empty(), false, None),
            UpkeepPhase::Listing,
            EngineRequestView::List,
        ),
{
    Upkeep::idle(String::new(), false, None).ask(UpkeepPhase::Listing, EngineRequest::List)
}

/// Removing a record that keeps no data asks for no volume to be removed:
/// neither at the beginning nor after the container is gone.
pub proof fn lemma_no_volume_without_persistence(
    id: Seq<char>,
    records: Seq<DatabaseContainerView>,
    reply: EngineReplyView,
)
    requires
        record_of(records, id) matches Some(record) && !record.stored_persist_data,
    ensures
        !(begin_removal(id, records).2 matches ActionView::Engine(request)
            && request is RemoveVolume),
        begin_removal(id, records).0.phase == UpkeepPhase::RemovingContainer ==> upkeep_step(
            begin_removal(id, records).0,
            records,
            EventView::EngineDone(reply),
        ).2 is Save,
{
}

/// Removing a record that keeps its data removes the volume called after
/// it, and where the record has a container only after the container is
/// gone.
pub proof fn lemma_volume_goes_after_container(
    id: Seq<char>,
    records: Seq<DatabaseContainerView>,
    reply: EngineReplyView,
)
    requires
        record_of(records, id) matches Some(record) && record.stored_persist_data,
    ensures
        ({
            let record = record_of(records, id)->0;
            let begun = begin_removal(id, records);
            let volume = ActionView::Engine(
                EngineRequestView::RemoveVolume { name: volume_name(record.name) },
            );
            match record.container_id {
                Some(container) => begun.2 == ActionView::Engine(
                    EngineRequestView::Remove { container },
                ) && upkeep_step(begun.0, begun.1, EventView::EngineDone(reply)).2 == volume,
                None => begun.2 == volume,
            }
        }),
{
}

/// Once the container is gone the record leaves the records, whatever
/// comes of the volume.
pub proof fn lemma_record_leaves_whatever_the_volume(
    task: UpkeepView,
    records: Seq<DatabaseContainerView>,
    event: EventView,
)
    requires
        task.phase == UpkeepPhase::RemovingVolume,
        event is EngineDone || event is EngineFailed,
    ensures
        upkeep_step(task, records, event).1 == without_id(records, task.target),
        upkeep_step(task, records, event).2 == ActionView::Save(without_id(records, task.target)),
{
}

} // verus!
