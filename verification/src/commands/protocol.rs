//! What passes between an operation and the caller that performs its
//! actions.

use vstd::prelude::*;

use crate::services::engine::{EngineReply, EngineReplyView, EngineRequest, EngineRequestView};
use crate::types::database::{DatabaseContainer, DatabaseContainerView};
use crate::types::errors::{CreateContainerError, CreateContainerErrorView};

verus! {

/// How an operation ended.
#[derive(Debug)]
pub enum Outcome {
    /// A record was created or updated: this one.
    Record(DatabaseContainer),
    /// The records as they now stand.
    Records(Vec<DatabaseContainer>),
    /// Done, with nothing to hand back.
    Completed,
    /// The engine refused to run the container, for this reason.
    Rejected(CreateContainerError),
    /// Failed, with this message.
    Failed(String),
}

pub enum OutcomeView {
    Record(DatabaseContainerView),
    Records(Seq<DatabaseContainerView>),
    Completed,
    Rejected(CreateContainerErrorView),
    Failed(Seq<char>),
}

impl View for Outcome {
    type V = OutcomeView;

    open spec fn view(&self) -> OutcomeView {
        match self {
            Outcome::Record(record) => OutcomeView::Record(record@),
            Outcome::Records(records) => OutcomeView::Records(records.deep_view()),
            Outcome::Completed => OutcomeView::Completed,
            Outcome::Rejected(error) => OutcomeView::Rejected(error@),
            Outcome::Failed(message) => OutcomeView::Failed(message@),
        }
    }
}

/// What the caller does next.
#[derive(Debug)]
pub enum Action {
    /// Carry out this operation on the engine and report how it ended.
    Engine(EngineRequest),
    /// Persist these records and report whether that succeeded.
    Save(Vec<DatabaseContainer>),
    /// Read the persisted records and report them.
    Load,
    /// Nothing more: the operation has ended.
    Done(Outcome),
}

pub enum ActionView {
    Engine(EngineRequestView),
    Save(Seq<DatabaseContainerView>),
    Load,
    Done(OutcomeView),
}

impl View for Action {
    type V = ActionView;

    open spec fn view(&self) -> ActionView {
        match self {
            Action::Engine(request) => ActionView::Engine(request@),
            Action::Save(records) => ActionView::Save(records.deep_view()),
            Action::Load => ActionView::Load,
            Action::Done(outcome) => ActionView::Done(outcome@),
        }
    }
}

/// What the caller reports of the action it performed.
#[derive(Debug)]
pub enum Event {
    /// The operation on the engine succeeded, with this reply.
    EngineDone(EngineReply),
    /// The operation on the engine failed, with this message.
    EngineFailed(String),
    /// The records were persisted.
    Saved,
    /// The records could not be persisted, for this reason.
    SaveFailed(String),
    /// The persisted records, or `None` where nothing was persisted yet.
    Loaded(Option<Vec<DatabaseContainer>>),
    /// The persisted records could not be read, for this reason.
    LoadFailed(String),
}

pub enum EventView {
    EngineDone(EngineReplyView),
    EngineFailed(Seq<char>),
    Saved,
    SaveFailed(Seq<char>),
    Loaded(Option<Seq<DatabaseContainerView>>),
    LoadFailed(Seq<char>),
}

impl View for Event {
    type V = EventView;

    open spec fn view(&self) -> EventView {
        match self {
            Event::EngineDone(reply) => EventView::EngineDone(reply@),
            Event::EngineFailed(message) => EventView::EngineFailed(message@),
            Event::Saved => EventView::Saved,
            Event::SaveFailed(message) => EventView::SaveFailed(message@),
            Event::Loaded(records) => EventView::Loaded(records.deep_view()),
            Event::LoadFailed(message) => EventView::LoadFailed(message@),
        }
    }
}

/// The event reports on an operation on the engine, however it ended.
pub open spec fn from_engine(event: EventView) -> bool {
    event is EngineDone || event is EngineFailed
}

/// What is said of an event that answers no action.
pub open spec fn stray_event() -> Seq<char> {
    "No action is outstanding for this event"@
}

/// What is said where no record has the id that was asked for, or the
/// record has no container.
pub open spec fn not_found() -> Seq<char> {
    "Container not found"@
}

impl Event {
    /// Whether the event reports on an operation on the engine.
    pub fn is_from_engine(&self) -> (r: bool)
        ensures
            r == from_engine(self@),
    {
        match self {
            Event::EngineDone(_) => true,
            Event::EngineFailed(_) => true,
            _ => false,
        }
    }
}

} // verus!
