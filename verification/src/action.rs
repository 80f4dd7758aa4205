//! The durable operations that a handler can ask for, and what it gets back.

use vstd::prelude::*;
use crate::entry::{clone_optional, optional_view, EntryKind, EntryView, JournalEntry};
use crate::target::{Target, TargetView};
use crate::value::{clone_texts, text_views, Outcome, OutcomeView, Value, ValueView};

verus! {

/// What a handler wants done next. Every variant but `Return` is a durable
/// operation: its completion is recorded in the journal.
#[derive(Debug, PartialEq, Eq)]
pub enum Action {
    /// Run a side effect once and remember its result. The effect is described
    /// by a name and the arguments it was captured with.
    Run { name: String, args: Vec<String> },
    /// Call another handler and wait for its result.
    Call { target: Target, payload: Value },
    /// Send a message to another handler, at once (`delay_ms == 0`) or later.
    Send { target: Target, payload: Value, delay_ms: u64 },
    /// Wait for a span of time.
    Sleep { duration_ms: u64 },
    /// Create a durable promise that can be resolved from anywhere.
    CreateAwakeable,
    /// Look up the durable promise that the workflow of this key has under
    /// the name, creating it where it has none yet.
    NamedAwakeable { name: String },
    /// Wait until the promise has its outcome.
    AwaitAwakeable { id: u64 },
    /// Give a promise its outcome.
    ResolveAwakeable { id: u64, outcome: Outcome },
    /// Read a field of the object's state.
    GetState { key: String },
    /// Write a field of the object's state.
    SetState { key: String, value: Value },
    /// Remove a field of the object's state.
    ClearState { key: String },
    /// Finish the invocation with this outcome.
    Return { outcome: Outcome },
}

/// What an [`Action`] holds.
pub enum ActionView {
    Run { name: Seq<char>, args: Seq<Seq<char>> },
    Call { target: TargetView, payload: ValueView },
    Send { target: TargetView, payload: ValueView, delay_ms: u64 },
    Sleep { duration_ms: u64 },
    CreateAwakeable,
    NamedAwakeable { name: Seq<char> },
    AwaitAwakeable { id: u64 },
    ResolveAwakeable { id: u64, outcome: OutcomeView },
    GetState { key: Seq<char> },
    SetState { key: Seq<char>, value: ValueView },
    ClearState { key: Seq<char> },
    Return { outcome: OutcomeView },
}

impl ActionView {
    /// The kind of entry that records the completion of this operation;
    /// `None` for `Return`, which is no durable operation.
    pub open spec fn expected_kind(self) -> Option<EntryKind> {
        match self {
            ActionView::Run { .. } => Some(EntryKind::SideEffectResult),
            ActionView::Call { .. } => Some(EntryKind::CallResult),
            ActionView::Send { .. } => Some(EntryKind::SendRecorded),
            ActionView::Sleep { .. } => Some(EntryKind::SleepUntil),
            ActionView::CreateAwakeable => Some(EntryKind::AwakeableCreated),
            ActionView::NamedAwakeable { .. } => Some(EntryKind::AwakeableCreated),
            ActionView::AwaitAwakeable { .. } => Some(EntryKind::AwakeableResolved),
            ActionView::ResolveAwakeable { .. } => Some(EntryKind::AwakeableResolved),
            ActionView::GetState { .. } => Some(EntryKind::StateGet),
            ActionView::SetState { .. } => Some(EntryKind::StateSet),
            ActionView::ClearState { .. } => Some(EntryKind::StateClear),
            ActionView::Return { .. } => None,
        }
    }
}

impl View for Action {
    type V = ActionView;

    open spec fn view(&self) -> ActionView {
        match self {
            Action::Run { name, args } => ActionView::Run { name: name@, args: text_views(args@) },
            Action::Call { target, payload } => ActionView::Call {
                target: target@,
                payload: payload@,
            },
            Action::Send { target, payload, delay_ms } => ActionView::Send {
                target: target@,
                payload: payload@,
                delay_ms: *delay_ms,
            },
            Action::Sleep { duration_ms } => ActionView::Sleep { duration_ms: *duration_ms },
            Action::CreateAwakeable => ActionView::CreateAwakeable,
            Action::NamedAwakeable { name } => ActionView::NamedAwakeable { name: name@ },
            Action::AwaitAwakeable { id } => ActionView::AwaitAwakeable { id: *id },
            Action::ResolveAwakeable { id, outcome } => ActionView::ResolveAwakeable {
                id: *id,
                outcome: outcome@,
            },
            Action::GetState { key } => ActionView::GetState { key: key@ },
            Action::SetState { key, value } => ActionView::SetState { key: key@, value: value@ },
            Action::ClearState { key } => ActionView::ClearState { key: key@ },
            Action::Return { outcome } => ActionView::Return { outcome: outcome@ },
        }
    }
}

impl Action {
    /// The kind of entry that records the completion of this operation;
    /// `None` for `Return`.
    pub fn expected_kind(&self) -> (k: Option<EntryKind>)
        ensures
            k == self@.expected_kind(),
    {
        match self {
            Action::Run { .. } => Some(EntryKind::SideEffectResult),
            Action::Call { .. } => Some(EntryKind::CallResult),
            Action::Send { .. } => Some(EntryKind::SendRecorded),
            Action::Sleep { .. } => Some(EntryKind::SleepUntil),
            Action::CreateAwakeable => Some(EntryKind::AwakeableCreated),
            Action::NamedAwakeable { .. } => Some(EntryKind::AwakeableCreated),
            Action::AwaitAwakeable { .. } => Some(EntryKind::AwakeableResolved),
            Action::ResolveAwakeable { .. } => Some(EntryKind::AwakeableResolved),
            Action::GetState { .. } => Some(EntryKind::StateGet),
            Action::SetState { .. } => Some(EntryKind::StateSet),
            Action::ClearState { .. } => Some(EntryKind::StateClear),
            Action::Return { .. } => None,
        }
    }
}

impl Clone for Action {
    fn clone(&self) -> (r: Self)
        ensures
            r@ == self@,
    {
        match self {
            Action::Run { name, args } => Action::Run {
                name: name.clone(),
                args: clone_texts(args),
            },
            Action::Call { target, payload } => Action::Call {
                target: target.clone(),
                payload: payload.clone(),
            },
            Action::Send { target, payload, delay_ms } => Action::Send {
                target: target.clone(),
                payload: payload.clone(),
                delay_ms: *delay_ms,
            },
            Action::Sleep { duration_ms } => Action::Sleep { duration_ms: *duration_ms },
            Action::CreateAwakeable => Action::CreateAwakeable,
            Action::NamedAwakeable { name } => Action::NamedAwakeable { name: name.clone() },
            Action::AwaitAwakeable { id } => Action::AwaitAwakeable { id: *id },
            Action::ResolveAwakeable { id, outcome } => Action::ResolveAwakeable {
                id: *id,
                outcome: outcome.clone(),
            },
            Action::GetState { key } => Action::GetState { key: key.clone() },
            Action::SetState { key, value } => Action::SetState {
                key: key.clone(),
                value: value.clone(),
            },
            Action::ClearState { key } => Action::ClearState { key: key.clone() },
            Action::Return { outcome } => Action::Return { outcome: outcome.clone() },
        }
    }
}

/// What a handler learns from a completed durable operation.
#[derive(Debug, PartialEq, Eq)]
pub enum Event {
    /// The outcome of a side effect, of a call or of an awaited promise.
    Completed(Outcome),
    /// The operation was done and has nothing to report.
    Ack,
    /// The identifier of the promise that was created.
    Awakeable(u64),
    /// The field that was read, if it was set.
    State(Option<Value>),
}

/// What an [`Event`] holds.
pub enum EventView {
    Completed(OutcomeView),
    Ack,
    Awakeable(u64),
    State(Option<ValueView>),
}

impl View for Event {
    type V = EventView;

    open spec fn view(&self) -> EventView {
        match self {
            Event::Completed(o) => EventView::Completed(o@),
            Event::Ack => EventView::Ack,
            Event::Awakeable(id) => EventView::Awakeable(*id),
            Event::State(v) => EventView::State(optional_view(*v)),
        }
    }
}

impl Clone for Event {
    fn clone(&self) -> (r: Self)
        ensures
            r@ == self@,
    {
        match self {
            Event::Completed(o) => Event::Completed(o.clone()),
            Event::Ack => Event::Ack,
            Event::Awakeable(id) => Event::Awakeable(*id),
            Event::State(v) => Event::State(clone_optional(v)),
        }
    }
}

/// The contents of a history, event by event.
pub open spec fn event_views(h: Seq<Event>) -> Seq<EventView> {
    Seq::new(h.len(), |i: int| h[i]@)
}

/// What the handler is told when the operation recorded by `e` completes.
pub open spec fn event_of(e: EntryView) -> EventView {
    match e {
        EntryView::SideEffectResult { outcome } => EventView::Completed(outcome),
        EntryView::CallResult { outcome, .. } => EventView::Completed(outcome),
        EntryView::SendRecorded { .. } => EventView::Ack,
        EntryView::SleepUntil { .. } => EventView::Ack,
        EntryView::AwakeableCreated { id } => EventView::Awakeable(id),
        EntryView::AwakeableResolved { outcome, .. } => EventView::Completed(outcome),
        EntryView::StateGet { value, .. } => EventView::State(value),
        EntryView::StateSet { .. } => EventView::Ack,
        EntryView::StateClear { .. } => EventView::Ack,
    }
}

/// The recorded result of an entry, as the handler sees it.
pub fn event_for(entry: &JournalEntry) -> (ev: Event)
    ensures
        ev@ == event_of(entry@),
{
    match entry {
        JournalEntry::SideEffectResult { outcome } => Event::Completed(outcome.clone()),
        JournalEntry::CallResult { outcome, .. } => Event::Completed(outcome.clone()),
        JournalEntry::SendRecorded { .. } => Event::Ack,
        JournalEntry::SleepUntil { .. } => Event::Ack,
        JournalEntry::AwakeableCreated { id } => Event::Awakeable(*id),
        JournalEntry::AwakeableResolved { outcome, .. } => Event::Completed(outcome.clone()),
        JournalEntry::StateGet { value, .. } => Event::State(clone_optional(value)),
        JournalEntry::StateSet { .. } => Event::Ack,
        JournalEntry::StateClear { .. } => Event::Ack,
    }
}

/// A handler: user code seen as a function from the results of the durable
/// operations it has completed so far to the operation it issues next.
pub trait Handler {
    /// The operation issued after the given history.
    spec fn decide(&self, history: Seq<EventView>) -> ActionView;

    /// The operation issued after the given history.
    fn next(&self, history: &Vec<Event>) -> (action: Action)
        ensures
            action@ == self.decide(event_views(history@)),
    ;
}

} // verus!
