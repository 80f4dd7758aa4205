//! What the journal store writes to its medium: one record for every change
//! it makes.

use vstd::prelude::*;
use crate::entry::{EntryView, JournalEntry};
use crate::locks::HandlerKind;
use crate::runner::Wait;
use crate::value::{Outcome, OutcomeView, Value, ValueView};

verus! {

/// The status of an invocation.
#[derive(Debug, Clone, Copy, PartialEq, Eq, Structural)]
pub enum Status {
    Running,
    Suspended,
    Completed,
    Failed,
}

impl Status {
    /// Whether the status is final.
    pub open spec fn spec_is_terminal(self) -> bool {
        self is Completed || self is Failed
    }

    /// Whether the status is final.
    #[verifier::when_used_as_spec(spec_is_terminal)]
    pub fn is_terminal(self) -> (b: bool)
        ensures
            b == self.spec_is_terminal(),
    {
        match self {
            Status::Completed => true,
            Status::Failed => true,
            _ => false,
        }
    }
}

/// The handler that an invocation runs: the name of its service, object or
/// workflow, the name of the method, and the kind.
#[derive(Debug, PartialEq, Eq)]
pub struct HandlerId {
    pub service: String,
    pub method: String,
    pub kind: HandlerKind,
}

/// What a [`HandlerId`] holds.
pub struct HandlerIdView {
    pub service: Seq<char>,
    pub method: Seq<char>,
    pub kind: HandlerKind,
}

impl View for HandlerId {
    type V = HandlerIdView;

    open spec fn view(&self) -> HandlerIdView {
        HandlerIdView { service: self.service@, method: self.method@, kind: self.kind }
    }
}

impl Clone for HandlerId {
    fn clone(&self) -> (r: Self)
        ensures
            r@ == self@,
    {
        HandlerId { service: self.service.clone(), method: self.method.clone(), kind: self.kind }
    }
}

/// A change of the journal store, as it is written to the medium.
#[derive(Debug, PartialEq, Eq)]
pub enum Record {
    /// An invocation was created. It has the next identifier.
    Created { handler: HandlerId, key: String, input: Value },
    /// An entry was appended to the journal of an invocation.
    Appended { id: u64, entry: JournalEntry },
    /// An invocation became terminal: `Failed` where `failed` is set,
    /// `Completed` where not.
    Ended { id: u64, failed: bool, result: Outcome },
    /// An invocation was suspended on something, or runs again (`None`).
    Suspended { id: u64, waiting: Option<Wait> },
}

/// What a [`Record`] holds.
pub enum RecordView {
    Created { handler: HandlerIdView, key: Seq<char>, input: ValueView },
    Appended { id: u64, entry: EntryView },
    Ended { id: u64, failed: bool, result: OutcomeView },
    Suspended { id: u64, waiting: Option<Wait> },
}

impl View for Record {
    type V = RecordView;

    open spec fn view(&self) -> RecordView {
        match self {
            Record::Created { handler, key, input } => RecordView::Created {
                handler: handler@,
                key: key@,
                input: input@,
            },
            Record::Appended { id, entry } => RecordView::Appended { id: *id, entry: entry@ },
            Record::Ended { id, failed, result } => RecordView::Ended {
                id: *id,
                failed: *failed,
                result: result@,
            },
            Record::Suspended { id, waiting } => RecordView::Suspended {
                id: *id,
                waiting: *waiting,
            },
        }
    }
}

/// The status with which an invocation ends.
pub open spec fn ended_status(failed: bool) -> Status {
    if failed {
        Status::Failed
    } else {
        Status::Completed
    }
}

} // verus!
