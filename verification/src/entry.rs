//! Journal entries: one durably recorded decision point each.

use vstd::prelude::*;
use crate::target::{Target, TargetView};
use crate::value::{Outcome, OutcomeView, Value, ValueView};

verus! {

/// The kind of a journal entry. Replay compares kinds and nothing else.
#[derive(Debug, Clone, Copy, PartialEq, Eq, Structural)]
pub enum EntryKind {
    SideEffectResult,
    CallResult,
    SendRecorded,
    SleepUntil,
    AwakeableCreated,
    AwakeableResolved,
    StateGet,
    StateSet,
    StateClear,
}

/// One recorded decision of an invocation.
#[derive(Debug, PartialEq, Eq)]
#[allow(inconsistent_fields)]
pub enum JournalEntry {
    SideEffectResult { outcome: Outcome },
    CallResult { target: Target, outcome: Outcome },
    SendRecorded { target: Target, payload: Value },
    SleepUntil { timestamp: u64 },
    AwakeableCreated { id: u64 },
    AwakeableResolved { id: u64, outcome: Outcome },
    StateGet { key: String, value: Option<Value> },
    StateSet { key: String, value: Value },
    StateClear { key: String },
}

/// What a [`JournalEntry`] holds.
#[allow(inconsistent_fields)]
pub enum EntryView {
    SideEffectResult { outcome: OutcomeView },
    CallResult { target: TargetView, outcome: OutcomeView },
    SendRecorded { target: TargetView, payload: ValueView },
    SleepUntil { timestamp: u64 },
    AwakeableCreated { id: u64 },
    AwakeableResolved { id: u64, outcome: OutcomeView },
    StateGet { key: Seq<char>, value: Option<ValueView> },
    StateSet { key: Seq<char>, value: ValueView },
    StateClear { key: Seq<char> },
}

/// The content of an optional value.
pub open spec fn optional_view(v: Option<Value>) -> Option<ValueView> {
    match v {
        Some(x) => Some(x@),
        None => None,
    }
}

/// Copies an optional value.
pub fn clone_optional(v: &Option<Value>) -> (r: Option<Value>)
    ensures
        optional_view(r) == optional_view(*v),
{
    match v {
        Some(x) => Some(x.clone()),
        None => None,
    }
}

impl EntryView {
    /// The kind of the entry.
    pub open spec fn kind(self) -> EntryKind {
        match self {
            EntryView::SideEffectResult { .. } => EntryKind::SideEffectResult,
            EntryView::CallResult { .. } => EntryKind::CallResult,
            EntryView::SendRecorded { .. } => EntryKind::SendRecorded,
            EntryView::SleepUntil { .. } => EntryKind::SleepUntil,
            EntryView::AwakeableCreated { .. } => EntryKind::AwakeableCreated,
            EntryView::AwakeableResolved { .. } => EntryKind::AwakeableResolved,
            EntryView::StateGet { .. } => EntryKind::StateGet,
            EntryView::StateSet { .. } => EntryKind::StateSet,
            EntryView::StateClear { .. } => EntryKind::StateClear,
        }
    }
}

impl View for JournalEntry {
    type V = EntryView;

    open spec fn view(&self) -> EntryView {
        match self {
            JournalEntry::SideEffectResult { outcome } => EntryView::SideEffectResult {
                outcome: outcome@,
            },
            JournalEntry::CallResult { target, outcome } => EntryView::CallResult {
                target: target@,
                outcome: outcome@,
            },
            JournalEntry::SendRecorded { target, payload } => EntryView::SendRecorded {
                target: target@,
                payload: payload@,
            },
            JournalEntry::SleepUntil { timestamp } => EntryView::SleepUntil {
                timestamp: *timestamp,
            },
            JournalEntry::AwakeableCreated { id } => EntryView::AwakeableCreated { id: *id },
            JournalEntry::AwakeableResolved { id, outcome } => EntryView::AwakeableResolved {
                id: *id,
                outcome: outcome@,
            },
            JournalEntry::StateGet { key, value } => EntryView::StateGet {
                key: key@,
                value: optional_view(*value),
            },
            JournalEntry::StateSet { key, value } => EntryView::StateSet {
                key: key@,
                value: value@,
            },
            JournalEntry::StateClear { key } => EntryView::StateClear { key: key@ },
        }
    }
}

impl JournalEntry {
    /// The kind of this entry.
    pub fn kind(&self) -> (k: EntryKind)
        ensures
            k == self@.kind(),
    {
        match self {
            JournalEntry::SideEffectResult { .. } => EntryKind::SideEffectResult,
            JournalEntry::CallResult { .. } => EntryKind::CallResult,
            JournalEntry::SendRecorded { .. } => EntryKind::SendRecorded,
            JournalEntry::SleepUntil { .. } => EntryKind::SleepUntil,
            JournalEntry::AwakeableCreated { .. } => EntryKind::AwakeableCreated,
            JournalEntry::AwakeableResolved { .. } => EntryKind::AwakeableResolved,
            JournalEntry::StateGet { .. } => EntryKind::StateGet,
            JournalEntry::StateSet { .. } => EntryKind::StateSet,
            JournalEntry::StateClear { .. } => EntryKind::StateClear,
        }
    }
}

impl Clone for JournalEntry {
    fn clone(&self) -> (r: Self)
        ensures
            r@ == self@,
    {
        match self {
            JournalEntry::SideEffectResult { outcome } => JournalEntry::SideEffectResult {
                outcome: outcome.clone(),
            },
            JournalEntry::CallResult { target, outcome } => JournalEntry::CallResult {
                target: target.clone(),
                outcome: outcome.clone(),
            },
            JournalEntry::SendRecorded { target, payload } => JournalEntry::SendRecorded {
                target: target.clone(),
                payload: payload.clone(),
            },
            JournalEntry::SleepUntil { timestamp } => JournalEntry::SleepUntil {
                timestamp: *timestamp,
            },
            JournalEntry::AwakeableCreated { id } => JournalEntry::AwakeableCreated { id: *id },
            JournalEntry::AwakeableResolved { id, outcome } => JournalEntry::AwakeableResolved {
                id: *id,
                outcome: outcome.clone(),
            },
            JournalEntry::StateGet { key, value } => JournalEntry::StateGet {
                key: key.clone(),
                value: clone_optional(value),
            },
            JournalEntry::StateSet { key, value } => JournalEntry::StateSet {
                key: key.clone(),
                value: value.clone(),
            },
            JournalEntry::StateClear { key } => JournalEntry::StateClear { key: key.clone() },
        }
    }
}

/// The contents of a journal, entry by entry.
pub open spec fn entry_views(j: Seq<JournalEntry>) -> Seq<EntryView> {
    Seq::new(j.len(), |i: int| j[i]@)
}

/// Copies a journal.
pub fn clone_entries(j: &Vec<JournalEntry>) -> (r: Vec<JournalEntry>)
    ensures
        entry_views(r@) == entry_views(j@),
{
    let mut r: Vec<JournalEntry> = Vec::new();
    let mut i: usize = 0;
    while i < j.len()
        invariant
            i <= j.len(),
            r@.len() == i,
            forall|k: int| 0 <= k < i ==> r@[k]@ == j@[k]@,
        decreases j.len() - i,
    {
        r.push(j[i].clone());
        i = i + 1;
    }
    assert(entry_views(r@) =~= entry_views(j@));
    r
}

} // verus!
