//! The engine: the stores and services together, and the way of an
//! invocation through them, from its submission to its terminal status.

use vstd::prelude::*;
use vstd::string::StringExecFns;
use crate::action::{Action, ActionView, Handler};
use crate::entry::{entry_views, EntryView, JournalEntry};
use crate::error::{EngineError, Remedy};
use crate::journal::{InvocationView, JournalStore, JournalStoreView};
use crate::record::{HandlerId, Status};
use crate::locks::{
    Admission, AdmissionView, HandlerKind, HolderState, KeyLockView, LockManager, LockMode,
};
use crate::promises::{optional_outcome, settle_spec, PromiseRegistry, PromiseView};
use crate::runner::{
    accepts_spec, complete_spec, repeat_spec, retry_spec, suspend_spec, wake_spec, Phase, Retry,
    Runner, RunnerView, Wait,
};
use crate::state::{overlay, ObjectStateStore, StateBuffer, WriteView};
use crate::table::{path3, PathTable};
use crate::timers::{TimerPayload, TimerPayloadView, TimerService, TimerState, TimerView};
use crate::value::{Outcome, OutcomeView, Value};

verus! {

/// The answer to a submission.
#[derive(Debug, PartialEq, Eq)]
pub enum Submission {
    /// The invocation was created and may execute now.
    Started { id: u64 },
    /// The invocation was created and waits for its key.
    Queued { id: u64 },
    /// The workflow of the key has run: no invocation was created, and here
    /// is the result of the run.
    AlreadyCompleted(Outcome),
}

/// What a [`Submission`] holds.
pub enum SubmissionView {
    Started { id: u64 },
    Queued { id: u64 },
    AlreadyCompleted(OutcomeView),
}

impl View for Submission {
    type V = SubmissionView;

    open spec fn view(&self) -> SubmissionView {
        match self {
            Submission::Started { id } => SubmissionView::Started { id: *id },
            Submission::Queued { id } => SubmissionView::Queued { id: *id },
            Submission::AlreadyCompleted(o) => SubmissionView::AlreadyCompleted(o@),
        }
    }
}

/// What starting an invocation gave.
pub enum Launch {
    /// The invocation may execute: here is its execution.
    Ready(Execution),
    /// The invocation has to wait for its key.
    Waiting,
}

/// What starting an invocation does about its key.
#[derive(Debug, Clone, Copy, PartialEq, Eq, Structural)]
pub enum StartPlan {
    /// Nothing: the invocation takes no lock, or has its key.
    Proceed,
    /// It wakes the holder, which kept the key while it was suspended.
    Resume,
    /// It asks for a place among the shared handlers again, which the
    /// invocation gave back when it was suspended.
    Reacquire,
    /// Nothing: the invocation waits in the queue, or waits to resume.
    Wait,
}

/// What starting an invocation does about its key, given the kind of its
/// handler, its status and the lock of its key.
pub open spec fn start_plan(kind: HandlerKind, status: Status, lock: KeyLockView, id: u64) -> StartPlan {
    if kind.spec_lock_mode() is None {
        StartPlan::Proceed
    } else if lock.holder == Some(id) {
        match lock.state {
            HolderState::Active => StartPlan::Proceed,
            HolderState::Suspended => StartPlan::Resume,
            HolderState::Resuming => StartPlan::Wait,
        }
    } else if lock.shared.contains(id) {
        StartPlan::Proceed
    } else if status is Suspended && !kind.spec_keeps_lock_when_suspended() {
        StartPlan::Reacquire
    } else {
        StartPlan::Wait
    }
}

/// The writes that a journal records, in order: one for each state entry
/// that sets or clears a field.
pub open spec fn writes_of(journal: Seq<EntryView>) -> Seq<WriteView>
    decreases journal.len(),
{
    if journal.len() == 0 {
        Seq::empty()
    } else {
        match journal.last() {
            EntryView::StateSet { key, value } => writes_of(journal.drop_last()).push(
                WriteView { field: key, value: Some(value) },
            ),
            EntryView::StateClear { key } => writes_of(journal.drop_last()).push(
                WriteView { field: key, value: None },
            ),
            _ => writes_of(journal.drop_last()),
        }
    }
}

/// The time at which something due `delay_ms` after `now` is due; the end of
/// time where the sum is beyond it.
pub open spec fn due_time(now: u64, delay_ms: u64) -> u64 {
    if now + delay_ms <= u64::MAX {
        (now + delay_ms) as u64
    } else {
        u64::MAX
    }
}

/// See [`due_time`].
pub fn due_at(now: u64, delay_ms: u64) -> (t: u64)
    ensures
        t == due_time(now, delay_ms),
{
    if delay_ms <= u64::MAX - now {
        now + delay_ms
    } else {
        u64::MAX
    }
}

/// Recording an entry for an invocation: in its runner and in the journal
/// store, or in neither. Gives the store and the runner after, and the
/// sequence number of the entry or why it was refused.
///
/// - The runner does not take an entry of this kind now: its error, see
///   [`accepts_spec`].
/// - The store refuses the append: its error, see
///   [`JournalStoreView::append`].
/// - Else both hold the entry.
pub open spec fn record_spec<H: Handler>(
    h: &H,
    journals: JournalStoreView,
    id: u64,
    runner: RunnerView,
    entry: EntryView,
    now: u64,
) -> (JournalStoreView, RunnerView, Result<usize, EngineError>) {
    if accepts_spec(h, runner, entry.kind()) is Err {
        (journals, runner, Err(accepts_spec(h, runner, entry.kind())->Err_0))
    } else if journals.append(id, entry).1 is Err {
        (journals, runner, Err(journals.append(id, entry).1->Err_0))
    } else {
        (journals.append(id, entry).0, complete_spec(h, runner, entry, now).0, journals.append(
            id,
            entry,
        ).1)
    }
}

/// What became of performing the handler's pending operation.
#[derive(Debug, PartialEq, Eq)]
pub enum Progress {
    /// The operation was performed and recorded: advance again.
    Continued,
    /// The operation was performed and recorded, and it gave a promise its
    /// outcome: wake the invocation `owner`, which may wait for it, and
    /// advance again.
    Settled { owner: u64, promise: u64 },
    /// The attempt waits.
    Suspended(Wait),
    /// The operation is for the outside to perform: a side effect or a call.
    /// Do it, then hand its outcome to [`Engine::complete`].
    Outside(Action),
}

/// What a [`Progress`] holds.
pub enum ProgressView {
    Continued,
    Settled { owner: u64, promise: u64 },
    Suspended(Wait),
    Outside(ActionView),
}

impl View for Progress {
    type V = ProgressView;

    open spec fn view(&self) -> ProgressView {
        match self {
            Progress::Continued => ProgressView::Continued,
            Progress::Settled { owner, promise } => ProgressView::Settled {
                owner: *owner,
                promise: *promise,
            },
            Progress::Suspended(w) => ProgressView::Suspended(*w),
            Progress::Outside(a) => ProgressView::Outside(a@),
        }
    }
}

/// What became of an event that was delivered to an execution.
#[derive(Debug, Clone, Copy, PartialEq, Eq, Structural)]
pub enum Resumption {
    /// The execution did not wait for this event: nothing changed.
    Ignored,
    /// The execution resumed and may execute now.
    Resumed,
    /// The execution resumed and waits for its key.
    Waiting,
}

/// What became of an execution after a failure.
pub enum Setback {
    /// The pending side effect or call is to be performed again.
    Repeat(Execution),
    /// The attempt has started over: it replays its journal, and performs
    /// nothing again that the journal records.
    Restarted(Execution),
    /// The condition was no failure: the execution goes on as it is.
    Ignored(Execution),
    /// The invocation has failed for good, with the name of the error as its
    /// result. Here are the invocations that start now.
    Failed(Vec<u64>),
}

/// The answer of the terminal transition within what a setback gave.
pub open spec fn end_of(r: Result<Setback, EngineError>) -> Result<Seq<u64>, EngineError> {
    match r {
        Ok(Setback::Failed(started)) => Ok(started@),
        Ok(_) => Ok(Seq::empty()),
        Err(e) => Err(e),
    }
}

/// The status with which an invocation ends for an outcome.
pub open spec fn status_for(outcome: OutcomeView) -> Status {
    match outcome {
        OutcomeView::Success(_) => Status::Completed,
        OutcomeView::Failure(_) => Status::Failed,
    }
}

/// The message with which a wait on a promise that does not exist ends.
pub open spec fn unknown_promise() -> Seq<char> {
    "UnknownPromise"@
}

/// One attempt at executing an invocation: its runner, and the writes it has
/// made to its object and not yet committed.
pub struct Execution {
    pub id: u64,
    /// The name of the service, object or workflow.
    pub service: String,
    /// The key of the object or workflow; empty for a service.
    pub key: String,
    pub kind: HandlerKind,
    pub runner: Runner,
    pub buffer: StateBuffer,
}

impl Execution {
    /// What must hold of an execution that is handed to the engine.
    pub open spec fn inv(&self) -> bool {
        self.runner.inv()
    }

    /// Whether this execution is of the same invocation as `other`, with the
    /// same writes buffered.
    pub open spec fn same_call(&self, other: &Execution) -> bool {
        &&& self.id == other.id
        &&& self.service == other.service
        &&& self.key == other.key
        &&& self.kind == other.kind
        &&& self.buffer == other.buffer
    }

    /// Whether this is the execution that loading the invocation gives: its
    /// journal is loaded, the writes that the journal records are buffered
    /// again, and the runner has begun, replaying where the journal holds
    /// entries and live where not.
    pub open spec fn loaded_from(&self, id: u64, inv: InvocationView, max_attempts: u32) -> bool {
        &&& self.inv()
        &&& self.id == id
        &&& self.service@ == inv.handler.service
        &&& self.key@ == inv.key
        &&& self.kind == inv.handler.kind
        &&& self.buffer@ == writes_of(inv.journal)
        &&& self.runner@ == (RunnerView {
            journal: inv.journal,
            cursor: 0,
            phase: if inv.journal.len() == 0 {
                Phase::Live
            } else {
                Phase::Replaying
            },
            wait: None,
            attempts: 0,
            max_attempts: max_attempts as nat,
        })
    }
}

/// The engine.
pub struct Engine {
    pub journals: JournalStore,
    pub state: ObjectStateStore,
    pub locks: LockManager,
    pub promises: PromiseRegistry,
    pub timers: TimerService,
    /// The promises that workflows have under a name, by service, key and
    /// name.
    pub names: PathTable<u64>,
    /// The number of retries that an attempt is allowed.
    pub max_attempts: u32,
}

impl Engine {
    /// What must hold of an engine.
    pub open spec fn inv(&self) -> bool {
        &&& self.journals.inv()
        &&& self.state.inv()
        &&& self.locks.inv()
        &&& self.names.inv()
    }

    /// The promise that the workflow of a key has under a name, if it has
    /// one.
    pub open spec fn named(&self, service: Seq<char>, key: Seq<char>, name: Seq<char>) -> Option<u64> {
        if self.names.map().dom().contains(seq![service, key, name]) {
            Some(self.names.map()[seq![service, key, name]])
        } else {
            None
        }
    }

    /// Whether two engines have the same named promises but for the one
    /// under the given service, key and name.
    pub open spec fn names_same_but(
        &self,
        other: &Engine,
        service: Seq<char>,
        key: Seq<char>,
        name: Seq<char>,
    ) -> bool {
        forall|s: Seq<char>, k: Seq<char>, n: Seq<char>|
            !(s == service && k == key && n == name) ==> #[trigger] self.named(s, k, n)
                == other.named(s, k, n)
    }

    /// The entry that records the pending operation of an execution when the
    /// engine performs it at time `now`; `None` where the engine records
    /// nothing: for a wait on a promise that is pending, for an operation
    /// that the outside performs, and where the handler returns.
    ///
    /// - A state read records the value that the execution sees: its own
    ///   last write, else the committed value.
    /// - A new promise gets the next identifier; a named promise the one it
    ///   has, or the next where it has none.
    /// - A wait on a promise that has its outcome records the outcome; a
    ///   wait on a promise that does not exist records a failure.
    /// - A sleep records when it ends, a message what was sent.
    pub open spec fn local_entry<H: Handler>(&self, x: &Execution, h: &H, now: u64) -> Option<
        EntryView,
    > {
        match h.decide(x.runner@.history()) {
            ActionView::GetState { key } => Some(
                EntryView::StateGet {
                    key,
                    value: overlay(
                        x.buffer@,
                        key,
                        self.state.committed(x.service@, x.key@, key),
                    ),
                },
            ),
            ActionView::SetState { key, value } => Some(EntryView::StateSet { key, value }),
            ActionView::ClearState { key } => Some(EntryView::StateClear { key }),
            ActionView::CreateAwakeable => Some(
                EntryView::AwakeableCreated { id: self.promises@.len() as u64 },
            ),
            ActionView::NamedAwakeable { name } => Some(
                EntryView::AwakeableCreated {
                    id: match self.named(x.service@, x.key@, name) {
                        Some(id) => id,
                        None => self.promises@.len() as u64,
                    },
                },
            ),
            ActionView::AwaitAwakeable { id } => if id >= self.promises@.len() {
                Some(
                    EntryView::AwakeableResolved {
                        id,
                        outcome: OutcomeView::Failure(unknown_promise()),
                    },
                )
            } else {
                match self.promises@[id as int].outcome {
                    Some(outcome) => Some(EntryView::AwakeableResolved { id, outcome }),
                    None => None,
                }
            },
            ActionView::ResolveAwakeable { id, outcome } => Some(
                EntryView::AwakeableResolved { id, outcome },
            ),
            ActionView::Sleep { duration_ms } => Some(
                EntryView::SleepUntil { timestamp: due_time(now, duration_ms) },
            ),
            ActionView::Send { target, payload, .. } => Some(
                EntryView::SendRecorded { target, payload },
            ),
            ActionView::Run { .. } => None,
            ActionView::Call { .. } => None,
            ActionView::Return { .. } => None,
        }
    }

    /// The promises after the pending operation of an execution is performed
    /// and recorded: a new promise is owned by the invocation, and a promise
    /// that the operation resolves takes the outcome unless it has one.
    pub open spec fn promises_after<H: Handler>(&self, x: &Execution, h: &H) -> Seq<PromiseView> {
        match h.decide(x.runner@.history()) {
            ActionView::CreateAwakeable => self.promises@.push(
                PromiseView { owner: x.id, outcome: None },
            ),
            ActionView::NamedAwakeable { name } => if self.named(x.service@, x.key@, name) is None {
                self.promises@.push(PromiseView { owner: x.id, outcome: None })
            } else {
                self.promises@
            },
            ActionView::ResolveAwakeable { id, outcome } => settle_spec(self.promises@, id, outcome).0,
            _ => self.promises@,
        }
    }

    /// The timers after the pending operation of an execution is performed
    /// and recorded at time `now`: a sleep schedules its end, a message its
    /// delivery, at once where it has no delay.
    pub open spec fn timers_after<H: Handler>(&self, x: &Execution, h: &H, now: u64) -> Seq<
        TimerView,
    > {
        match h.decide(x.runner@.history()) {
            ActionView::Sleep { duration_ms } => self.timers@.push(
                TimerView {
                    invocation: x.id,
                    fire_at: due_time(now, duration_ms),
                    payload: TimerPayloadView::Wake,
                    state: TimerState::Pending,
                },
            ),
            ActionView::Send { target, payload, delay_ms } => self.timers@.push(
                TimerView {
                    invocation: x.id,
                    fire_at: due_time(now, delay_ms),
                    payload: TimerPayloadView::Send { target, payload },
                    state: TimerState::Pending,
                },
            ),
            _ => self.timers@,
        }
    }

    /// The buffered writes of an execution after its pending operation is
    /// performed and recorded.
    pub open spec fn buffer_after<H: Handler>(x: &Execution, h: &H) -> Seq<WriteView> {
        match h.decide(x.runner@.history()) {
            ActionView::SetState { key, value } => x.buffer@.push(
                WriteView { field: key, value: Some(value) },
            ),
            ActionView::ClearState { key } => x.buffer@.push(WriteView { field: key, value: None }),
            _ => x.buffer@,
        }
    }

    /// What performing reports when the operation was recorded.
    pub open spec fn progress_after<H: Handler>(
        &self,
        x: &Execution,
        h: &H,
        runner_after: RunnerView,
    ) -> ProgressView {
        match h.decide(x.runner@.history()) {
            ActionView::ResolveAwakeable { id, outcome } => match settle_spec(
                self.promises@,
                id,
                outcome,
            ).1 {
                Ok(owner) => ProgressView::Settled { owner, promise: id },
                Err(_) => ProgressView::Continued,
            },
            _ => match runner_after.wait {
                Some(wait) => ProgressView::Suspended(wait),
                None => ProgressView::Continued,
            },
        }
    }

    /// An engine without invocations. The journal medium holds at most
    /// `capacity` records, a waiter is left in a queue for at most
    /// `lock_bound` milliseconds, and an attempt is retried at most
    /// `max_attempts` times.
    pub fn new(capacity: usize, lock_bound: u64, max_attempts: u32) -> (e: Self)
        ensures
            e.inv(),
            e.journals@ == (JournalStoreView {
                invocations: Seq::empty(),
                records: Seq::empty(),
                online: true,
                capacity: capacity as nat,
            }),
            e.promises@ == Seq::<PromiseView>::empty(),
            e.timers@ == Seq::<TimerView>::empty(),
            e.locks.bound() == lock_bound,
            forall|t: Seq<char>, k: Seq<char>| #[trigger] e.locks.lock_of(t, k) == KeyLockView::idle(),
            forall|t: Seq<char>, k: Seq<char>, f: Seq<char>| #[trigger]
                e.state.committed(t, k, f) is None,
            forall|t: Seq<char>, k: Seq<char>, n: Seq<char>| #[trigger] e.named(t, k, n) is None,
            e.max_attempts == max_attempts,
    {
        Engine {
            journals: JournalStore::new(capacity),
            state: ObjectStateStore::new(),
            locks: LockManager::new(lock_bound),
            promises: PromiseRegistry::new(),
            timers: TimerService::new(),
            names: PathTable::new(),
            max_attempts,
        }
    }

    /// Submits a call of a handler.
    ///
    /// - A run of a workflow whose key has a recorded result: no invocation
    ///   is created, nothing changes, and the answer is `AlreadyCompleted`
    ///   with that result.
    /// - Else the invocation is created in the journal store, or the
    ///   submission fails with `StorageUnavailable` and nothing changes.
    /// - A handler that takes no lock is `Started`. Any other asks for its
    ///   key: `Started` where the key is granted, `Queued` where not.
    pub fn submit(&mut self, handler: HandlerId, key: String, input: Value, now: u64) -> (r: Result<
        Submission,
        EngineError,
    >)
        requires
            old(self).inv(),
        ensures
            final(self).inv(),
            final(self).state == old(self).state,
            final(self).promises == old(self).promises,
            final(self).timers == old(self).timers,
            final(self).names == old(self).names,
            final(self).max_attempts == old(self).max_attempts,
            ({
                let lock = old(self).locks.lock_of(handler.service@, key@);
                let mode = handler.kind.spec_lock_mode();
                let id = old(self).journals@.invocations.len() as u64;
                if mode == Some(LockMode::RunOnce) && lock.completed is Some {
                    &&& r matches Ok(s) && s@ == SubmissionView::AlreadyCompleted(lock.completed->0)
                    &&& final(self).journals@ == old(self).journals@
                    &&& final(self).locks == old(self).locks
                } else if !old(self).journals@.writable() {
                    &&& r matches Err(e) && e == EngineError::StorageUnavailable
                    &&& final(self).journals@ == old(self).journals@
                    &&& final(self).locks == old(self).locks
                } else {
                    &&& final(self).journals@ == old(self).journals@.create(handler@, key@, input@).0
                    &&& match mode {
                        None => {
                            &&& final(self).locks == old(self).locks
                            &&& r matches Ok(s) && s@ == SubmissionView::Started { id }
                        },
                        Some(m) => {
                            &&& final(self).locks.lock_of(handler.service@, key@) == lock.acquire(
                                id,
                                m,
                                now,
                            ).0
                            &&& final(self).locks.same_but(&old(self).locks, handler.service@, key@)
                            &&& r matches Ok(s) && s@ == if lock.acquire(id, m, now).1 is Granted {
                                SubmissionView::Started { id }
                            } else {
                                SubmissionView::Queued { id }
                            }
                        },
                    }
                }
            }),
    {
        let mode = handler.kind.lock_mode();
        if mode == Some(LockMode::RunOnce) {
            let lock = self.locks.inspect(handler.service.as_str(), key.as_str());
            match lock.completed() {
                Some(o) => {
                    return Ok(Submission::AlreadyCompleted(o));
                },
                None => {},
            }
        }
        let service = handler.service.clone();
        let object_key = key.clone();
        let id = match self.journals.create(handler, key, input) {
            Ok(id) => id,
            Err(e) => {
                return Err(e);
            },
        };
        match mode {
            None => Ok(Submission::Started { id }),
            Some(m) => {
                match self.locks.try_acquire(service.as_str(), object_key.as_str(), id, m, now) {
                    Admission::Granted => Ok(Submission::Started { id }),
                    _ => Ok(Submission::Queued { id }),
                }
            },
        }
    }

    /// Loads an invocation for an attempt, without a look at its key: see
    /// [`Execution::loaded_from`]. `UnknownInvocation` where there is none
    /// under `id`, `AlreadyCompleted` where it is terminal: a terminal
    /// invocation is not executed again.
    pub fn load(&self, id: u64) -> (r: Result<Execution, EngineError>)
        requires
            self.inv(),
        ensures
            id >= self.journals@.invocations.len() ==> (r matches Err(e) && e
                == EngineError::UnknownInvocation),
            id < self.journals@.invocations.len()
                && self.journals@.invocations[id as int].status.spec_is_terminal() ==> (r matches Err(
                e,
            ) && e == EngineError::AlreadyCompleted),
            id < self.journals@.invocations.len()
                && !self.journals@.invocations[id as int].status.spec_is_terminal() ==> (r matches Ok(
                x,
            ) && x.loaded_from(id, self.journals@.invocations[id as int], self.max_attempts)),
    {
        let status = match self.journals.status(id) {
            Some(s) => s,
            None => {
                return Err(EngineError::UnknownInvocation);
            },
        };
        if status.is_terminal() {
            return Err(EngineError::AlreadyCompleted);
        }
        let (handler, key, _input) = self.journals.call_of(id).unwrap();
        let entries = self.journals.journal(id).unwrap();
        let mut buffer = StateBuffer::new();
        let mut i: usize = 0;
        let ghost journal = entry_views(entries@);
        assert(journal.take(0) =~= Seq::<EntryView>::empty());
        while i < entries.len()
            invariant
                i <= entries.len(),
                journal == entry_views(entries@),
                buffer@ == writes_of(journal.take(i as int)),
            decreases entries.len() - i,
        {
            proof {
                assert(journal.take(i + 1).drop_last() =~= journal.take(i as int));
                assert(journal.take(i + 1).last() == entries@[i as int]@);
            }
            match &entries[i] {
                JournalEntry::StateSet { key, value } => {
                    buffer.set(key.clone(), value.clone());
                },
                JournalEntry::StateClear { key } => {
                    buffer.clear(key.clone());
                },
                _ => {},
            }
            i = i + 1;
        }
        assert(journal.take(entries.len() as int) =~= journal);
        let mut runner = Runner::new(entries, self.max_attempts);
        runner.begin();
        Ok(Execution { id, service: handler.service, key, kind: handler.kind, runner, buffer })
    }

    /// Starts or resumes an invocation at time `now`: after a submission
    /// that was granted, after a crash, or when the event that a suspended
    /// invocation waits for may have happened.
    ///
    /// - `UnknownInvocation` where there is none under `id`,
    ///   `AlreadyCompleted` where it is terminal, `StorageUnavailable` where
    ///   the journal store cannot be written. Nothing changes.
    /// - Else the invocation takes up its key as [`start_plan`] says. A
    ///   holder that was suspended is woken (see [`KeyLockView::resume`]); a
    ///   shared handler that was suspended asks for its place again (see
    ///   [`KeyLockView::acquire`]).
    /// - Where the invocation may execute, the store notes that it runs
    ///   again if it was suspended, and the answer is its execution, loaded (see
    ///   [`Execution::loaded_from`]). Where it has to wait, the answer is
    ///   `Waiting`, and the store is as it was.
    pub fn start(&mut self, id: u64, now: u64) -> (r: Result<Launch, EngineError>)
        requires
            old(self).inv(),
        ensures
            final(self).inv(),
            final(self).state == old(self).state,
            final(self).promises == old(self).promises,
            final(self).timers == old(self).timers,
            final(self).names == old(self).names,
            final(self).max_attempts == old(self).max_attempts,
            ({
                let journals = old(self).journals@;
                if id >= journals.invocations.len() {
                    &&& r matches Err(e) && e == EngineError::UnknownInvocation
                    &&& final(self).journals@ == journals
                    &&& final(self).locks == old(self).locks
                } else if journals.invocations[id as int].status.spec_is_terminal() {
                    &&& r matches Err(e) && e == EngineError::AlreadyCompleted
                    &&& final(self).journals@ == journals
                    &&& final(self).locks == old(self).locks
                } else if !journals.writable() {
                    &&& r matches Err(e) && e == EngineError::StorageUnavailable
                    &&& final(self).journals@ == journals
                    &&& final(self).locks == old(self).locks
                } else {
                    let inv = journals.invocations[id as int];
                    let lock = old(self).locks.lock_of(inv.handler.service, inv.key);
                    let plan = start_plan(inv.handler.kind, inv.status, lock, id);
                    let after = match plan {
                        StartPlan::Resume => lock.resume(id).0,
                        StartPlan::Reacquire => lock.acquire(id, LockMode::Shared, now).0,
                        _ => lock,
                    };
                    let ready = match plan {
                        StartPlan::Proceed => true,
                        StartPlan::Resume => lock.shared.len() == 0,
                        StartPlan::Reacquire => lock.acquire(id, LockMode::Shared, now).1 is Granted,
                        StartPlan::Wait => false,
                    };
                    &&& final(self).locks.lock_of(inv.handler.service, inv.key) == after
                    &&& final(self).locks.same_but(&old(self).locks, inv.handler.service, inv.key)
                    &&& if ready {
                        &&& final(self).journals@ == if inv.status is Suspended {
                            journals.set_suspended(id, None).0
                        } else {
                            journals
                        }
                        &&& r matches Ok(Launch::Ready(x)) && x.loaded_from(
                            id,
                            inv,
                            old(self).max_attempts,
                        )
                    } else {
                        &&& final(self).journals@ == journals
                        &&& r matches Ok(Launch::Waiting)
                    }
                }
            }),
    {
        let status = match self.journals.status(id) {
            Some(s) => s,
            None => {
                return Err(EngineError::UnknownInvocation);
            },
        };
        if status.is_terminal() {
            return Err(EngineError::AlreadyCompleted);
        }
        if !self.journals.is_writable() {
            return Err(EngineError::StorageUnavailable);
        }
        let x = match self.load(id) {
            Ok(x) => x,
            Err(e) => {
                return Err(e);
            },
        };
        let ready = match x.kind.lock_mode() {
            None => true,
            Some(_) => {
                let lock = self.locks.inspect(x.service.as_str(), x.key.as_str());
                let holds = match lock.holder() {
                    Some(h) => h == id,
                    None => false,
                };
                if holds {
                    match lock.holder_state() {
                        HolderState::Active => true,
                        HolderState::Suspended => {
                            let _ = self.locks.resume(x.service.as_str(), x.key.as_str(), id);
                            lock.sharing() == 0
                        },
                        HolderState::Resuming => false,
                    }
                } else if lock.shares(id) {
                    true
                } else if status == Status::Suspended && !x.kind.keeps_lock_when_suspended() {
                    match self.locks.try_acquire(
                        x.service.as_str(),
                        x.key.as_str(),
                        id,
                        LockMode::Shared,
                        now,
                    ) {
                        Admission::Granted => true,
                        _ => false,
                    }
                } else {
                    false
                }
            },
        };
        if ready {
            if status == Status::Suspended {
                let _ = self.journals.set_suspended(id, None);
            }
            Ok(Launch::Ready(x))
        } else {
            Ok(Launch::Waiting)
        }
    }

    /// Records an entry for an execution, in its runner and in the journal
    /// store, or in neither: see [`record_spec`].
    pub fn record<H: Handler>(&mut self, x: &mut Execution, h: &H, entry: JournalEntry, now: u64) -> (r:
        Result<usize, EngineError>)
        requires
            old(self).inv(),
            old(x).inv(),
        ensures
            final(self).inv(),
            final(x).inv(),
            final(self).journals@ == record_spec(
                h,
                old(self).journals@,
                old(x).id,
                old(x).runner@,
                entry@,
                now,
            ).0,
            final(x).runner@ == record_spec(
                h,
                old(self).journals@,
                old(x).id,
                old(x).runner@,
                entry@,
                now,
            ).1,
            r == record_spec(h, old(self).journals@, old(x).id, old(x).runner@, entry@, now).2,
            final(self).state == old(self).state,
            final(self).locks == old(self).locks,
            final(self).promises == old(self).promises,
            final(self).timers == old(self).timers,
            final(self).names == old(self).names,
            final(self).max_attempts == old(self).max_attempts,
            final(x).id == old(x).id,
            final(x).service == old(x).service,
            final(x).key == old(x).key,
            final(x).kind == old(x).kind,
            final(x).buffer == old(x).buffer,
    {
        match x.runner.accepts(h, entry.kind()) {
            Err(e) => {
                return Err(e);
            },
            Ok(()) => {},
        }
        let copy = entry.clone();
        match self.journals.append(x.id, copy) {
            Err(e) => Err(e),
            Ok(sequence_no) => {
                let _ = x.runner.complete(h, entry, now);
                Ok(sequence_no)
            },
        }
    }

    /// Performs the pending operation of an execution at time `now`, as far
    /// as the engine performs it.
    ///
    /// - Where the engine records an entry for the operation (see
    ///   [`Self::local_entry`]), the entry is recorded (see [`record_spec`]);
    ///   a refusal is reported and nothing else changes. After it is
    ///   recorded the operation takes effect, see [`Self::promises_after`],
    ///   [`Self::timers_after`], [`Self::buffer_after`], and a promise found
    ///   under a new name keeps that name.
    /// - A wait on a pending promise suspends the runner.
    /// - A side effect or a call is handed out: `Outside`, `NotRunning`
    ///   unless the runner is live.
    /// - Where the handler returns there is nothing to perform:
    ///   `UnexpectedEntry`.
    ///
    /// Committed state and locks are never touched.
    pub fn perform<H: Handler>(&mut self, x: &mut Execution, h: &H, now: u64) -> (r: Result<
        Progress,
        EngineError,
    >)
        requires
            old(self).inv(),
            old(x).inv(),
        ensures
            final(self).inv(),
            final(x).inv(),
            final(self).state == old(self).state,
            final(self).locks == old(self).locks,
            final(self).max_attempts == old(self).max_attempts,
            final(x).id == old(x).id,
            final(x).service == old(x).service,
            final(x).key == old(x).key,
            final(x).kind == old(x).kind,
            ({
                let action = h.decide(old(x).runner@.history());
                match old(self).local_entry(old(x), h, now) {
                    Some(entry) => {
                        let rec = record_spec(
                            h,
                            old(self).journals@,
                            old(x).id,
                            old(x).runner@,
                            entry,
                            now,
                        );
                        &&& final(self).journals@ == rec.0
                        &&& final(x).runner@ == rec.1
                        &&& match rec.2 {
                            Err(e) => {
                                &&& r matches Err(e2) && e2 == e
                                &&& final(self).promises@ == old(self).promises@
                                &&& final(self).timers@ == old(self).timers@
                                &&& final(x).buffer@ == old(x).buffer@
                                &&& final(self).names == old(self).names
                            },
                            Ok(_) => {
                                &&& r matches Ok(p) && p@ == old(self).progress_after(
                                    old(x),
                                    h,
                                    rec.1,
                                )
                                &&& final(self).promises@ == old(self).promises_after(old(x), h)
                                &&& final(self).timers@ == old(self).timers_after(old(x), h, now)
                                &&& final(x).buffer@ == Self::buffer_after(old(x), h)
                                &&& match action {
                                    ActionView::NamedAwakeable { name } => {
                                        &&& final(self).named(old(x).service@, old(x).key@, name)
                                            == Some(entry->AwakeableCreated_id)
                                        &&& final(self).names_same_but(
                                            old(self),
                                            old(x).service@,
                                            old(x).key@,
                                            name,
                                        )
                                    },
                                    _ => final(self).names == old(self).names,
                                }
                            },
                        }
                    },
                    None => {
                        &&& final(self).journals@ == old(self).journals@
                        &&& final(self).promises@ == old(self).promises@
                        &&& final(self).timers@ == old(self).timers@
                        &&& final(self).names == old(self).names
                        &&& final(x).buffer@ == old(x).buffer@
                        &&& match action {
                            ActionView::AwaitAwakeable { .. } => {
                                &&& final(x).runner@ == suspend_spec(h, old(x).runner@).0
                                &&& match suspend_spec(h, old(x).runner@).1 {
                                    Ok(wait) => r matches Ok(p) && p@ == ProgressView::Suspended(wait),
                                    Err(e) => r matches Err(e2) && e2 == e,
                                }
                            },
                            ActionView::Return { .. } => {
                                &&& final(x).runner@ == old(x).runner@
                                &&& r matches Err(e) && e == EngineError::UnexpectedEntry
                            },
                            _ => {
                                &&& final(x).runner@ == old(x).runner@
                                &&& if old(x).runner@.phase is Live {
                                    r matches Ok(p) && p@ == ProgressView::Outside(action)
                                } else {
                                    r matches Err(e) && e == EngineError::NotRunning
                                }
                            },
                        }
                    },
                }
            }),
    {
        proof {
            x.runner.lemma_inv_wf();
        }
        let action = x.runner.pending(h);
        match action {
            Action::GetState { key } => {
                let value = self.state.read(x.service.as_str(), x.key.as_str(), &x.buffer, &key);
                match self.record(x, h, JournalEntry::StateGet { key, value }, now) {
                    Err(e) => Err(e),
                    Ok(_) => Ok(Progress::Continued),
                }
            },
            Action::SetState { key, value } => {
                let entry = JournalEntry::StateSet { key: key.clone(), value: value.clone() };
                match self.record(x, h, entry, now) {
                    Err(e) => Err(e),
                    Ok(_) => {
                        x.buffer.set(key, value);
                        Ok(Progress::Continued)
                    },
                }
            },
            Action::ClearState { key } => {
                match self.record(x, h, JournalEntry::StateClear { key: key.clone() }, now) {
                    Err(e) => Err(e),
                    Ok(_) => {
                        x.buffer.clear(key);
                        Ok(Progress::Continued)
                    },
                }
            },
            Action::CreateAwakeable => {
                let id = self.promises.len() as u64;
                match self.record(x, h, JournalEntry::AwakeableCreated { id }, now) {
                    Err(e) => Err(e),
                    Ok(_) => {
                        self.promises.create(x.id);
                        Ok(Progress::Continued)
                    },
                }
            },
            Action::NamedAwakeable { name } => {
                let path = path3(x.service.as_str(), x.key.as_str(), name.as_str());
                let known = match self.names.find(&path) {
                    Some(i) => Some(*self.names.value(i)),
                    None => None,
                };
                let id = match known {
                    Some(id) => id,
                    None => self.promises.len() as u64,
                };
                match self.record(x, h, JournalEntry::AwakeableCreated { id }, now) {
                    Err(e) => Err(e),
                    Ok(_) => {
                        if known.is_none() {
                            self.promises.create(x.id);
                        }
                        self.names.put(path, id);
                        proof {
                            assert forall|s: Seq<char>, k: Seq<char>, n: Seq<char>|
                                !(s == x.service@ && k == x.key@ && n == name@) implies #[trigger]
                                self.named(s, k, n) == old(self).named(s, k, n) by {
                                assert(seq![s, k, n][0] == s);
                                assert(seq![s, k, n][1] == k);
                                assert(seq![s, k, n][2] == n);
                                assert(seq![x.service@, x.key@, name@][0] == x.service@);
                                assert(seq![x.service@, x.key@, name@][1] == x.key@);
                                assert(seq![x.service@, x.key@, name@][2] == name@);
                            }
                        }
                        Ok(Progress::Continued)
                    },
                }
            },
            Action::AwaitAwakeable { id } => {
                let entry = match self.promises.poll(id) {
                    Err(_) => Some(
                        JournalEntry::AwakeableResolved {
                            id,
                            outcome: Outcome::Failure(String::from_str("UnknownPromise")),
                        },
                    ),
                    Ok(Some(outcome)) => Some(JournalEntry::AwakeableResolved { id, outcome }),
                    Ok(None) => None,
                };
                match entry {
                    Some(e) => match self.record(x, h, e, now) {
                        Err(e) => Err(e),
                        Ok(_) => Ok(Progress::Continued),
                    },
                    None => match x.runner.suspend(h) {
                        Ok(wait) => Ok(Progress::Suspended(wait)),
                        Err(e) => Err(e),
                    },
                }
            },
            Action::ResolveAwakeable { id, outcome } => {
                let entry = JournalEntry::AwakeableResolved { id, outcome: outcome.clone() };
                match self.record(x, h, entry, now) {
                    Err(e) => Err(e),
                    Ok(_) => match self.promises.settle(id, outcome) {
                        Ok(owner) => Ok(Progress::Settled { owner, promise: id }),
                        Err(_) => Ok(Progress::Continued),
                    },
                }
            },
            Action::Sleep { duration_ms } => {
                let fire_at = due_at(now, duration_ms);
                match self.record(x, h, JournalEntry::SleepUntil { timestamp: fire_at }, now) {
                    Err(e) => Err(e),
                    Ok(_) => {
                        self.timers.schedule(x.id, fire_at, TimerPayload::Wake);
                        match x.runner.wait() {
                            Some(wait) => Ok(Progress::Suspended(wait)),
                            None => Ok(Progress::Continued),
                        }
                    },
                }
            },
            Action::Send { target, payload, delay_ms } => {
                let entry = JournalEntry::SendRecorded {
                    target: target.clone(),
                    payload: payload.clone(),
                };
                match self.record(x, h, entry, now) {
                    Err(e) => Err(e),
                    Ok(_) => {
                        self.timers.schedule(
                            x.id,
                            due_at(now, delay_ms),
                            TimerPayload::Send { target, payload },
                        );
                        Ok(Progress::Continued)
                    },
                }
            },
            Action::Return { .. } => Err(EngineError::UnexpectedEntry),
            other => {
                if x.runner.phase() == Phase::Live {
                    Ok(Progress::Outside(other))
                } else {
                    Err(EngineError::NotRunning)
                }
            },
        }
    }

    /// The entry that records the outcome of the pending operation of an
    /// execution when the outside has performed it: the result of a side
    /// effect, or of a call with its target; `None` for any other operation.
    pub open spec fn outside_entry<H: Handler>(x: &Execution, h: &H, outcome: OutcomeView) -> Option<
        EntryView,
    > {
        match h.decide(x.runner@.history()) {
            ActionView::Run { .. } => Some(EntryView::SideEffectResult { outcome }),
            ActionView::Call { target, .. } => Some(EntryView::CallResult { target, outcome }),
            _ => None,
        }
    }

    /// Takes the outcome of the side effect or call that the outside
    /// performed for an execution, and records it (see [`record_spec`]).
    /// `UnexpectedEntry`, and nothing changes, where the pending operation
    /// is neither.
    pub fn complete<H: Handler>(&mut self, x: &mut Execution, h: &H, outcome: Outcome, now: u64) -> (r:
        Result<usize, EngineError>)
        requires
            old(self).inv(),
            old(x).inv(),
        ensures
            final(self).inv(),
            final(x).inv(),
            final(self).state == old(self).state,
            final(self).locks == old(self).locks,
            final(self).promises == old(self).promises,
            final(self).timers == old(self).timers,
            final(self).names == old(self).names,
            final(self).max_attempts == old(self).max_attempts,
            final(x).id == old(x).id,
            final(x).service == old(x).service,
            final(x).key == old(x).key,
            final(x).kind == old(x).kind,
            final(x).buffer == old(x).buffer,
            match Self::outside_entry(old(x), h, outcome@) {
                Some(entry) => {
                    let rec = record_spec(
                        h,
                        old(self).journals@,
                        old(x).id,
                        old(x).runner@,
                        entry,
                        now,
                    );
                    &&& final(self).journals@ == rec.0
                    &&& final(x).runner@ == rec.1
                    &&& r == rec.2
                },
                None => {
                    &&& final(self).journals@ == old(self).journals@
                    &&& final(x).runner@ == old(x).runner@
                    &&& r == Err::<usize, EngineError>(EngineError::UnexpectedEntry)
                },
            },
    {
        match x.runner.pending(h) {
            Action::Run { .. } => self.record(x, h, JournalEntry::SideEffectResult { outcome }, now),
            Action::Call { target, .. } => self.record(
                x,
                h,
                JournalEntry::CallResult { target, outcome },
                now,
            ),
            _ => Err(EngineError::UnexpectedEntry),
        }
    }

    /// Whether `after` is this engine after an execution has ended with an
    /// outcome, and `r` the answer: the terminal transition.
    ///
    /// The invocation becomes `Completed` for a success and `Failed` for a
    /// failure, with the outcome as its result. Where the journal store
    /// refuses that (see [`JournalStoreView::mark_terminal`]), the error is
    /// returned and nothing has changed. Else, with it:
    ///
    /// - after a success the buffered writes are committed to the object,
    ///   all of them; after a failure none is;
    /// - every pending timer of the invocation is cancelled;
    /// - a workflow run records its outcome as the result of its key;
    /// - the invocation gives its key back, and the answer holds the
    ///   invocations that start now.
    pub open spec fn ends(
        &self,
        after: &Engine,
        x: &Execution,
        outcome: OutcomeView,
        r: Result<Seq<u64>, EngineError>,
    ) -> bool {
        &&& after.promises == self.promises
        &&& after.names == self.names
        &&& after.max_attempts == self.max_attempts
        &&& after.journals@ == self.journals@.mark_terminal(x.id, status_for(outcome), outcome).0
        &&& match self.journals@.mark_terminal(x.id, status_for(outcome), outcome).1 {
            Err(e) => {
                &&& r == Err::<Seq<u64>, EngineError>(e)
                &&& after.state == self.state
                &&& after.locks == self.locks
                &&& after.timers@ == self.timers@
            },
            Ok(_) => {
                let lock = self.locks.lock_of(x.service@, x.key@);
                let recorded = if x.kind is Workflow {
                    lock.complete(outcome).0
                } else {
                    lock
                };
                &&& if outcome is Success {
                    after.state.is_commit_of(&self.state, x.service@, x.key@, x.buffer@)
                } else {
                    after.state == self.state
                }
                &&& after.timers@ == crate::timers::cancel_for_spec(self.timers@, x.id)
                &&& match x.kind.spec_lock_mode() {
                    None => after.locks == self.locks && r == Ok::<Seq<u64>, EngineError>(
                        Seq::empty(),
                    ),
                    Some(_) => {
                        &&& after.locks.lock_of(x.service@, x.key@) == recorded.release(x.id).0
                        &&& after.locks.same_but(&self.locks, x.service@, x.key@)
                        &&& r == Ok::<Seq<u64>, EngineError>(
                            match recorded.release(x.id).1 {
                                Ok(s) => s,
                                Err(_) => Seq::<u64>::empty(),
                            },
                        )
                    },
                }
            },
        }
    }

    /// Ends an execution with its outcome: see [`Self::ends`].
    pub fn finish(&mut self, x: Execution, outcome: Outcome) -> (r: Result<Vec<u64>, EngineError>)
        requires
            old(self).inv(),
            x.inv(),
        ensures
            final(self).inv(),
            old(self).ends(final(self), &x, outcome@, match r {
                Ok(started) => Ok(started@),
                Err(e) => Err(e),
            }),
    {
        let status = match &outcome {
            Outcome::Success(_) => Status::Completed,
            Outcome::Failure(_) => Status::Failed,
        };
        let success = match &outcome {
            Outcome::Success(_) => true,
            Outcome::Failure(_) => false,
        };
        match self.journals.mark_terminal(x.id, status, outcome.clone()) {
            Err(e) => {
                return Err(e);
            },
            Ok(()) => {},
        }
        let Execution { id, service, key, kind, runner: _, buffer } = x;
        if success {
            self.state.commit(service.as_str(), key.as_str(), buffer);
        }
        self.timers.cancel_for(id);
        match kind.lock_mode() {
            None => {
                let started: Vec<u64> = Vec::new();
                assert(started@ =~= Seq::<u64>::empty());
                Ok(started)
            },
            Some(_) => {
                let ghost locks0 = self.locks;
                if kind == HandlerKind::Workflow {
                    let _ = self.locks.complete_workflow(service.as_str(), key.as_str(), outcome);
                }
                let ghost locks1 = self.locks;
                let started = match self.locks.release(service.as_str(), key.as_str(), id) {
                    Ok(s) => s,
                    Err(_) => {
                        let s: Vec<u64> = Vec::new();
                        assert(s@ =~= Seq::<u64>::empty());
                        s
                    },
                };
                proof {
                    assert(self.locks.same_but(&locks1, service@, key@));
                    assert(locks1.same_but(&locks0, service@, key@) || locks1 == locks0);
                    assert forall|t: Seq<char>, k: Seq<char>|
                        !(t == service@ && k == key@) implies #[trigger] self.locks.lock_of(t, k)
                        == old(self).locks.lock_of(t, k) by {
                        assert(self.locks.lock_of(t, k) == locks1.lock_of(t, k));
                        assert(locks1.lock_of(t, k) == locks0.lock_of(t, k));
                    }
                }
                Ok(started)
            },
        }
    }

    /// Whether `after` holds what this engine holds.
    pub open spec fn unchanged(&self, after: &Engine) -> bool {
        &&& after.journals@ == self.journals@
        &&& after.state == self.state
        &&& after.locks == self.locks
        &&& after.promises == self.promises
        &&& after.timers@ == self.timers@
        &&& after.names == self.names
        &&& after.max_attempts == self.max_attempts
    }

    /// Takes a failure of an execution and does what it asks for (see
    /// [`EngineError::spec_remedy`]), within the budget of the attempt.
    ///
    /// - A side effect or call that failed for the moment is to be performed
    ///   again, the execution staying where it is: `Repeat` (see
    ///   [`repeat_spec`]).
    /// - After any other retryable failure the attempt starts over and
    ///   replays its journal: `Restarted` (see [`retry_spec`]).
    /// - Where the budget is spent, and after a fatal error, the invocation
    ///   ends as `Failed` with the name of the error as its result (see
    ///   [`Self::ends`]), so that everyone who attaches to it gets this
    ///   error: `Failed`. Where the journal store refuses that, its error is
    ///   returned, and the invocation is as the store has it.
    /// - A condition that is no failure changes nothing: `Ignored`.
    /// - `NotRunning`, and nothing changes, where a retry is asked of an
    ///   attempt that does not execute.
    pub fn setback(&mut self, x: Execution, error: EngineError) -> (r: Result<Setback, EngineError>)
        requires
            old(self).inv(),
            x.inv(),
        ensures
            final(self).inv(),
            ({
                let granted = match error.spec_remedy() {
                    Remedy::Repeat => repeat_spec(x.runner@),
                    Remedy::Restart => retry_spec(x.runner@),
                    _ => (x.runner@, Retry::Exhausted),
                };
                if error.spec_remedy() is Ignore {
                    &&& old(self).unchanged(final(self))
                    &&& r matches Ok(Setback::Ignored(y)) && y == x
                } else {
                    match granted.1 {
                        Retry::Repeat => {
                            &&& old(self).unchanged(final(self))
                            &&& r matches Ok(Setback::Repeat(y)) && y.inv() && y.same_call(&x)
                                && y.runner@ == granted.0
                        },
                        Retry::Restarted => {
                            &&& old(self).unchanged(final(self))
                            &&& r matches Ok(Setback::Restarted(y)) && y.inv() && y.same_call(&x)
                                && y.runner@ == granted.0.with_phase(
                                if x.runner@.journal.len() == 0 {
                                    Phase::Live
                                } else {
                                    Phase::Replaying
                                },
                            )
                        },
                        Retry::NotRunning => {
                            &&& old(self).unchanged(final(self))
                            &&& r matches Err(e) && e == EngineError::NotRunning
                        },
                        Retry::Exhausted => {
                            &&& (r is Err || r matches Ok(Setback::Failed(_)))
                            &&& old(self).ends(
                                final(self),
                                &x,
                                OutcomeView::Failure(error.spec_name()),
                                end_of(r),
                            )
                        },
                    }
                }
            }),
    {
        let mut x = x;
        let granted = match error.remedy() {
            Remedy::Ignore => {
                return Ok(Setback::Ignored(x));
            },
            Remedy::Repeat => x.runner.retry_effect(),
            Remedy::Restart => x.runner.retry(),
            Remedy::Fail => {
                x.runner.abort();
                Retry::Exhausted
            },
        };
        match granted {
            Retry::Repeat => Ok(Setback::Repeat(x)),
            Retry::Restarted => {
                x.runner.begin();
                Ok(Setback::Restarted(x))
            },
            Retry::NotRunning => Err(EngineError::NotRunning),
            Retry::Exhausted => match self.finish(x, Outcome::Failure(error.name())) {
                Ok(started) => Ok(Setback::Failed(started)),
                Err(e) => Err(e),
            },
        }
    }

    /// Notes that an execution is suspended: in the journal store, with what
    /// it waits for, and at its key. A holder that runs alone keeps its key
    /// while it is suspended, and shared handlers are let in beside it; a
    /// shared handler gives its place back. The answer holds the invocations
    /// that start now. Where the execution does not wait, the answer is
    /// `NotRunning`; where the journal store refuses the note, its error;
    /// nothing has changed in either case.
    pub fn park(&mut self, x: &Execution) -> (r: Result<Vec<u64>, EngineError>)
        requires
            old(self).inv(),
            x.inv(),
        ensures
            final(self).inv(),
            final(self).state == old(self).state,
            final(self).promises == old(self).promises,
            final(self).timers == old(self).timers,
            final(self).names == old(self).names,
            final(self).max_attempts == old(self).max_attempts,
            x.runner@.wait is None ==> {
                &&& r matches Err(e) && e == EngineError::NotRunning
                &&& final(self).journals@ == old(self).journals@
                &&& final(self).locks == old(self).locks
            },
            x.runner@.wait is Some ==> final(self).journals@ == old(self).journals@.set_suspended(
                x.id,
                x.runner@.wait,
            ).0,
            x.runner@.wait is Some ==> match old(self).journals@.set_suspended(
                x.id,
                x.runner@.wait,
            ).1 {
                Err(e) => {
                    &&& r matches Err(e2) && e2 == e
                    &&& final(self).locks == old(self).locks
                },
                Ok(_) => {
                    let lock = old(self).locks.lock_of(x.service@, x.key@);
                    let parked = if x.kind.spec_keeps_lock_when_suspended() {
                        lock.suspend(x.id)
                    } else {
                        lock.release(x.id)
                    };
                    &&& r matches Ok(started) && match x.kind.spec_lock_mode() {
                        None => final(self).locks == old(self).locks && started@
                            == Seq::<u64>::empty(),
                        Some(_) => {
                            &&& final(self).locks.lock_of(x.service@, x.key@) == parked.0
                            &&& final(self).locks.same_but(&old(self).locks, x.service@, x.key@)
                            &&& started@ == match parked.1 {
                                Ok(s) => s,
                                Err(_) => Seq::<u64>::empty(),
                            }
                        },
                    }
                },
            },
    {
        let waiting = x.runner.wait();
        if waiting.is_none() {
            return Err(EngineError::NotRunning);
        }
        match self.journals.set_suspended(x.id, waiting) {
            Err(e) => {
                return Err(e);
            },
            Ok(()) => {},
        }
        let none: Vec<u64> = Vec::new();
        assert(none@ =~= Seq::<u64>::empty());
        match x.kind.lock_mode() {
            None => Ok(none),
            Some(_) => {
                let r = if x.kind.keeps_lock_when_suspended() {
                    self.locks.suspend(x.service.as_str(), x.key.as_str(), x.id)
                } else {
                    self.locks.release(x.service.as_str(), x.key.as_str(), x.id)
                };
                match r {
                    Ok(started) => Ok(started),
                    Err(_) => Ok(none),
                }
            },
        }
    }

    /// Delivers an event to an execution at time `now`: the firing of a
    /// timer or the resolution of a promise.
    ///
    /// - The execution does not wait for exactly this: `Ignored`, and nothing
    ///   changes. So an event that is delivered again resumes nothing.
    /// - Else the journal store notes that the invocation runs again; where
    ///   it refuses, the error is returned and nothing has changed. Then the
    ///   runner resumes (see [`wake_spec`]), and the invocation takes up its
    ///   key again: a holder that kept it executes at once unless shared
    ///   handlers execute, a shared handler asks for its place anew.
    ///   `Resumed` where it may execute now, `Waiting` where it has to wait.
    pub fn unpark(&mut self, x: &mut Execution, wait: Wait, now: u64) -> (r: Result<
        Resumption,
        EngineError,
    >)
        requires
            old(self).inv(),
            old(x).inv(),
        ensures
            final(self).inv(),
            final(x).inv(),
            final(self).state == old(self).state,
            final(self).promises == old(self).promises,
            final(self).timers == old(self).timers,
            final(self).names == old(self).names,
            final(self).max_attempts == old(self).max_attempts,
            final(x).id == old(x).id,
            final(x).service == old(x).service,
            final(x).key == old(x).key,
            final(x).kind == old(x).kind,
            final(x).buffer == old(x).buffer,
            if old(x).runner@.wait != Some(wait) {
                &&& r == Ok::<Resumption, EngineError>(Resumption::Ignored)
                &&& final(self).journals@ == old(self).journals@
                &&& final(self).locks == old(self).locks
                &&& final(x).runner@ == old(x).runner@
            } else {
                &&& final(self).journals@ == old(self).journals@.set_suspended(old(x).id, None).0
                &&& match old(self).journals@.set_suspended(old(x).id, None).1 {
                    Err(e) => {
                        &&& r == Err::<Resumption, EngineError>(e)
                        &&& final(self).locks == old(self).locks
                        &&& final(x).runner@ == old(x).runner@
                    },
                    Ok(_) => {
                        let lock = old(self).locks.lock_of(old(x).service@, old(x).key@);
                        &&& final(x).runner@ == wake_spec(old(x).runner@, wait).0
                        &&& match old(x).kind.spec_lock_mode() {
                            None => {
                                &&& final(self).locks == old(self).locks
                                &&& r == Ok::<Resumption, EngineError>(Resumption::Resumed)
                            },
                            Some(_) => {
                                &&& final(self).locks.same_but(
                                    &old(self).locks,
                                    old(x).service@,
                                    old(x).key@,
                                )
                                &&& if old(x).kind.spec_keeps_lock_when_suspended() {
                                    &&& final(self).locks.lock_of(old(x).service@, old(x).key@)
                                        == lock.resume(old(x).id).0
                                    &&& r == Ok::<Resumption, EngineError>(
                                        if lock.resume(old(x).id).1 matches Ok(
                                            AdmissionView::Queued,
                                        ) {
                                            Resumption::Waiting
                                        } else {
                                            Resumption::Resumed
                                        },
                                    )
                                } else {
                                    &&& final(self).locks.lock_of(old(x).service@, old(x).key@)
                                        == lock.acquire(old(x).id, LockMode::Shared, now).0
                                    &&& r == Ok::<Resumption, EngineError>(
                                        if lock.acquire(old(x).id, LockMode::Shared, now).1
                                            is Queued {
                                            Resumption::Waiting
                                        } else {
                                            Resumption::Resumed
                                        },
                                    )
                                }
                            },
                        }
                    },
                }
            },
    {
        let waits_for_it = match x.runner.wait() {
            Some(w) => w == wait,
            None => false,
        };
        if !waits_for_it {
            return Ok(Resumption::Ignored);
        }
        match self.journals.set_suspended(x.id, None) {
            Err(e) => {
                return Err(e);
            },
            Ok(()) => {},
        }
        x.runner.wake(wait);
        match x.kind.lock_mode() {
            None => Ok(Resumption::Resumed),
            Some(_) => {
                if x.kind.keeps_lock_when_suspended() {
                    match self.locks.resume(x.service.as_str(), x.key.as_str(), x.id) {
                        Ok(Admission::Queued) => Ok(Resumption::Waiting),
                        _ => Ok(Resumption::Resumed),
                    }
                } else {
                    match self.locks.try_acquire(
                        x.service.as_str(),
                        x.key.as_str(),
                        x.id,
                        LockMode::Shared,
                        now,
                    ) {
                        Admission::Queued => Ok(Resumption::Waiting),
                        _ => Ok(Resumption::Resumed),
                    }
                }
            },
        }
    }

    /// Attaches to an invocation: its result once it is terminal, `Ok(None)`
    /// while it is not, `UnknownInvocation` where there is none under `id`.
    pub fn attach(&self, id: u64) -> (r: Result<Option<Outcome>, EngineError>)
        ensures
            id >= self.journals@.invocations.len() ==> (r matches Err(e) && e
                == EngineError::UnknownInvocation),
            id < self.journals@.invocations.len() ==> (r matches Ok(o) && optional_outcome(o)
                == self.journals@.invocations[id as int].result),
    {
        self.journals.attach(id)
    }
}

} // verus!
