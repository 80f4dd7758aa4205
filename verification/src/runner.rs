//! The replay cursor and the invocation runner: one attempt at executing a
//! handler against the journal of its invocation.

use vstd::prelude::*;
use crate::action::{event_for, event_of, Action, ActionView, Event, EventView, Handler, event_views};
use crate::entry::{entry_views, EntryKind, EntryView, JournalEntry};
use crate::error::EngineError;
use crate::value::{Outcome, OutcomeView};

verus! {

/// Where an attempt stands.
#[derive(Debug, Clone, Copy, PartialEq, Eq, Structural)]
pub enum Phase {
    /// Loaded, not started.
    Fresh,
    /// Recorded entries are still being fed back to the handler.
    Replaying,
    /// The journal is exhausted: operations execute for real.
    Live,
    /// Waiting for a timer or a promise.
    Suspended,
    /// Finished or failed for good.
    Terminal,
}

/// What a suspended attempt waits for.
#[derive(Debug, Clone, Copy, PartialEq, Eq, Structural)]
pub enum Wait {
    /// A sleep whose deadline has not passed.
    Timer { fire_at: u64 },
    /// A promise that has no outcome yet.
    Awakeable { id: u64 },
}

/// What the runner reports after advancing.
#[derive(Debug, PartialEq, Eq)]
pub enum Next {
    /// The journal is exhausted and the handler asks for this operation: do
    /// it, then record its completion.
    Perform(Action),
    /// The attempt waits.
    Suspended(Wait),
    /// The handler returned.
    Done(Outcome),
    /// The attempt failed for good.
    Failed(EngineError),
    /// The attempt is not executing (fresh, suspended or terminal).
    NotRunning,
}

/// What a [`Next`] holds.
pub enum NextView {
    Perform(ActionView),
    Suspended(Wait),
    Done(OutcomeView),
    Failed(EngineError),
    NotRunning,
}

impl View for Next {
    type V = NextView;

    open spec fn view(&self) -> NextView {
        match self {
            Next::Perform(a) => NextView::Perform(a@),
            Next::Suspended(w) => NextView::Suspended(*w),
            Next::Done(o) => NextView::Done(o@),
            Next::Failed(e) => NextView::Failed(*e),
            Next::NotRunning => NextView::NotRunning,
        }
    }
}

/// What became of a request to retry.
#[derive(Debug, Clone, Copy, PartialEq, Eq, Structural)]
pub enum Retry {
    /// The attempt starts over from `Fresh`, the journal kept.
    Restarted,
    /// The attempt goes on where it is: perform the operation again.
    Repeat,
    /// The budget is spent: the invocation is terminal.
    Exhausted,
    /// Nothing to retry: the attempt is fresh or terminal.
    NotRunning,
}

/// The state of a runner as contracts see it.
pub struct RunnerView {
    pub journal: Seq<EntryView>,
    pub cursor: nat,
    pub phase: Phase,
    pub wait: Option<Wait>,
    pub attempts: nat,
    pub max_attempts: nat,
}

impl RunnerView {
    /// The results that the handler has been given so far: those recorded in
    /// the first `cursor` entries.
    pub open spec fn history(self) -> Seq<EventView> {
        history_of(self.journal, self.cursor)
    }

    /// What holds of every runner.
    pub open spec fn wf(self) -> bool {
        &&& self.cursor <= self.journal.len()
        &&& self.attempts <= self.max_attempts
        &&& (self.phase is Fresh ==> self.cursor == 0)
        &&& (self.phase is Replaying ==> self.cursor < self.journal.len())
        &&& (self.phase is Live ==> self.cursor == self.journal.len())
        &&& (self.phase is Suspended <==> self.wait is Some)
        &&& (self.wait matches Some(Wait::Timer { fire_at }) ==> self.cursor < self.journal.len()
            && self.journal[self.cursor as int] == (EntryView::SleepUntil { timestamp: fire_at }))
        &&& (self.wait matches Some(Wait::Awakeable { .. }) ==> self.cursor == self.journal.len())
    }

    /// The runner after the entry under the cursor has been consumed.
    pub open spec fn consumed(self) -> RunnerView {
        RunnerView {
            cursor: self.cursor + 1,
            phase: if self.cursor + 1 == self.journal.len() {
                Phase::Live
            } else {
                Phase::Replaying
            },
            ..self
        }
    }

    /// The runner with another phase.
    pub open spec fn with_phase(self, phase: Phase) -> RunnerView {
        RunnerView { phase: phase, ..self }
    }

    /// The runner suspended on `wait`.
    pub open spec fn suspended_on(self, wait: Wait) -> RunnerView {
        RunnerView { phase: Phase::Suspended, wait: Some(wait), ..self }
    }
}

/// The results recorded in the first `cursor` entries of a journal.
pub open spec fn history_of(journal: Seq<EntryView>, cursor: nat) -> Seq<EventView> {
    Seq::new(cursor, |i: int| event_of(journal[i]))
}

proof fn lemma_history_extends(
    old_history: Seq<Event>,
    ev: Event,
    old_journal: Seq<EntryView>,
    journal: Seq<EntryView>,
    cursor: nat,
)
    requires
        old_history.len() == cursor,
        event_views(old_history) == history_of(old_journal, cursor),
        cursor < journal.len(),
        cursor <= old_journal.len(),
        forall|i: int| 0 <= i < cursor ==> journal[i] == old_journal[i],
        ev@ == event_of(journal[cursor as int]),
    ensures
        event_views(old_history.push(ev)) == history_of(journal, cursor + 1),
{
    let a = event_views(old_history.push(ev));
    let b = history_of(journal, cursor + 1);
    assert forall|i: int| 0 <= i < cursor + 1 implies a[i] == b[i] by {
        if i < cursor {
            assert(old_history.push(ev)[i] == old_history[i]);
            assert(event_views(old_history)[i] == old_history[i]@);
            assert(history_of(old_journal, cursor)[i] == event_of(old_journal[i]));
        }
    }
    assert(a =~= b);
}

proof fn lemma_history_kept(
    history: Seq<Event>,
    old_journal: Seq<EntryView>,
    journal: Seq<EntryView>,
    cursor: nat,
)
    requires
        history.len() == cursor,
        event_views(history) == history_of(old_journal, cursor),
        cursor <= old_journal.len(),
        forall|i: int| 0 <= i < cursor ==> journal[i] == old_journal[i],
    ensures
        event_views(history) == history_of(journal, cursor),
{
    let a = event_views(history);
    let b = history_of(journal, cursor);
    assert forall|i: int| 0 <= i < cursor implies a[i] == b[i] by {
        assert(history_of(old_journal, cursor)[i] == event_of(old_journal[i]));
    }
    assert(a =~= b);
}

/// Whether the entry is a sleep whose deadline lies after `now`.
pub open spec fn sleeps_past(e: EntryView, now: u64) -> bool {
    e matches EntryView::SleepUntil { timestamp } && now < timestamp
}

/// Advancing: feed recorded results to the handler while the entry under the
/// cursor is of the kind that the handler's next operation records, and stop
/// at the first point where something else is due. Gives the runner after,
/// and what is due.
///
/// - Not executing: nothing changes, `NotRunning`.
/// - Journal exhausted: `Done` (the runner becomes terminal) where the handler
///   returns, else `Perform` with its next operation.
/// - An entry of another kind than the handler's operation records, or any
///   entry where the handler returns: `NonDeterminismError` at that position,
///   and the runner becomes terminal.
/// - A recorded sleep whose deadline lies after `now`: the runner suspends on
///   it, the cursor stays.
pub open spec fn advance_spec<H: Handler>(h: &H, v: RunnerView, now: u64) -> (RunnerView, NextView)
    decreases v.journal.len() - v.cursor,
{
    if !(v.phase is Replaying || v.phase is Live) {
        (v, NextView::NotRunning)
    } else {
        let action = h.decide(v.history());
        if v.cursor >= v.journal.len() {
            match action {
                ActionView::Return { outcome } => (
                    v.with_phase(Phase::Terminal),
                    NextView::Done(outcome),
                ),
                _ => (v, NextView::Perform(action)),
            }
        } else {
            let entry = v.journal[v.cursor as int];
            if action.expected_kind() != Some(entry.kind()) {
                (
                    v.with_phase(Phase::Terminal),
                    NextView::Failed(
                        EngineError::NonDeterminismError {
                            position: v.cursor as usize,
                            found: entry.kind(),
                        },
                    ),
                )
            } else if sleeps_past(entry, now) {
                let wait = Wait::Timer { fire_at: entry->SleepUntil_timestamp };
                (v.suspended_on(wait), NextView::Suspended(wait))
            } else {
                advance_spec(h, v.consumed(), now)
            }
        }
    }
}

/// Whether the runner takes an entry of the given kind now: `NotRunning`
/// unless it is live, `UnexpectedEntry` unless the handler's pending
/// operation records its completion with an entry of that kind.
pub open spec fn accepts_spec<H: Handler>(h: &H, v: RunnerView, kind: EntryKind) -> Result<
    (),
    EngineError,
> {
    if !(v.phase is Live) {
        Err(EngineError::NotRunning)
    } else if h.decide(v.history()).expected_kind() != Some(kind) {
        Err(EngineError::UnexpectedEntry)
    } else {
        Ok(())
    }
}

/// Recording the completion of the handler's pending operation. Gives the
/// runner after, and the sequence number of the entry or why it was refused.
///
/// - Not live: `NotRunning`.
/// - The entry is not of the kind that the pending operation records (or the
///   handler returns): `UnexpectedEntry`.
/// - Else the entry is appended under the sequence number that equals the
///   journal's length before. A sleep whose deadline lies after `now` suspends
///   the runner under the new entry; any other entry is consumed at once.
pub open spec fn complete_spec<H: Handler>(h: &H, v: RunnerView, entry: EntryView, now: u64) -> (
    RunnerView,
    Result<usize, EngineError>,
) {
    if accepts_spec(h, v, entry.kind()) is Err {
        (v, Err(accepts_spec(h, v, entry.kind())->Err_0))
    } else {
        let appended = RunnerView { journal: v.journal.push(entry), ..v };
        if sleeps_past(entry, now) {
            (
                appended.suspended_on(Wait::Timer { fire_at: entry->SleepUntil_timestamp }),
                Ok(v.journal.len() as usize),
            )
        } else {
            (RunnerView { cursor: v.cursor + 1, ..appended }, Ok(v.journal.len() as usize))
        }
    }
}

/// Suspending on the promise that the handler waits for. Gives the runner
/// after, and what it waits for or why it was refused: `NotRunning` unless
/// live, `UnexpectedEntry` unless the handler's pending operation awaits a
/// promise.
pub open spec fn suspend_spec<H: Handler>(h: &H, v: RunnerView) -> (
    RunnerView,
    Result<Wait, EngineError>,
) {
    if !(v.phase is Live) {
        (v, Err(EngineError::NotRunning))
    } else {
        match h.decide(v.history()) {
            ActionView::AwaitAwakeable { id } => (
                v.suspended_on(Wait::Awakeable { id }),
                Ok(Wait::Awakeable { id }),
            ),
            _ => (v, Err(EngineError::UnexpectedEntry)),
        }
    }
}

/// Delivering the event that a suspended attempt may wait for. The attempt
/// resumes if and only if it is suspended on exactly this: it replays again
/// where entries are left under the cursor, and is live where not.
pub open spec fn wake_spec(v: RunnerView, wait: Wait) -> (RunnerView, bool) {
    if v.wait == Some(wait) {
        (
            RunnerView {
                phase: if v.cursor < v.journal.len() {
                    Phase::Replaying
                } else {
                    Phase::Live
                },
                wait: None,
                ..v
            },
            true,
        )
    } else {
        (v, false)
    }
}

/// Retrying after a failure that the handler did not catch: an executing or
/// suspended attempt starts over from `Fresh` with its journal, as long as
/// the budget allows, and becomes terminal when it is spent.
pub open spec fn retry_spec(v: RunnerView) -> (RunnerView, Retry) {
    if v.phase is Fresh || v.phase is Terminal {
        (v, Retry::NotRunning)
    } else if v.attempts < v.max_attempts {
        (
            RunnerView {
                cursor: 0,
                phase: Phase::Fresh,
                wait: None,
                attempts: v.attempts + 1,
                ..v
            },
            Retry::Restarted,
        )
    } else {
        (RunnerView { phase: Phase::Terminal, wait: None, ..v }, Retry::Exhausted)
    }
}

/// Retrying a side effect or call that failed for the moment, at the
/// boundary of the operation: a live attempt stays where it is and the
/// operation is performed again, as long as the budget allows; the attempt
/// becomes terminal when the budget is spent. Nothing is recorded either way.
pub open spec fn repeat_spec(v: RunnerView) -> (RunnerView, Retry) {
    if !(v.phase is Live) {
        (v, Retry::NotRunning)
    } else if v.attempts < v.max_attempts {
        (RunnerView { attempts: v.attempts + 1, ..v }, Retry::Repeat)
    } else {
        (RunnerView { phase: Phase::Terminal, ..v }, Retry::Exhausted)
    }
}

/// The budget bounds the retries of every kind together: each retry that is
/// granted uses up one, none is granted when `max_attempts` are used up, and
/// the attempt is terminal from then on.
pub proof fn law_budget_is_bounded(v: RunnerView)
    requires
        v.wf(),
    ensures
        retry_spec(v).0.wf(),
        repeat_spec(v).0.wf(),
        retry_spec(v).1 is Restarted ==> retry_spec(v).0.attempts == v.attempts + 1 && v.attempts
            < v.max_attempts,
        repeat_spec(v).1 is Repeat ==> repeat_spec(v).0.attempts == v.attempts + 1 && v.attempts
            < v.max_attempts,
        retry_spec(v).1 is Exhausted ==> retry_spec(v).0.phase is Terminal && v.attempts
            == v.max_attempts,
        repeat_spec(v).1 is Exhausted ==> repeat_spec(v).0.phase is Terminal && v.attempts
            == v.max_attempts,
        retry_spec(v).0.journal == v.journal,
        repeat_spec(v).0.journal == v.journal,
{
}

/// Whether every entry of the journal is of the kind that the handler's
/// operation at that position records.
pub open spec fn recorded_by<H: Handler>(h: &H, journal: Seq<EntryView>) -> bool {
    forall|p: int|
        0 <= p < journal.len() ==> (#[trigger] h.decide(history_of(journal, p as nat))).expected_kind()
            == Some(journal[p].kind())
}

/// Advancing never changes the journal and never moves the cursor back. It
/// asks for an operation to be performed only when every recorded entry has
/// been replayed, and the operation is then the one that the handler issues
/// after the whole recorded history. So an operation whose completion is on
/// record is not performed again, however often the invocation is replayed:
/// its recorded result is handed to the handler instead.
pub proof fn law_replay_performs_nothing_recorded<H: Handler>(h: &H, v: RunnerView, now: u64)
    requires
        v.wf(),
    ensures
        advance_spec(h, v, now).0.wf(),
        advance_spec(h, v, now).0.journal == v.journal,
        advance_spec(h, v, now).0.cursor >= v.cursor,
        advance_spec(h, v, now).1 matches NextView::Perform(a) ==> {
            &&& advance_spec(h, v, now).0.cursor == v.journal.len()
            &&& advance_spec(h, v, now).0.phase is Live
            &&& a == h.decide(history_of(v.journal, v.journal.len()))
            &&& a.expected_kind() is Some
        },
        advance_spec(h, v, now).1 matches NextView::Done(o) ==> {
            &&& advance_spec(h, v, now).0.cursor == v.journal.len()
            &&& h.decide(history_of(v.journal, v.journal.len())) == (ActionView::Return {
                outcome: o,
            })
        },
    decreases v.journal.len() - v.cursor,
{
    if (v.phase is Replaying || v.phase is Live) && v.cursor < v.journal.len() {
        let action = h.decide(v.history());
        let entry = v.journal[v.cursor as int];
        if action.expected_kind() == Some(entry.kind()) && !sleeps_past(entry, now) {
            law_replay_performs_nothing_recorded(h, v.consumed(), now);
        }
    }
}

/// A journal that this handler recorded replays without a mismatch.
pub proof fn law_own_journal_replays<H: Handler>(h: &H, v: RunnerView, now: u64)
    requires
        v.wf(),
        recorded_by(h, v.journal),
    ensures
        !(advance_spec(h, v, now).1 is Failed),
    decreases v.journal.len() - v.cursor,
{
    if (v.phase is Replaying || v.phase is Live) && v.cursor < v.journal.len() {
        let entry = v.journal[v.cursor as int];
        let p = v.cursor as int;
        assert(h.decide(history_of(v.journal, p as nat)).expected_kind() == Some(
            v.journal[p].kind(),
        ));
        assert(history_of(v.journal, p as nat) == v.history());
        if !sleeps_past(entry, now) {
            assert(v.consumed().wf());
            law_own_journal_replays(h, v.consumed(), now);
        }
    }
}

/// Recording a completion keeps the journal one that this handler recorded.
pub proof fn law_complete_keeps_record<H: Handler>(h: &H, v: RunnerView, entry: EntryView, now: u64)
    requires
        v.wf(),
        recorded_by(h, v.journal),
    ensures
        recorded_by(h, complete_spec(h, v, entry, now).0.journal),
        complete_spec(h, v, entry, now).0.wf(),
        complete_spec(h, v, entry, now).1 is Ok ==> complete_spec(h, v, entry, now).0.journal
            == v.journal.push(entry),
        complete_spec(h, v, entry, now).1 is Err ==> complete_spec(h, v, entry, now).0 == v,
{
    let after = complete_spec(h, v, entry, now).0;
    if complete_spec(h, v, entry, now).1 is Ok {
        let j = v.journal.push(entry);
        assert forall|p: int| 0 <= p < j.len() implies (#[trigger] h.decide(
            history_of(j, p as nat),
        )).expected_kind() == Some(j[p].kind()) by {
            assert(history_of(j, p as nat) =~= history_of(v.journal, p as nat));
        }
    }
}

/// Replay stops with `NonDeterminismError` at the cursor as soon as the entry
/// there is of another kind than the handler's operation records; the attempt
/// is terminal then, and nothing was performed.
pub proof fn law_mismatch_is_detected<H: Handler>(h: &H, v: RunnerView, now: u64)
    requires
        v.wf(),
        v.phase is Replaying,
        h.decide(v.history()).expected_kind() != Some(v.journal[v.cursor as int].kind()),
    ensures
        advance_spec(h, v, now) == (
            v.with_phase(Phase::Terminal),
            NextView::Failed(
                EngineError::NonDeterminismError {
                    position: v.cursor as usize,
                    found: v.journal[v.cursor as int].kind(),
                },
            ),
        ),
{
}

/// A journal replayed against changed code: where the handler agrees with the
/// record up to position `p` and issues an operation of another kind there,
/// replay ends in `NonDeterminismError` at `p`, provided no recorded sleep
/// before `p` is still pending at `now` (replay would wait there first).
pub proof fn law_changed_handler_is_rejected<H: Handler>(h: &H, v: RunnerView, p: nat, now: u64)
    requires
        v.wf(),
        v.phase is Replaying,
        v.cursor <= p < v.journal.len(),
        forall|q: int|
            v.cursor <= q < p ==> (#[trigger] h.decide(history_of(v.journal, q as nat))).expected_kind()
                == Some(v.journal[q].kind()),
        forall|q: int| v.cursor <= q < p ==> !sleeps_past(#[trigger] v.journal[q], now),
        h.decide(history_of(v.journal, p)).expected_kind() != Some(v.journal[p as int].kind()),
    ensures
        advance_spec(h, v, now).1 == NextView::Failed(
            EngineError::NonDeterminismError {
                position: p as usize,
                found: v.journal[p as int].kind(),
            },
        ),
        advance_spec(h, v, now).0.phase is Terminal,
        advance_spec(h, v, now).0.journal == v.journal,
    decreases p - v.cursor,
{
    if v.cursor < p {
        let q = v.cursor as int;
        assert(h.decide(history_of(v.journal, q as nat)).expected_kind() == Some(
            v.journal[q].kind(),
        ));
        assert(!sleeps_past(v.journal[q], now));
        law_changed_handler_is_rejected(h, v.consumed(), p, now);
    }
}

/// An event that is delivered twice resumes the attempt at most once: after
/// any delivery the attempt no longer waits, so the same delivery again
/// changes nothing and reports that it resumed nothing.
pub proof fn law_wake_resumes_once(v: RunnerView, wait: Wait)
    requires
        v.wf(),
    ensures
        wake_spec(v, wait).0.wf(),
        wake_spec(v, wait).1 <==> v.wait == Some(wait),
        wake_spec(v, wait).1 ==> !(wake_spec(v, wait).0.phase is Suspended),
        wake_spec(wake_spec(v, wait).0, wait) == (wake_spec(v, wait).0, false),
{
}

/// One attempt at executing a handler: the journal, the cursor into it, and
/// the phase of the attempt.
pub struct Runner {
    entries: Vec<JournalEntry>,
    history: Vec<Event>,
    cursor: usize,
    phase: Phase,
    wait: Option<Wait>,
    attempts: u32,
    max_attempts: u32,
}

impl View for Runner {
    type V = RunnerView;

    closed spec fn view(&self) -> RunnerView {
        RunnerView {
            journal: entry_views(self.entries@),
            cursor: self.cursor as nat,
            phase: self.phase,
            wait: self.wait,
            attempts: self.attempts as nat,
            max_attempts: self.max_attempts as nat,
        }
    }
}

impl Runner {
    /// The invariant of the representation. It implies `self@.wf()`.
    pub closed spec fn inv(&self) -> bool {
        &&& self@.wf()
        &&& self.history@.len() == self.cursor
        &&& event_views(self.history@) == self@.history()
    }

    /// Every valid runner has a well-formed view.
    pub proof fn lemma_inv_wf(&self)
        requires
            self.inv(),
        ensures
            self@.wf(),
    {
    }

    /// Loads an invocation's journal for an attempt. `max_attempts` bounds the
    /// number of retries.
    pub fn new(entries: Vec<JournalEntry>, max_attempts: u32) -> (r: Runner)
        ensures
            r.inv(),
            r@ == (RunnerView {
                journal: entry_views(entries@),
                cursor: 0,
                phase: Phase::Fresh,
                wait: None,
                attempts: 0,
                max_attempts: max_attempts as nat,
            }),
    {
        let r = Runner {
            entries,
            history: Vec::new(),
            cursor: 0,
            phase: Phase::Fresh,
            wait: None,
            attempts: 0,
            max_attempts,
        };
        assert(event_views(r.history@) =~= r@.history());
        r
    }

    /// The phase of the attempt.
    pub fn phase(&self) -> (p: Phase)
        ensures
            p == self@.phase,
    {
        self.phase
    }

    /// The position of the next entry to replay.
    pub fn cursor(&self) -> (c: usize)
        ensures
            c == self@.cursor,
    {
        self.cursor
    }

    /// The number of entries in the journal.
    pub fn journal_len(&self) -> (n: usize)
        ensures
            n == self@.journal.len(),
    {
        self.entries.len()
    }

    /// What the attempt waits for, if it is suspended.
    pub fn wait(&self) -> (w: Option<Wait>)
        ensures
            w == self@.wait,
    {
        self.wait
    }

    /// The number of retries made.
    pub fn attempts(&self) -> (n: u32)
        ensures
            n == self@.attempts,
    {
        self.attempts
    }

    /// The journal.
    pub fn journal(&self) -> (j: &Vec<JournalEntry>)
        ensures
            entry_views(j@) == self@.journal,
    {
        &self.entries
    }

    /// Starts a fresh attempt: it replays if the journal holds entries, and is
    /// live at once if not. An attempt in another phase is left as it is.
    /// Returns the phase after.
    pub fn begin(&mut self) -> (p: Phase)
        requires
            old(self).inv(),
        ensures
            final(self).inv(),
            p == final(self)@.phase,
            old(self)@.phase is Fresh ==> final(self)@ == old(self)@.with_phase(
                if old(self)@.journal.len() == 0 {
                    Phase::Live
                } else {
                    Phase::Replaying
                },
            ),
            !(old(self)@.phase is Fresh) ==> final(self)@ == old(self)@,
    {
        if self.phase == Phase::Fresh {
            if self.entries.len() == 0 {
                self.phase = Phase::Live;
            } else {
                self.phase = Phase::Replaying;
            }
        }
        self.phase
    }

    /// Advances the attempt as far as the journal carries it: see
    /// [`advance_spec`].
    pub fn advance<H: Handler>(&mut self, h: &H, now: u64) -> (next: Next)
        requires
            old(self).inv(),
        ensures
            final(self).inv(),
            final(self)@ == advance_spec(h, old(self)@, now).0,
            next@ == advance_spec(h, old(self)@, now).1,
    {
        let ghost start = self@;
        loop
            invariant
                self.inv(),
                start == old(self)@,
                advance_spec(h, self@, now) == advance_spec(h, start, now),
            decreases self.entries.len() - self.cursor,
        {
            if !(self.phase == Phase::Replaying || self.phase == Phase::Live) {
                return Next::NotRunning;
            }
            let action = h.next(&self.history);
            if self.cursor >= self.entries.len() {
                match action {
                    Action::Return { outcome } => {
                        self.phase = Phase::Terminal;
                        return Next::Done(outcome);
                    },
                    _ => {
                        return Next::Perform(action);
                    },
                }
            }
            let kind = self.entries[self.cursor].kind();
            let expected = action.expected_kind();
            let same = match expected {
                Some(k) => k == kind,
                None => false,
            };
            if !same {
                let position = self.cursor;
                self.phase = Phase::Terminal;
                return Next::Failed(EngineError::NonDeterminismError { position, found: kind });
            }
            let deadline: Option<u64> = match &self.entries[self.cursor] {
                JournalEntry::SleepUntil { timestamp } => Some(*timestamp),
                _ => None,
            };
            match deadline {
                Some(fire_at) => {
                    if now < fire_at {
                        let wait = Wait::Timer { fire_at };
                        self.phase = Phase::Suspended;
                        self.wait = Some(wait);
                        return Next::Suspended(wait);
                    }
                },
                None => {},
            }
            let ev = event_for(&self.entries[self.cursor]);
            let ghost before = self@;
            let ghost old_history = self.history@;
            self.history.push(ev);
            self.cursor = self.cursor + 1;
            if self.cursor == self.entries.len() {
                self.phase = Phase::Live;
            } else {
                self.phase = Phase::Replaying;
            }
            proof {
                assert(self@ == before.consumed());
                lemma_history_extends(
                    old_history,
                    ev,
                    before.journal,
                    before.journal,
                    before.cursor,
                );
            }
        }
    }

    /// Whether the runner takes an entry of the given kind now: see
    /// [`accepts_spec`].
    pub fn accepts<H: Handler>(&self, h: &H, kind: EntryKind) -> (r: Result<(), EngineError>)
        requires
            self.inv(),
        ensures
            r == accepts_spec(h, self@, kind),
    {
        if self.phase != Phase::Live {
            return Err(EngineError::NotRunning);
        }
        let action = h.next(&self.history);
        let same = match action.expected_kind() {
            Some(k) => k == kind,
            None => false,
        };
        if !same {
            return Err(EngineError::UnexpectedEntry);
        }
        Ok(())
    }

    /// The operation that the handler issues next, as far as the journal has
    /// been replayed.
    pub fn pending<H: Handler>(&self, h: &H) -> (a: Action)
        requires
            self.inv(),
        ensures
            a@ == h.decide(self@.history()),
    {
        h.next(&self.history)
    }

    /// Records the completion of the handler's pending operation: see
    /// [`complete_spec`].
    pub fn complete<H: Handler>(&mut self, h: &H, entry: JournalEntry, now: u64) -> (r: Result<
        usize,
        EngineError,
    >)
        requires
            old(self).inv(),
        ensures
            final(self).inv(),
            final(self)@ == complete_spec(h, old(self)@, entry@, now).0,
            r == complete_spec(h, old(self)@, entry@, now).1,
    {
        if self.phase != Phase::Live {
            return Err(EngineError::NotRunning);
        }
        let action = h.next(&self.history);
        let kind = entry.kind();
        let same = match action.expected_kind() {
            Some(k) => k == kind,
            None => false,
        };
        if !same {
            return Err(EngineError::UnexpectedEntry);
        }
        let sequence_no = self.entries.len();
        let deadline: Option<u64> = match &entry {
            JournalEntry::SleepUntil { timestamp } => Some(*timestamp),
            _ => None,
        };
        let ev = event_for(&entry);
        let ghost before = self@;
        let ghost old_history = self.history@;
        self.entries.push(entry);
        proof {
            assert(entry_views(self.entries@) =~= before.journal.push(entry@));
        }
        let suspends = match deadline {
            Some(fire_at) => now < fire_at,
            None => false,
        };
        if suspends {
            self.phase = Phase::Suspended;
            self.wait = Some(Wait::Timer { fire_at: deadline.unwrap() });
            proof {
                lemma_history_kept(old_history, before.journal, self@.journal, before.cursor);
            }
        } else {
            self.history.push(ev);
            self.cursor = self.entries.len();
            proof {
                lemma_history_extends(
                    old_history,
                    ev,
                    before.journal,
                    self@.journal,
                    before.cursor,
                );
            }
        }
        Ok(sequence_no)
    }

    /// Suspends a live attempt on the promise that the handler waits for: see
    /// [`suspend_spec`].
    pub fn suspend<H: Handler>(&mut self, h: &H) -> (r: Result<Wait, EngineError>)
        requires
            old(self).inv(),
        ensures
            final(self).inv(),
            final(self)@ == suspend_spec(h, old(self)@).0,
            r == suspend_spec(h, old(self)@).1,
    {
        if self.phase != Phase::Live {
            return Err(EngineError::NotRunning);
        }
        match h.next(&self.history) {
            Action::AwaitAwakeable { id } => {
                let wait = Wait::Awakeable { id };
                self.phase = Phase::Suspended;
                self.wait = Some(wait);
                Ok(wait)
            },
            _ => Err(EngineError::UnexpectedEntry),
        }
    }

    /// Delivers a timer firing or a promise resolution: see [`wake_spec`].
    /// Returns whether the attempt resumed.
    pub fn wake(&mut self, wait: Wait) -> (resumed: bool)
        requires
            old(self).inv(),
        ensures
            final(self).inv(),
            final(self)@ == wake_spec(old(self)@, wait).0,
            resumed == wake_spec(old(self)@, wait).1,
    {
        let waits_for_it = match self.wait {
            Some(w) => w == wait,
            None => false,
        };
        if waits_for_it {
            if self.cursor < self.entries.len() {
                self.phase = Phase::Replaying;
            } else {
                self.phase = Phase::Live;
            }
            self.wait = None;
            true
        } else {
            false
        }
    }

    /// Starts the attempt over after a failure, within the budget: see
    /// [`retry_spec`].
    pub fn retry(&mut self) -> (r: Retry)
        requires
            old(self).inv(),
        ensures
            final(self).inv(),
            final(self)@ == retry_spec(old(self)@).0,
            r == retry_spec(old(self)@).1,
    {
        if self.phase == Phase::Fresh || self.phase == Phase::Terminal {
            return Retry::NotRunning;
        }
        if self.attempts < self.max_attempts {
            self.history = Vec::new();
            self.cursor = 0;
            self.phase = Phase::Fresh;
            self.wait = None;
            self.attempts = self.attempts + 1;
            proof {
                assert(event_views(self.history@) =~= self@.history());
            }
            Retry::Restarted
        } else {
            self.phase = Phase::Terminal;
            self.wait = None;
            Retry::Exhausted
        }
    }

    /// Grants or refuses one more try of the pending side effect or call:
    /// see [`repeat_spec`].
    pub fn retry_effect(&mut self) -> (r: Retry)
        requires
            old(self).inv(),
        ensures
            final(self).inv(),
            final(self)@ == repeat_spec(old(self)@).0,
            r == repeat_spec(old(self)@).1,
    {
        if self.phase != Phase::Live {
            return Retry::NotRunning;
        }
        if self.attempts < self.max_attempts {
            self.attempts = self.attempts + 1;
            Retry::Repeat
        } else {
            self.phase = Phase::Terminal;
            Retry::Exhausted
        }
    }

    /// Ends the attempt for good, whatever its phase. The journal stays.
    pub fn abort(&mut self)
        requires
            old(self).inv(),
        ensures
            final(self).inv(),
            final(self)@ == (RunnerView { phase: Phase::Terminal, wait: None, ..old(self)@ }),
    {
        self.phase = Phase::Terminal;
        self.wait = None;
    }
}

} // verus!
