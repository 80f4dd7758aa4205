//! The journal store: the append-only log of every invocation, with the
//! invocation's status and, once it is terminal, its result. Every change
//! is written to the medium as a record before it is answered, and the
//! store is read back from the medium after a crash.

use vstd::prelude::*;
use crate::codec::entry_fits;
use crate::entry::{clone_entries, entry_views, EntryView, JournalEntry};
use crate::error::EngineError;
use crate::promises::optional_outcome;
use crate::record::{ended_status, HandlerId, HandlerIdView, Record, RecordView, Status};
use crate::runner::Wait;
use crate::value::{Outcome, OutcomeView, Value, ValueView};
use crate::wal::{
    law_log_round_trip, log_appended, log_created, log_ended, log_suspended, law_torn_write_loses_only_itself, parse_records, record_fits, records_fit, ser_record,
    ser_records, take_record, whole_records,
};

verus! {

/// An invocation as the store keeps it.
#[derive(Debug, PartialEq, Eq)]
pub struct Invocation {
    pub handler: HandlerId,
    /// The key of the object or workflow; empty for a service.
    pub key: String,
    pub input: Value,
    pub status: Status,
    /// What the invocation waits for; set when it is suspended, and only
    /// then.
    pub waiting: Option<Wait>,
    pub journal: Vec<JournalEntry>,
    /// The result; set when the status is final, and only then.
    pub result: Option<Outcome>,
}

/// What an [`Invocation`] holds.
pub struct InvocationView {
    pub handler: HandlerIdView,
    pub key: Seq<char>,
    pub input: ValueView,
    pub status: Status,
    pub waiting: Option<Wait>,
    pub journal: Seq<EntryView>,
    pub result: Option<OutcomeView>,
}

impl InvocationView {
    /// What holds of every invocation: it has a result when it is terminal,
    /// and only then; and it has a wait marker when it is suspended, and
    /// only then.
    pub open spec fn wf(self) -> bool {
        &&& self.status.spec_is_terminal() <==> self.result is Some
        &&& self.status is Suspended <==> self.waiting is Some
    }
}

impl View for Invocation {
    type V = InvocationView;

    open spec fn view(&self) -> InvocationView {
        InvocationView {
            handler: self.handler@,
            key: self.key@,
            input: self.input@,
            status: self.status,
            waiting: self.waiting,
            journal: entry_views(self.journal@),
            result: optional_outcome(self.result),
        }
    }
}

/// What a record makes of the invocations; `None` for a record that cannot
/// follow: one that names no invocation, or a terminal one.
pub open spec fn apply(invs: Seq<InvocationView>, r: RecordView) -> Option<Seq<InvocationView>> {
    match r {
        RecordView::Created { handler, key, input } => Some(
            invs.push(
                InvocationView {
                    handler,
                    key,
                    input,
                    status: Status::Running,
                    waiting: None,
                    journal: Seq::empty(),
                    result: None,
                },
            ),
        ),
        RecordView::Appended { id, entry } => if id < invs.len()
            && !invs[id as int].status.spec_is_terminal() {
            Some(
                invs.update(
                    id as int,
                    InvocationView { journal: invs[id as int].journal.push(entry), ..invs[id as int] },
                ),
            )
        } else {
            None
        },
        RecordView::Ended { id, failed, result } => if id < invs.len()
            && !invs[id as int].status.spec_is_terminal() {
            Some(
                invs.update(
                    id as int,
                    InvocationView {
                        status: ended_status(failed),
                        waiting: None,
                        result: Some(result),
                        ..invs[id as int]
                    },
                ),
            )
        } else {
            None
        },
        RecordView::Suspended { id, waiting } => if id < invs.len()
            && !invs[id as int].status.spec_is_terminal() {
            Some(
                invs.update(
                    id as int,
                    InvocationView {
                        status: if waiting is Some {
                            Status::Suspended
                        } else {
                            Status::Running
                        },
                        waiting: waiting,
                        ..invs[id as int]
                    },
                ),
            )
        } else {
            None
        },
    }
}

/// What a log makes of an empty store: its records applied in order; `None`
/// where one of them cannot follow.
pub open spec fn replay(rs: Seq<RecordView>) -> Option<Seq<InvocationView>>
    decreases rs.len(),
{
    if rs.len() == 0 {
        Some(Seq::empty())
    } else {
        match replay(rs.drop_last()) {
            None => None,
            Some(invs) => apply(invs, rs.last()),
        }
    }
}

/// The invocations that the bytes of a medium hold: what its records make of
/// an empty store.
pub open spec fn recovered(log: Seq<u8>) -> Option<Seq<InvocationView>> {
    match parse_records(log) {
        None => None,
        Some(rs) => replay(rs),
    }
}

/// The records of a log that a store on a medium for `capacity` records
/// takes up: those before the first that cannot follow, and no more than
/// the medium holds.
pub open spec fn usable(rs: Seq<RecordView>, capacity: nat) -> Seq<RecordView>
    decreases rs.len(),
{
    if rs.len() == 0 {
        rs
    } else {
        let before = usable(rs.drop_last(), capacity);
        if before.len() + 1 == rs.len() && rs.len() <= capacity && replay(rs) is Some {
            rs
        } else {
            before
        }
    }
}

/// The store as contracts see it.
pub struct JournalStoreView {
    /// The invocations by identifier.
    pub invocations: Seq<InvocationView>,
    /// The records on the medium, in the order in which they were written.
    pub records: Seq<RecordView>,
    /// Whether the medium can be reached.
    pub online: bool,
    /// The number of records that the medium holds at most.
    pub capacity: nat,
}

impl JournalStoreView {
    /// Whether the medium can take one more record.
    pub open spec fn writable(self) -> bool {
        self.online && self.records.len() < self.capacity
    }

    /// The bytes on the medium.
    pub open spec fn log(self) -> Seq<u8> {
        ser_records(self.records)
    }

    /// What holds of every store: the invocations are what the records on
    /// the medium make of an empty store, and the medium holds no more than
    /// it can.
    pub open spec fn wf(self) -> bool {
        &&& self.records.len() <= self.capacity <= usize::MAX
        &&& replay(self.records) == Some(self.invocations)
        &&& records_fit(self.records)
        &&& forall|i: int| 0 <= i < self.invocations.len() ==> (#[trigger] self.invocations[i]).wf()
        &&& forall|i: int|
            0 <= i < self.invocations.len() ==> (#[trigger] self.invocations[i]).journal.len()
                <= self.records.len()
    }

    /// The store after a record that can follow is written and applied.
    pub open spec fn logged(self, r: RecordView) -> JournalStoreView {
        JournalStoreView {
            invocations: apply(self.invocations, r)->0,
            records: self.records.push(r),
            ..self
        }
    }

    /// Creating an invocation. It takes the next identifier and starts
    /// `Running` with an empty journal. `StorageUnavailable` where the medium
    /// cannot be written.
    pub open spec fn create(self, handler: HandlerIdView, key: Seq<char>, input: ValueView) -> (
        JournalStoreView,
        Result<u64, EngineError>,
    ) {
        if !self.writable() {
            (self, Err(EngineError::StorageUnavailable))
        } else {
            (
                self.logged(RecordView::Created { handler, key, input }),
                Ok(self.invocations.len() as u64),
            )
        }
    }

    /// Appending an entry to the journal of an invocation. The entry gets the
    /// sequence number that equals the journal's length before.
    ///
    /// - No invocation under `id`: `UnknownInvocation`.
    /// - The invocation is terminal: `AlreadyCompleted`.
    /// - The medium cannot be written: `StorageUnavailable`.
    ///
    /// Nothing changes where the append is refused.
    pub open spec fn append(self, id: u64, entry: EntryView) -> (
        JournalStoreView,
        Result<usize, EngineError>,
    ) {
        if id >= self.invocations.len() {
            (self, Err(EngineError::UnknownInvocation))
        } else if self.invocations[id as int].status.spec_is_terminal() {
            (self, Err(EngineError::AlreadyCompleted))
        } else if !self.writable() {
            (self, Err(EngineError::StorageUnavailable))
        } else {
            (
                self.logged(RecordView::Appended { id, entry }),
                Ok(self.invocations[id as int].journal.len() as usize),
            )
        }
    }

    /// Making an invocation terminal, with its result.
    ///
    /// - No invocation under `id`: `UnknownInvocation`.
    /// - The status offered is not final: `NotTerminal`.
    /// - The invocation is terminal already: `AlreadyCompleted`; its first
    ///   result stands.
    /// - The medium cannot be written: `StorageUnavailable`.
    pub open spec fn mark_terminal(self, id: u64, status: Status, result: OutcomeView) -> (
        JournalStoreView,
        Result<(), EngineError>,
    ) {
        if id >= self.invocations.len() {
            (self, Err(EngineError::UnknownInvocation))
        } else if !status.spec_is_terminal() {
            (self, Err(EngineError::NotTerminal))
        } else if self.invocations[id as int].status.spec_is_terminal() {
            (self, Err(EngineError::AlreadyCompleted))
        } else if !self.writable() {
            (self, Err(EngineError::StorageUnavailable))
        } else {
            (self.logged(RecordView::Ended { id, failed: status is Failed, result }), Ok(()))
        }
    }

    /// Noting that an invocation is suspended, with what it waits for, or
    /// that it runs again (`None`). A terminal invocation stays as it is:
    /// `AlreadyCompleted`.
    pub open spec fn set_suspended(self, id: u64, waiting: Option<Wait>) -> (
        JournalStoreView,
        Result<(), EngineError>,
    ) {
        if id >= self.invocations.len() {
            (self, Err(EngineError::UnknownInvocation))
        } else if self.invocations[id as int].status.spec_is_terminal() {
            (self, Err(EngineError::AlreadyCompleted))
        } else if !self.writable() {
            (self, Err(EngineError::StorageUnavailable))
        } else {
            (self.logged(RecordView::Suspended { id, waiting }), Ok(()))
        }
    }
}

/// The journal of an invocation with the sequence number of each entry.
pub open spec fn numbered(journal: Seq<EntryView>) -> Seq<(usize, EntryView)> {
    Seq::new(journal.len(), |i: int| (i as usize, journal[i]))
}

/// The contents of a numbered journal.
pub open spec fn numbered_views(entries: Seq<(usize, JournalEntry)>) -> Seq<(usize, EntryView)> {
    Seq::new(entries.len(), |i: int| (entries[i].0, entries[i].1@))
}

/// Writing a record that can follow keeps the store well formed.
pub proof fn law_logging_keeps_the_store(s: JournalStoreView, r: RecordView)
    requires
        s.wf(),
        s.records.len() < s.capacity,
        record_fits(r),
        apply(s.invocations, r) is Some,
    ensures
        s.logged(r).wf(),
        s.logged(r).log() == s.log() + ser_record(r),
{
    let after = s.logged(r);
    assert(after.records.drop_last() =~= s.records);
    assert(after.records.last() == r);
    assert forall|i: int| 0 <= i < after.records.len() implies record_fits(
        #[trigger] after.records[i],
    ) by {
        if i < s.records.len() {
            assert(after.records[i] == s.records[i]);
        }
    }
    assert forall|i: int| 0 <= i < after.invocations.len() implies (
    #[trigger] after.invocations[i]).wf() && after.invocations[i].journal.len()
        <= after.records.len() by {
        if i < s.invocations.len() {
            assert(s.invocations[i].wf());
            assert(s.invocations[i].journal.len() <= s.records.len());
        }
    }
}

/// Where a log replays, every log that it starts with replays.
proof fn lemma_replay_prefix(a: Seq<RecordView>, b: Seq<RecordView>)
    requires
        replay(a + b) is Some,
    ensures
        replay(a) is Some,
    decreases b.len(),
{
    if b.len() == 0 {
        assert(a + b =~= a);
    } else {
        assert((a + b).drop_last() =~= a + b.drop_last());
        lemma_replay_prefix(a, b.drop_last());
    }
}

/// A log that replays and that the medium holds is taken up whole.
proof fn lemma_usable_whole(rs: Seq<RecordView>, capacity: nat)
    requires
        replay(rs) is Some,
        rs.len() <= capacity,
    ensures
        usable(rs, capacity) == rs,
    decreases rs.len(),
{
    if rs.len() > 0 {
        lemma_usable_whole(rs.drop_last(), capacity);
    }
}

/// Nothing is taken up behind a record that cannot follow, or that the
/// medium has no room for.
proof fn lemma_usable_stops(a: Seq<RecordView>, b: Seq<RecordView>, capacity: nat)
    requires
        usable(a, capacity) == a,
        b.len() > 0,
        a.len() >= capacity || replay(a.push(b[0])) is None,
    ensures
        usable(a + b, capacity) == a,
    decreases b.len(),
{
    if b.len() == 1 {
        assert(a + b =~= a.push(b[0]));
        assert((a + b).drop_last() =~= a);
    } else {
        assert((a + b).drop_last() =~= a + b.drop_last());
        lemma_usable_stops(a, b.drop_last(), capacity);
    }
}

/// The journal store.
pub struct JournalStore {
    invocations: Vec<Invocation>,
    log: Vec<u8>,
    records: Ghost<Seq<RecordView>>,
    count: usize,
    online: bool,
    capacity: usize,
}

impl View for JournalStore {
    type V = JournalStoreView;

    closed spec fn view(&self) -> JournalStoreView {
        JournalStoreView {
            invocations: Seq::new(self.invocations@.len(), |i: int| self.invocations@[i]@),
            records: self.records@,
            online: self.online,
            capacity: self.capacity as nat,
        }
    }
}

impl JournalStore {
    /// The invariant of the representation. It implies `self@.wf()`.
    pub closed spec fn inv(&self) -> bool {
        &&& self@.wf()
        &&& self.log@ == ser_records(self.records@)
        &&& self.count == self.records@.len()
    }

    /// Every valid store has a well-formed view.
    pub proof fn lemma_inv_wf(&self)
        requires
            self.inv(),
        ensures
            self@.wf(),
    {
    }

    /// An empty store on a medium that holds at most `capacity` records and
    /// can be reached.
    pub fn new(capacity: usize) -> (s: Self)
        ensures
            s.inv(),
            s@ == (JournalStoreView {
                invocations: Seq::empty(),
                records: Seq::empty(),
                online: true,
                capacity: capacity as nat,
            }),
    {
        let s = JournalStore {
            invocations: Vec::new(),
            log: Vec::new(),
            records: Ghost(Seq::empty()),
            count: 0,
            online: true,
            capacity,
        };
        assert(s@.invocations =~= Seq::<InvocationView>::empty());
        s
    }

    /// Notes whether the medium can be reached.
    pub fn set_online(&mut self, online: bool)
        requires
            old(self).inv(),
        ensures
            final(self).inv(),
            final(self)@ == (JournalStoreView { online: online, ..old(self)@ }),
    {
        self.online = online;
    }

    /// Whether the medium can be reached.
    pub fn is_online(&self) -> (b: bool)
        ensures
            b == self@.online,
    {
        self.online
    }

    /// Whether the medium can take one more record.
    pub fn is_writable(&self) -> (b: bool)
        requires
            self.inv(),
        ensures
            b == self@.writable(),
    {
        self.online && self.count < self.capacity
    }

    /// The number of invocations created.
    pub fn len(&self) -> (n: usize)
        ensures
            n == self@.invocations.len(),
    {
        self.invocations.len()
    }

    /// The bytes on the medium: every record written so far, in order. A
    /// store that is recovered from these bytes holds the same invocations.
    pub fn log(&self) -> (bytes: &Vec<u8>)
        requires
            self.inv(),
        ensures
            bytes@ == self@.log(),
            parse_records(bytes@) == Some(self@.records),
            recovered(bytes@) == Some(self@.invocations),
    {
        proof {
            law_log_round_trip(self.records@);
        }
        &self.log
    }

    /// Creates an invocation: see [`JournalStoreView::create`].
    pub fn create(&mut self, handler: HandlerId, key: String, input: Value) -> (r: Result<
        u64,
        EngineError,
    >)
        requires
            old(self).inv(),
        ensures
            final(self).inv(),
            final(self)@ == old(self)@.create(handler@, key@, input@).0,
            r == old(self)@.create(handler@, key@, input@).1,
    {
        if !self.is_writable() {
            return Err(EngineError::StorageUnavailable);
        }
        let id = self.invocations.len() as u64;
        log_created(&mut self.log, &handler, &key, &input);
        let ghost record = RecordView::Created { handler: handler@, key: key@, input: input@ };
        let invocation = Invocation {
            handler,
            key,
            input,
            status: Status::Running,
            waiting: None,
            journal: Vec::new(),
            result: None,
        };
        assert(invocation@.journal =~= Seq::<EntryView>::empty());
        self.invocations.push(invocation);
        self.records = Ghost(self.records@.push(record));
        self.count = self.count + 1;
        proof {
            law_logging_keeps_the_store(old(self)@, record);
            assert(self@.invocations =~= old(self)@.logged(record).invocations);
        }
        Ok(id)
    }

    /// Appends an entry to the journal of an invocation: see
    /// [`JournalStoreView::append`]. When this returns `Ok`, the entry is on
    /// the medium.
    pub fn append(&mut self, id: u64, entry: JournalEntry) -> (r: Result<usize, EngineError>)
        requires
            old(self).inv(),
        ensures
            final(self).inv(),
            final(self)@ == old(self)@.append(id, entry@).0,
            r == old(self)@.append(id, entry@).1,
    {
        if id >= self.invocations.len() as u64 {
            return Err(EngineError::UnknownInvocation);
        }
        let i = id as usize;
        if self.invocations[i].status.is_terminal() {
            return Err(EngineError::AlreadyCompleted);
        }
        if !self.is_writable() {
            return Err(EngineError::StorageUnavailable);
        }
        let sequence_no = self.invocations[i].journal.len();
        let ghost before = self.invocations@[i as int]@;
        let ghost record = RecordView::Appended { id, entry: entry@ };
        log_appended(&mut self.log, id, &entry);
        self.invocations[i].journal.push(entry);
        self.records = Ghost(self.records@.push(record));
        self.count = self.count + 1;
        proof {
            law_logging_keeps_the_store(old(self)@, record);
            assert(self.invocations@[i as int]@.journal =~= before.journal.push(entry@));
            assert(self@.invocations =~= old(self)@.logged(record).invocations);
        }
        Ok(sequence_no)
    }

    /// The journal of an invocation, every entry with its sequence number,
    /// in order; `UnknownInvocation` where there is none under `id`.
    pub fn read_all(&self, id: u64) -> (r: Result<Vec<(usize, JournalEntry)>, EngineError>)
        ensures
            id >= self@.invocations.len() ==> (r matches Err(e) && e
                == EngineError::UnknownInvocation),
            id < self@.invocations.len() ==> (r matches Ok(entries) && numbered_views(entries@)
                == numbered(self@.invocations[id as int].journal)),
    {
        if id >= self.invocations.len() as u64 {
            return Err(EngineError::UnknownInvocation);
        }
        let journal = &self.invocations[id as usize].journal;
        let mut entries: Vec<(usize, JournalEntry)> = Vec::new();
        let mut i: usize = 0;
        while i < journal.len()
            invariant
                i <= journal.len(),
                entries@.len() == i,
                forall|j: int| 0 <= j < i ==> entries@[j].0 == j && entries@[j].1@ == journal@[j]@,
            decreases journal.len() - i,
        {
            entries.push((i, journal[i].clone()));
            i = i + 1;
        }
        assert(numbered_views(entries@) =~= numbered(self@.invocations[id as int].journal));
        Ok(entries)
    }

    /// A copy of the journal of an invocation, to run it.
    pub fn journal(&self, id: u64) -> (r: Result<Vec<JournalEntry>, EngineError>)
        ensures
            id >= self@.invocations.len() ==> (r matches Err(e) && e
                == EngineError::UnknownInvocation),
            id < self@.invocations.len() ==> (r matches Ok(entries) && entry_views(entries@)
                == self@.invocations[id as int].journal),
    {
        if id >= self.invocations.len() as u64 {
            return Err(EngineError::UnknownInvocation);
        }
        Ok(clone_entries(&self.invocations[id as usize].journal))
    }

    /// Makes an invocation terminal: see [`JournalStoreView::mark_terminal`].
    pub fn mark_terminal(&mut self, id: u64, status: Status, result: Outcome) -> (r: Result<
        (),
        EngineError,
    >)
        requires
            old(self).inv(),
        ensures
            final(self).inv(),
            final(self)@ == old(self)@.mark_terminal(id, status, result@).0,
            r == old(self)@.mark_terminal(id, status, result@).1,
    {
        if id >= self.invocations.len() as u64 {
            return Err(EngineError::UnknownInvocation);
        }
        let i = id as usize;
        if !status.is_terminal() {
            return Err(EngineError::NotTerminal);
        }
        if self.invocations[i].status.is_terminal() {
            return Err(EngineError::AlreadyCompleted);
        }
        if !self.is_writable() {
            return Err(EngineError::StorageUnavailable);
        }
        let failed = status == Status::Failed;
        let ghost record = RecordView::Ended { id, failed, result: result@ };
        log_ended(&mut self.log, id, failed, &result);
        self.invocations[i].status = status;
        self.invocations[i].waiting = None;
        self.invocations[i].result = Some(result);
        self.records = Ghost(self.records@.push(record));
        self.count = self.count + 1;
        proof {
            law_logging_keeps_the_store(old(self)@, record);
            assert(self@.invocations =~= old(self)@.logged(record).invocations);
        }
        Ok(())
    }

    /// Notes that an invocation is suspended, with what it waits for, or that
    /// it runs again: see [`JournalStoreView::set_suspended`].
    pub fn set_suspended(&mut self, id: u64, waiting: Option<Wait>) -> (r: Result<(), EngineError>)
        requires
            old(self).inv(),
        ensures
            final(self).inv(),
            final(self)@ == old(self)@.set_suspended(id, waiting).0,
            r == old(self)@.set_suspended(id, waiting).1,
    {
        if id >= self.invocations.len() as u64 {
            return Err(EngineError::UnknownInvocation);
        }
        let i = id as usize;
        if self.invocations[i].status.is_terminal() {
            return Err(EngineError::AlreadyCompleted);
        }
        if !self.is_writable() {
            return Err(EngineError::StorageUnavailable);
        }
        let ghost record = RecordView::Suspended { id, waiting };
        log_suspended(&mut self.log, id, waiting);
        self.invocations[i].status = if waiting.is_some() {
            Status::Suspended
        } else {
            Status::Running
        };
        self.invocations[i].waiting = waiting;
        self.records = Ghost(self.records@.push(record));
        self.count = self.count + 1;
        proof {
            law_logging_keeps_the_store(old(self)@, record);
            assert(self@.invocations =~= old(self)@.logged(record).invocations);
        }
        Ok(())
    }

    /// What a suspended invocation waits for; `None` for an invocation that
    /// is not suspended, and where there is none under `id`.
    pub fn waiting(&self, id: u64) -> (r: Option<Wait>)
        ensures
            r == if id < self@.invocations.len() {
                self@.invocations[id as int].waiting
            } else {
                None
            },
    {
        if id >= self.invocations.len() as u64 {
            return None;
        }
        self.invocations[id as usize].waiting
    }

    /// The status of an invocation.
    pub fn status(&self, id: u64) -> (r: Option<Status>)
        ensures
            r == if id < self@.invocations.len() {
                Some(self@.invocations[id as int].status)
            } else {
                None
            },
    {
        if id >= self.invocations.len() as u64 {
            return None;
        }
        Some(self.invocations[id as usize].status)
    }

    /// Attaches to an invocation: its result once it is terminal, `Ok(None)`
    /// while it is not, `UnknownInvocation` where there is none under `id`.
    /// The answer for a terminal invocation is the same at every call.
    pub fn attach(&self, id: u64) -> (r: Result<Option<Outcome>, EngineError>)
        ensures
            id >= self@.invocations.len() ==> (r matches Err(e) && e
                == EngineError::UnknownInvocation),
            id < self@.invocations.len() ==> (r matches Ok(o) && optional_outcome(o)
                == self@.invocations[id as int].result),
    {
        if id >= self.invocations.len() as u64 {
            return Err(EngineError::UnknownInvocation);
        }
        match &self.invocations[id as usize].result {
            Some(o) => Ok(Some(o.clone())),
            None => Ok(None),
        }
    }

    /// The handler, the key and the input of an invocation.
    pub fn call_of(&self, id: u64) -> (r: Option<(HandlerId, String, Value)>)
        ensures
            r is Some <==> id < self@.invocations.len(),
            r matches Some(call) ==> call.0@ == self@.invocations[id as int].handler && call.1@
                == self@.invocations[id as int].key && call.2@ == self@.invocations[id as int].input,
    {
        if id >= self.invocations.len() as u64 {
            return None;
        }
        let inv = &self.invocations[id as usize];
        Some((inv.handler.clone(), inv.key.clone(), inv.input.clone()))
    }

    /// Does to the store what a record says, and writes the record.
    /// Returns whether it did: the record can follow, and the medium had
    /// room for it.
    fn redo(&mut self, record: Record) -> (done: bool)
        requires
            old(self).inv(),
            old(self)@.online,
        ensures
            final(self).inv(),
            done <==> apply(old(self)@.invocations, record@) is Some && old(self)@.records.len()
                < old(self)@.capacity,
            done ==> final(self)@ == old(self)@.logged(record@),
            !done ==> final(self)@ == old(self)@,
    {
        match record {
            Record::Created { handler, key, input } => self.create(handler, key, input).is_ok(),
            Record::Appended { id, entry } => self.append(id, entry).is_ok(),
            Record::Ended { id, failed, result } => {
                let status = if failed {
                    Status::Failed
                } else {
                    Status::Completed
                };
                self.mark_terminal(id, status, result).is_ok()
            },
            Record::Suspended { id, waiting } => self.set_suspended(id, waiting).is_ok(),
        }
    }

    /// Reads a store back from the bytes of its medium, onto a medium that
    /// holds at most `capacity` records: after a crash, or in another
    /// process. The store holds the records that the bytes hold and the
    /// invocations that they make. `None` where the bytes are no log, where
    /// the log holds a record that cannot follow, and where the medium is
    /// too small for it.
    pub fn recover(bytes: &[u8], capacity: usize) -> (r: Option<JournalStore>)
        ensures
            r is Some <==> (parse_records(bytes@) matches Some(rs) && replay(rs) is Some && rs.len()
                <= capacity),
            r matches Some(s) ==> {
                &&& s.inv()
                &&& parse_records(bytes@) == Some(s@.records)
                &&& recovered(bytes@) == Some(s@.invocations)
                &&& s@.online
                &&& s@.capacity == capacity
            },
    {
        let mut store = JournalStore::new(capacity);
        let mut pos: usize = 0;
        proof {
            assert(bytes@.skip(0) =~= bytes@);
            match parse_records(bytes@) {
                None => {},
                Some(rs) => {
                    assert(Seq::<RecordView>::empty() + rs =~= rs);
                },
            }
        }
        while pos < bytes.len()
            invariant
                pos <= bytes@.len(),
                store.inv(),
                store@.online,
                store@.capacity == capacity,
                parse_records(bytes@) == match parse_records(bytes@.skip(pos as int)) {
                    None => None::<Seq<RecordView>>,
                    Some(rest) => Some(store@.records + rest),
                },
            decreases bytes@.len() - pos,
        {
            let ghost before = store@;
            let (record, next) = match take_record(bytes, pos) {
                Some(x) => x,
                None => {
                    return None;
                },
            };
            if next <= pos {
                proof {
                    assert(bytes@.skip(next as int).len() >= bytes@.skip(pos as int).len());
                }
                return None;
            }
            let ghost r = record@;
            let done = store.redo(record);
            proof {
                let tail = parse_records(bytes@.skip(next as int));
                match tail {
                    None => {},
                    Some(rest) => {
                        assert(before.records + (seq![r] + rest) =~= before.records.push(r) + rest);
                    },
                }
            }
            if !done {
                proof {
                    let tail = parse_records(bytes@.skip(next as int));
                    match tail {
                        None => {},
                        Some(rest) => {
                            let whole = before.records.push(r) + rest;
                            if replay(whole) is Some {
                                lemma_replay_prefix(before.records.push(r), rest);
                                assert(before.records.push(r).drop_last() =~= before.records);
                            }
                        },
                    }
                }
                return None;
            }
            pos = next;
        }
        proof {
            assert(store@.records + Seq::<RecordView>::empty() =~= store@.records);
        }
        Some(store)
    }

    /// Reads back what is left of a store after a crash, onto a medium that
    /// holds at most `capacity` records. The store takes up the whole
    /// records at the front of the bytes, up to the first that cannot follow
    /// or that the medium has no room for. A record that was not written to
    /// its end is dropped with everything behind it.
    pub fn salvage(bytes: &[u8], capacity: usize) -> (s: JournalStore)
        ensures
            s.inv(),
            s@.online,
            s@.capacity == capacity,
            s@.records == usable(whole_records(bytes@), capacity as nat),
    {
        let mut store = JournalStore::new(capacity);
        let mut pos: usize = 0;
        proof {
            assert(bytes@.skip(0) =~= bytes@);
            assert(Seq::<RecordView>::empty() + whole_records(bytes@) =~= whole_records(bytes@));
        }
        while pos < bytes.len()
            invariant
                pos <= bytes@.len(),
                store.inv(),
                store@.online,
                store@.capacity == capacity,
                whole_records(bytes@) == store@.records + whole_records(bytes@.skip(pos as int)),
            decreases bytes@.len() - pos,
        {
            let ghost before = store@;
            let (record, next) = match take_record(bytes, pos) {
                Some(x) => x,
                None => {
                    proof {
                        assert(before.records + Seq::<RecordView>::empty() =~= before.records);
                        lemma_usable_whole(before.records, capacity as nat);
                    }
                    return store;
                },
            };
            if next <= pos {
                proof {
                    assert(bytes@.skip(next as int).len() >= bytes@.skip(pos as int).len());
                    assert(before.records + Seq::<RecordView>::empty() =~= before.records);
                    lemma_usable_whole(before.records, capacity as nat);
                }
                return store;
            }
            let ghost r = record@;
            let ghost later = whole_records(bytes@.skip(next as int));
            let done = store.redo(record);
            proof {
                assert(before.records + (seq![r] + later) =~= before.records.push(r) + later);
                assert(before.records.push(r).drop_last() =~= before.records);
            }
            if !done {
                proof {
                    lemma_usable_whole(before.records, capacity as nat);
                    lemma_usable_stops(before.records, seq![r] + later, capacity as nat);
                }
                return store;
            }
            pos = next;
        }
        proof {
            assert(store@.records + Seq::<RecordView>::empty() =~= store@.records);
            lemma_usable_whole(store@.records, capacity as nat);
        }
        store
    }
}

/// Sequence numbers are gapless and strictly increasing: an append gets the
/// number that equals the journal's length, and the next append to the same
/// invocation gets the next number, whatever was appended to other
/// invocations in between.
pub proof fn law_sequence_numbers_are_gapless(
    s: JournalStoreView,
    id: u64,
    first: EntryView,
    other: u64,
    between: EntryView,
    second: EntryView,
)
    requires
        s.wf(),
        entry_fits(first),
        entry_fits(between),
        other != id,
        s.append(id, first).1 is Ok,
        s.append(id, first).0.append(other, between).0.append(id, second).1 is Ok,
    ensures
        s.append(id, first).1->Ok_0 == s.invocations[id as int].journal.len(),
        s.append(id, first).0.append(other, between).0.append(id, second).1->Ok_0 == s.append(
            id,
            first,
        ).1->Ok_0 + 1,
{
    law_logging_keeps_the_store(s, RecordView::Appended { id, entry: first });
    let s1 = s.append(id, first).0;
    if s1.append(other, between).1 is Ok {
        law_logging_keeps_the_store(s1, RecordView::Appended { id: other, entry: between });
    }
    let s2 = s1.append(other, between).0;
    assert(s2.invocations[id as int].journal == s.invocations[id as int].journal.push(first));
}

/// The journal is append-only: no operation of the store removes, reorders
/// or rewrites an entry. After any operation the journal of every invocation
/// starts with what it held before.
pub proof fn law_journal_is_append_only(
    s: JournalStoreView,
    id: u64,
    entry: EntryView,
    status: Status,
    result: OutcomeView,
    waiting: Option<Wait>,
    any: u64,
)
    requires
        any < s.invocations.len(),
    ensures
        s.invocations[any as int].journal.is_prefix_of(
            s.append(id, entry).0.invocations[any as int].journal,
        ),
        s.mark_terminal(id, status, result).0.invocations[any as int].journal
            == s.invocations[any as int].journal,
        s.set_suspended(id, waiting).0.invocations[any as int].journal
            == s.invocations[any as int].journal,
        s.append(id, entry).1 is Ok ==> s.append(id, entry).0.invocations[id as int].journal
            == s.invocations[id as int].journal.push(entry),
{
}

/// A terminal invocation stays as it is: nothing is appended to its journal,
/// and its status and its result are the first ones recorded, whoever tries
/// to end it again.
pub proof fn law_terminal_is_final(
    s: JournalStoreView,
    id: u64,
    status: Status,
    result: OutcomeView,
    entry: EntryView,
    again: Status,
    other: OutcomeView,
)
    requires
        s.mark_terminal(id, status, result).1 is Ok,
    ensures
        s.mark_terminal(id, status, result).0.invocations[id as int].result == Some(result),
        s.mark_terminal(id, status, result).0.invocations[id as int].status == status,
        s.mark_terminal(id, status, result).0.append(id, entry) == (
            s.mark_terminal(id, status, result).0,
            Err::<usize, EngineError>(EngineError::AlreadyCompleted),
        ),
        again.spec_is_terminal() ==> s.mark_terminal(id, status, result).0.mark_terminal(
            id,
            again,
            other,
        ) == (
            s.mark_terminal(id, status, result).0,
            Err::<(), EngineError>(EngineError::AlreadyCompleted),
        ),
{
}

/// What is on the medium is what the store holds: a store that is read back
/// from the bytes that a store has written holds the same invocations, with
/// every journal, status and result. So an append that has returned has
/// survived, whatever happens to the process afterwards.
pub proof fn law_store_survives_a_crash(s: JournalStoreView)
    requires
        s.wf(),
    ensures
        parse_records(s.log()) == Some(s.records),
        recovered(s.log()) == Some(s.invocations),
{
    law_log_round_trip(s.records);
}

/// A crash loses no record that was written and keeps nothing of one that
/// was not: where the process dies while it writes a record, at whatever
/// byte, the store that is read back from the medium holds the records that
/// were written before, and so the same invocations.
pub proof fn law_store_survives_a_torn_write(s: JournalStoreView, r: RecordView, cut: nat)
    requires
        s.wf(),
        record_fits(r),
        cut < ser_record(r).len(),
    ensures
        usable(whole_records(s.log() + ser_record(r).take(cut as int)), s.capacity) == s.records,
{
    law_torn_write_loses_only_itself(s.records, r, cut);
    lemma_usable_whole(s.records, s.capacity);
}

} // verus!
