//! The invocation lock manager: at most one invocation executes on a key of a
//! virtual object at a time, the others wait their turn in the order of
//! arrival; a workflow's primary handler moreover runs once per key.

use vstd::prelude::*;
use crate::error::EngineError;
use crate::table::{path2, PathTable};
use crate::value::{Outcome, OutcomeView};

verus! {

/// How a handler holds the key it runs on.
#[derive(Debug, Clone, Copy, PartialEq, Eq, Structural)]
pub enum LockMode {
    /// Alone: a handler of a virtual object.
    Exclusive,
    /// Beside other shared handlers, and beside an exclusive holder that is
    /// suspended.
    Shared,
    /// Alone, and once per key: the primary handler of a workflow.
    RunOnce,
}

/// The kinds of handlers, each with its locking policy.
#[derive(Debug, Clone, Copy, PartialEq, Eq, Structural)]
pub enum HandlerKind {
    /// A stateless service: no key, no lock.
    Service,
    /// A handler of a virtual object.
    Object,
    /// A read-only handler of a virtual object.
    ObjectShared,
    /// The primary handler of a workflow.
    Workflow,
    /// An auxiliary handler of a workflow.
    WorkflowShared,
}

impl HandlerKind {
    /// The lock that a handler of this kind takes on its key; `None` where it
    /// takes none.
    pub open spec fn spec_lock_mode(self) -> Option<LockMode> {
        match self {
            HandlerKind::Service => None,
            HandlerKind::Object => Some(LockMode::Exclusive),
            HandlerKind::ObjectShared => Some(LockMode::Shared),
            HandlerKind::Workflow => Some(LockMode::RunOnce),
            HandlerKind::WorkflowShared => Some(LockMode::Shared),
        }
    }

    /// The lock that a handler of this kind takes on its key.
    #[verifier::when_used_as_spec(spec_lock_mode)]
    pub fn lock_mode(self) -> (m: Option<LockMode>)
        ensures
            m == self.spec_lock_mode(),
    {
        match self {
            HandlerKind::Service => None,
            HandlerKind::Object => Some(LockMode::Exclusive),
            HandlerKind::ObjectShared => Some(LockMode::Shared),
            HandlerKind::Workflow => Some(LockMode::RunOnce),
            HandlerKind::WorkflowShared => Some(LockMode::Shared),
        }
    }

    /// Whether a handler of this kind keeps its lock while it is suspended:
    /// true of the holders that run alone, false of shared handlers.
    pub open spec fn spec_keeps_lock_when_suspended(self) -> bool {
        self is Object || self is Workflow
    }

    /// Whether a handler of this kind keeps its lock while it is suspended.
    #[verifier::when_used_as_spec(spec_keeps_lock_when_suspended)]
    pub fn keeps_lock_when_suspended(self) -> (b: bool)
        ensures
            b == self.spec_keeps_lock_when_suspended(),
    {
        match self {
            HandlerKind::Object => true,
            HandlerKind::Workflow => true,
            _ => false,
        }
    }
}

/// An invocation that waits for a key.
#[derive(Debug, Clone, Copy, PartialEq, Eq, Structural)]
pub struct Waiter {
    pub invocation: u64,
    pub shared: bool,
    /// When it arrived.
    pub since: u64,
}

/// What the exclusive holder of a key is doing.
#[derive(Debug, Clone, Copy, PartialEq, Eq, Structural)]
pub enum HolderState {
    /// Executing (or no holder).
    Active,
    /// Suspended: shared handlers may run.
    Suspended,
    /// Woken, and waiting for the shared handlers to finish.
    Resuming,
}

/// The answer to a request for a key.
#[derive(Debug, PartialEq, Eq)]
pub enum Admission {
    /// The invocation may execute now.
    Granted,
    /// The invocation waits its turn.
    Queued,
    /// The workflow of this key has run: here is its result.
    AlreadyCompleted(Outcome),
}

/// What an [`Admission`] holds.
pub enum AdmissionView {
    Granted,
    Queued,
    AlreadyCompleted(OutcomeView),
}

impl View for Admission {
    type V = AdmissionView;

    open spec fn view(&self) -> AdmissionView {
        match self {
            Admission::Granted => AdmissionView::Granted,
            Admission::Queued => AdmissionView::Queued,
            Admission::AlreadyCompleted(o) => AdmissionView::AlreadyCompleted(o@),
        }
    }
}

/// The lock of one key.
pub struct KeyLockView {
    /// The invocation that holds the key alone.
    pub holder: Option<u64>,
    pub state: HolderState,
    /// The waiters, the first to arrive first.
    pub queue: Seq<Waiter>,
    /// The shared handlers that execute.
    pub shared: Seq<u64>,
    /// The result of the workflow of this key, once it has run.
    pub completed: Option<OutcomeView>,
}

/// The sequence without the first entry equal to `x`.
pub open spec fn drop_id(s: Seq<u64>, x: u64) -> Seq<u64>
    decreases s.len(),
{
    if s.len() == 0 {
        s
    } else if s[0] == x {
        s.drop_first()
    } else {
        seq![s[0]] + drop_id(s.drop_first(), x)
    }
}

/// The queue without the first waiter of invocation `x`.
pub open spec fn drop_waiter(q: Seq<Waiter>, x: u64) -> Seq<Waiter>
    decreases q.len(),
{
    if q.len() == 0 {
        q
    } else if q[0].invocation == x {
        q.drop_first()
    } else {
        seq![q[0]] + drop_waiter(q.drop_first(), x)
    }
}

/// Since when invocation `x` waits in the queue: the arrival time of its
/// first waiter.
pub open spec fn waiter_since(q: Seq<Waiter>, x: u64) -> Option<u64>
    decreases q.len(),
{
    if q.len() == 0 {
        None
    } else if q[0].invocation == x {
        Some(q[0].since)
    } else {
        waiter_since(q.drop_first(), x)
    }
}

/// Whether invocation `x` waits in the queue.
pub open spec fn waits(q: Seq<Waiter>, x: u64) -> bool {
    exists|i: int| 0 <= i < q.len() && (#[trigger] q[i]).invocation == x
}

impl KeyLockView {
    /// A key that nobody holds or waits for.
    pub open spec fn idle() -> KeyLockView {
        KeyLockView {
            holder: None,
            state: HolderState::Active,
            queue: Seq::empty(),
            shared: Seq::empty(),
            completed: None,
        }
    }

    /// What holds of every lock: an exclusive holder that executes has the
    /// key to itself.
    pub open spec fn wf(self) -> bool {
        &&& (self.holder is None ==> self.state is Active)
        &&& (self.holder is Some && self.state is Active ==> self.shared.len() == 0)
    }

    /// Whether a shared handler may start: nobody holds the key alone, or the
    /// holder is suspended.
    pub open spec fn admits_shared(self) -> bool {
        self.holder is None || self.state is Suspended
    }

    /// Whether a handler that runs alone may start: nobody holds the key and
    /// no shared handler executes.
    pub open spec fn admits_exclusive(self) -> bool {
        self.holder is None && self.shared.len() == 0
    }

    /// The invocations that execute on the key now.
    pub open spec fn executing(self, x: u64) -> bool {
        (self.holder == Some(x) && self.state is Active) || self.shared.contains(x)
    }

    /// Asking for the key. A workflow run on a key whose workflow has
    /// completed is told so, with the stored result, and nothing changes.
    /// Else the invocation is granted the key if nobody waits and its mode is
    /// admitted, and joins the end of the queue if not.
    pub open spec fn acquire(self, invocation: u64, mode: LockMode, now: u64) -> (
        KeyLockView,
        AdmissionView,
    ) {
        if mode is RunOnce && self.completed is Some {
            (self, AdmissionView::AlreadyCompleted(self.completed->0))
        } else if mode is Shared {
            if self.queue.len() == 0 && self.admits_shared() {
                (KeyLockView { shared: self.shared.push(invocation), ..self }, AdmissionView::Granted)
            } else {
                (
                    KeyLockView {
                        queue: self.queue.push(Waiter { invocation, shared: true, since: now }),
                        ..self
                    },
                    AdmissionView::Queued,
                )
            }
        } else {
            if self.queue.len() == 0 && self.admits_exclusive() {
                (
                    KeyLockView { holder: Some(invocation), state: HolderState::Active, ..self },
                    AdmissionView::Granted,
                )
            } else {
                (
                    KeyLockView {
                        queue: self.queue.push(Waiter { invocation, shared: false, since: now }),
                        ..self
                    },
                    AdmissionView::Queued,
                )
            }
        }
    }

    /// Admitting waiters from the head of the queue, in order, as long as the
    /// head's mode is admitted. Gives the lock after and the invocations
    /// admitted, in the order of their arrival. At most one of them runs
    /// alone, and it is the last.
    pub open spec fn serve_queue(self) -> (KeyLockView, Seq<u64>)
        decreases self.queue.len(),
    {
        if self.queue.len() == 0 {
            (self, Seq::empty())
        } else {
            let head = self.queue[0];
            if head.shared && self.admits_shared() {
                let next = KeyLockView {
                    queue: self.queue.drop_first(),
                    shared: self.shared.push(head.invocation),
                    ..self
                };
                (next.serve_queue().0, seq![head.invocation] + next.serve_queue().1)
            } else if !head.shared && self.admits_exclusive() {
                (
                    KeyLockView {
                        queue: self.queue.drop_first(),
                        holder: Some(head.invocation),
                        state: HolderState::Active,
                        ..self
                    },
                    seq![head.invocation],
                )
            } else {
                (self, Seq::empty())
            }
        }
    }

    /// Giving the key back. Gives the lock after, and the invocations that
    /// start now.
    ///
    /// - The exclusive holder leaves: the key is free, and waiters are
    ///   admitted.
    /// - A shared handler leaves: where it was the last one and the holder
    ///   waits to resume, the holder executes again; else waiters are
    ///   admitted.
    /// - A waiter leaves the queue; nobody starts.
    /// - Anyone else: `NotRunning`, nothing changes.
    pub open spec fn release(self, invocation: u64) -> (KeyLockView, Result<Seq<u64>, EngineError>) {
        if self.holder == Some(invocation) {
            let freed = KeyLockView { holder: None, state: HolderState::Active, ..self };
            (freed.serve_queue().0, Ok(freed.serve_queue().1))
        } else if self.shared.contains(invocation) {
            let left = KeyLockView { shared: drop_id(self.shared, invocation), ..self };
            if left.shared.len() == 0 && left.holder is Some && left.state is Resuming {
                (KeyLockView { state: HolderState::Active, ..left }, Ok(seq![left.holder->0]))
            } else {
                (left.serve_queue().0, Ok(left.serve_queue().1))
            }
        } else if waits(self.queue, invocation) {
            (KeyLockView { queue: drop_waiter(self.queue, invocation), ..self }, Ok(Seq::empty()))
        } else {
            (self, Err(EngineError::NotRunning))
        }
    }

    /// The exclusive holder suspends: it keeps the key, and shared handlers
    /// at the head of the queue are admitted. Anyone else: `NotRunning`.
    pub open spec fn suspend(self, invocation: u64) -> (KeyLockView, Result<Seq<u64>, EngineError>) {
        if self.holder == Some(invocation) && self.state is Active {
            let parked = KeyLockView { state: HolderState::Suspended, ..self };
            (parked.serve_queue().0, Ok(parked.serve_queue().1))
        } else {
            (self, Err(EngineError::NotRunning))
        }
    }

    /// The suspended holder is woken: it executes again at once where no
    /// shared handler executes, and waits for them to finish where some do.
    /// Anyone else: `NotRunning`.
    pub open spec fn resume(self, invocation: u64) -> (KeyLockView, Result<AdmissionView, EngineError>) {
        if self.holder == Some(invocation) && self.state is Suspended {
            if self.shared.len() == 0 {
                (KeyLockView { state: HolderState::Active, ..self }, Ok(AdmissionView::Granted))
            } else {
                (KeyLockView { state: HolderState::Resuming, ..self }, Ok(AdmissionView::Queued))
            }
        } else {
            (self, Err(EngineError::NotRunning))
        }
    }

    /// Recording the result of the workflow of this key. The first result
    /// stands: `AlreadyCompleted` where there is one.
    pub open spec fn complete(self, outcome: OutcomeView) -> (KeyLockView, Result<(), EngineError>) {
        if self.completed is Some {
            (self, Err(EngineError::AlreadyCompleted))
        } else {
            (KeyLockView { completed: Some(outcome), ..self }, Ok(()))
        }
    }

    /// Looking after a waiter at time `now`: where the invocation waits and
    /// has waited for more than `bound`, it leaves the queue and is told
    /// `LockTimeout`; else nothing changes.
    pub open spec fn expire(self, invocation: u64, now: u64, bound: u64) -> (
        KeyLockView,
        Result<(), EngineError>,
    ) {
        match waiter_since(self.queue, invocation) {
            Some(since) => if now >= since && now - since > bound {
                (
                    KeyLockView { queue: drop_waiter(self.queue, invocation), ..self },
                    Err(EngineError::LockTimeout),
                )
            } else {
                (self, Ok(()))
            },
            None => (self, Ok(())),
        }
    }

    /// The holders of the key in the order in which they get it, when each
    /// holder gives the key back and nobody else arrives: at most `n` of
    /// them.
    pub open spec fn turns(self, n: nat) -> Seq<u64>
        decreases n,
    {
        if n == 0 || self.holder is None {
            Seq::empty()
        } else {
            seq![self.holder->0] + self.release(self.holder->0).0.turns((n - 1) as nat)
        }
    }

    /// The lock after the invocations `arrivals` asked for the key alone, one
    /// after the other.
    pub open spec fn after_arrivals(self, arrivals: Seq<u64>, now: u64) -> KeyLockView
        decreases arrivals.len(),
    {
        if arrivals.len() == 0 {
            self
        } else {
            self.after_arrivals(arrivals.drop_last(), now).acquire(
                arrivals.last(),
                LockMode::Exclusive,
                now,
            ).0
        }
    }
}

/// Whether every waiter of the queue wants the key alone.
pub open spec fn all_exclusive(q: Seq<Waiter>) -> bool {
    forall|i: int| 0 <= i < q.len() ==> !(#[trigger] q[i]).shared
}

/// The invocations of a queue, in order.
pub open spec fn invocations_of(q: Seq<Waiter>) -> Seq<u64> {
    Seq::new(q.len(), |i: int| q[i].invocation)
}

/// Admission keeps the lock well formed and starts nobody beside an
/// exclusive holder that executes.
pub proof fn law_serving_keeps_exclusion(l: KeyLockView)
    requires
        l.wf(),
    ensures
        l.serve_queue().0.wf(),
        l.serve_queue().0.completed == l.completed,
    decreases l.queue.len(),
{
    if l.queue.len() > 0 {
        let head = l.queue[0];
        if head.shared && l.admits_shared() {
            let next = KeyLockView {
                queue: l.queue.drop_first(),
                shared: l.shared.push(head.invocation),
                ..l
            };
            law_serving_keeps_exclusion(next);
        }
    }
}

/// Every operation keeps the lock well formed: whatever is asked of it, an
/// exclusive holder that executes has the key to itself.
pub proof fn law_exclusion_is_kept(l: KeyLockView, invocation: u64, mode: LockMode, now: u64)
    requires
        l.wf(),
    ensures
        l.acquire(invocation, mode, now).0.wf(),
        l.release(invocation).0.wf(),
        l.suspend(invocation).0.wf(),
        l.resume(invocation).0.wf(),
{
    law_serving_keeps_exclusion(KeyLockView { holder: None, state: HolderState::Active, ..l });
    law_serving_keeps_exclusion(KeyLockView { shared: drop_id(l.shared, invocation), ..l });
    if l.holder == Some(invocation) && l.state is Active {
        law_serving_keeps_exclusion(KeyLockView { state: HolderState::Suspended, ..l });
    }
}

/// Invocations that ask for a key alone get it one at a time, in the order
/// in which they asked: when `holder` has the key and `queue` waits for it,
/// the turns are the holder's and then the waiters', first come first.
pub proof fn law_turns_follow_the_queue(l: KeyLockView)
    requires
        l.wf(),
        l.holder is Some,
        l.state is Active,
        l.shared.len() == 0,
        all_exclusive(l.queue),
    ensures
        l.turns(l.queue.len() + 1) == seq![l.holder->0] + invocations_of(l.queue),
    decreases l.queue.len(),
{
    let h = l.holder->0;
    let freed = KeyLockView { holder: None, state: HolderState::Active, ..l };
    let next = l.release(h).0;
    if l.queue.len() == 0 {
        assert(next.holder is None);
        assert(next.turns(0) =~= Seq::<u64>::empty());
        assert(l.turns(1) =~= seq![h] + invocations_of(l.queue));
    } else {
        let head = l.queue[0];
        assert(!head.shared);
        assert(next.holder == Some(head.invocation));
        assert(next.queue == l.queue.drop_first());
        assert forall|i: int| 0 <= i < next.queue.len() implies !(#[trigger] next.queue[i]).shared by {
            assert(next.queue[i] == l.queue[i + 1]);
        }
        law_turns_follow_the_queue(next);
        assert(invocations_of(l.queue) =~= seq![head.invocation] + invocations_of(next.queue));
        assert(l.turns(l.queue.len() + 1) == seq![h] + next.turns(l.queue.len() as nat));
        assert(next.queue.len() + 1 == l.queue.len());
    }
}

/// Asking for an idle key alone, `m` invocations one after the other: the
/// first one gets the key, the others wait in the order of arrival.
pub proof fn law_arrivals_queue_up(arrivals: Seq<u64>, now: u64)
    requires
        arrivals.len() > 0,
    ensures
        KeyLockView::idle().after_arrivals(arrivals, now).holder == Some(arrivals[0]),
        KeyLockView::idle().after_arrivals(arrivals, now).state is Active,
        KeyLockView::idle().after_arrivals(arrivals, now).shared.len() == 0,
        all_exclusive(KeyLockView::idle().after_arrivals(arrivals, now).queue),
        invocations_of(KeyLockView::idle().after_arrivals(arrivals, now).queue)
            == arrivals.drop_first(),
        KeyLockView::idle().after_arrivals(arrivals, now).wf(),
    decreases arrivals.len(),
{
    let idle = KeyLockView::idle();
    if arrivals.len() == 1 {
        assert(arrivals.drop_last().len() == 0);
        assert(idle.after_arrivals(arrivals.drop_last(), now) == idle);
        assert(invocations_of(idle.after_arrivals(arrivals, now).queue) =~= arrivals.drop_first());
    } else {
        let before = arrivals.drop_last();
        law_arrivals_queue_up(before, now);
        let l = idle.after_arrivals(before, now);
        let after = idle.after_arrivals(arrivals, now);
        assert(after == l.acquire(arrivals.last(), LockMode::Exclusive, now).0);
        assert(before[0] == arrivals[0]);
        assert(invocations_of(after.queue) =~= arrivals.drop_first()) by {
            assert(invocations_of(l.queue) == before.drop_first());
            assert(invocations_of(l.queue).len() == l.queue.len());
            assert(l.queue.len() == before.len() - 1);
            assert(after.queue == l.queue.push(
                Waiter { invocation: arrivals.last(), shared: false, since: now },
            ));
            assert forall|i: int| 0 <= i < after.queue.len() implies invocations_of(after.queue)[i]
                == arrivals.drop_first()[i] by {
                if i < l.queue.len() {
                    assert(invocations_of(l.queue)[i] == before.drop_first()[i]);
                    assert(before.drop_first()[i] == before[i + 1]);
                    assert(before[i + 1] == arrivals[i + 1]);
                }
            }
        }
    }
}

/// Exclusive execution in arrival order: when `m` invocations ask for an idle
/// key alone and each gives it back when done, they execute one at a time,
/// exactly once each, in the order in which they asked.
pub proof fn law_serial_in_arrival_order(arrivals: Seq<u64>, now: u64)
    requires
        arrivals.len() > 0,
    ensures
        KeyLockView::idle().after_arrivals(arrivals, now).turns(arrivals.len()) == arrivals,
{
    law_arrivals_queue_up(arrivals, now);
    let l = KeyLockView::idle().after_arrivals(arrivals, now);
    law_turns_follow_the_queue(l);
    assert(invocations_of(l.queue).len() == l.queue.len());
    assert(seq![arrivals[0]] + arrivals.drop_first() =~= arrivals);
}

/// A workflow runs once per key: once its result is recorded, every further
/// run asked for on the key is answered with that result, whoever asks and
/// whenever, and the lock stays as it is, so nobody is admitted to execute.
pub proof fn law_workflow_runs_once(
    l: KeyLockView,
    result: OutcomeView,
    invocation: u64,
    now: u64,
)
    requires
        l.complete(result).1 is Ok,
    ensures
        l.complete(result).0.acquire(invocation, LockMode::RunOnce, now) == (
            l.complete(result).0,
            AdmissionView::AlreadyCompleted(result),
        ),
        l.complete(result).0.complete(result).1 == Err::<(), EngineError>(
            EngineError::AlreadyCompleted,
        ),
{
}

/// Where the first entry equal to `x` stands, the sequence without it is the
/// sequence with that place removed.
proof fn lemma_drop_id_at(s: Seq<u64>, x: u64, i: int)
    requires
        0 <= i < s.len(),
        s[i] == x,
        forall|j: int| 0 <= j < i ==> s[j] != x,
    ensures
        drop_id(s, x) == s.remove(i),
    decreases i,
{
    if i == 0 {
        assert(s.drop_first() =~= s.remove(0));
    } else {
        lemma_drop_id_at(s.drop_first(), x, i - 1);
        assert(seq![s[0]] + s.drop_first().remove(i - 1) =~= s.remove(i));
    }
}

proof fn lemma_drop_waiter_at(q: Seq<Waiter>, x: u64, i: int)
    requires
        0 <= i < q.len(),
        q[i].invocation == x,
        forall|j: int| 0 <= j < i ==> q[j].invocation != x,
    ensures
        drop_waiter(q, x) == q.remove(i),
    decreases i,
{
    if i == 0 {
        assert(q.drop_first() =~= q.remove(0));
    } else {
        lemma_drop_waiter_at(q.drop_first(), x, i - 1);
        assert(seq![q[0]] + q.drop_first().remove(i - 1) =~= q.remove(i));
    }
}

proof fn lemma_waiter_since(q: Seq<Waiter>, x: u64, i: int)
    requires
        0 <= i <= q.len(),
        forall|j: int| 0 <= j < i ==> q[j].invocation != x,
        i < q.len() ==> q[i].invocation == x,
    ensures
        waiter_since(q, x) == if i < q.len() {
            Some(q[i].since)
        } else {
            None
        },
    decreases i,
{
    if i > 0 {
        lemma_waiter_since(q.drop_first(), x, i - 1);
    }
}

fn copy_ids(v: &Vec<u64>) -> (r: Vec<u64>)
    ensures
        r@ == v@,
{
    let mut r: Vec<u64> = Vec::new();
    let mut i: usize = 0;
    while i < v.len()
        invariant
            i <= v.len(),
            r@ == v@.take(i as int),
        decreases v.len() - i,
    {
        r.push(v[i]);
        assert(r@ =~= v@.take(i + 1));
        i = i + 1;
    }
    assert(v@.take(v.len() as int) =~= v@);
    r
}

fn copy_waiters(v: &Vec<Waiter>) -> (r: Vec<Waiter>)
    ensures
        r@ == v@,
{
    let mut r: Vec<Waiter> = Vec::new();
    let mut i: usize = 0;
    while i < v.len()
        invariant
            i <= v.len(),
            r@ == v@.take(i as int),
        decreases v.len() - i,
    {
        r.push(v[i]);
        assert(r@ =~= v@.take(i + 1));
        i = i + 1;
    }
    assert(v@.take(v.len() as int) =~= v@);
    r
}

/// The lock of one key.
#[derive(Debug, PartialEq, Eq)]
pub struct KeyLock {
    holder: Option<u64>,
    state: HolderState,
    queue: Vec<Waiter>,
    shared: Vec<u64>,
    completed: Option<Outcome>,
}

impl View for KeyLock {
    type V = KeyLockView;

    closed spec fn view(&self) -> KeyLockView {
        KeyLockView {
            holder: self.holder,
            state: self.state,
            queue: self.queue@,
            shared: self.shared@,
            completed: crate::promises::optional_outcome(self.completed),
        }
    }
}

impl Clone for KeyLock {
    fn clone(&self) -> (r: Self)
        ensures
            r@ == self@,
    {
        KeyLock {
            holder: self.holder,
            state: self.state,
            queue: copy_waiters(&self.queue),
            shared: copy_ids(&self.shared),
            completed: match &self.completed {
                Some(o) => Some(o.clone()),
                None => None,
            },
        }
    }
}

impl KeyLock {
    /// The lock of a key that nobody holds or waits for.
    pub fn new() -> (l: Self)
        ensures
            l@ == KeyLockView::idle(),
    {
        let l = KeyLock {
            holder: None,
            state: HolderState::Active,
            queue: Vec::new(),
            shared: Vec::new(),
            completed: None,
        };
        assert(l@.queue =~= Seq::<Waiter>::empty());
        assert(l@.shared =~= Seq::<u64>::empty());
        l
    }

    /// The invocation that holds the key alone.
    pub fn holder(&self) -> (h: Option<u64>)
        ensures
            h == self@.holder,
    {
        self.holder
    }

    /// What the holder is doing.
    pub fn holder_state(&self) -> (s: HolderState)
        ensures
            s == self@.state,
    {
        self.state
    }

    /// The result of the workflow of this key, once it has run.
    pub fn completed(&self) -> (r: Option<Outcome>)
        ensures
            crate::promises::optional_outcome(r) == self@.completed,
    {
        match &self.completed {
            Some(o) => Some(o.clone()),
            None => None,
        }
    }

    /// Whether the invocation executes as a shared handler.
    pub fn shares(&self, invocation: u64) -> (b: bool)
        ensures
            b == self@.shared.contains(invocation),
    {
        let mut i: usize = 0;
        while i < self.shared.len()
            invariant
                i <= self.shared.len(),
                forall|j: int| 0 <= j < i ==> self.shared@[j] != invocation,
            decreases self.shared.len() - i,
        {
            if self.shared[i] == invocation {
                return true;
            }
            i = i + 1;
        }
        false
    }

    /// The number of waiters.
    pub fn waiting(&self) -> (n: usize)
        ensures
            n == self@.queue.len(),
    {
        self.queue.len()
    }

    /// The number of shared handlers that execute.
    pub fn sharing(&self) -> (n: usize)
        ensures
            n == self@.shared.len(),
    {
        self.shared.len()
    }

    fn admits_shared(&self) -> (b: bool)
        ensures
            b == self@.admits_shared(),
    {
        self.holder.is_none() || self.state == HolderState::Suspended
    }

    fn admits_exclusive(&self) -> (b: bool)
        ensures
            b == self@.admits_exclusive(),
    {
        self.holder.is_none() && self.shared.len() == 0
    }

    /// Asks for the key: see [`KeyLockView::acquire`].
    pub fn acquire(&mut self, invocation: u64, mode: LockMode, now: u64) -> (a: Admission)
        ensures
            final(self)@ == old(self)@.acquire(invocation, mode, now).0,
            a@ == old(self)@.acquire(invocation, mode, now).1,
    {
        if mode == LockMode::RunOnce {
            match &self.completed {
                Some(o) => {
                    return Admission::AlreadyCompleted(o.clone());
                },
                None => {},
            }
        }
        let shared = mode == LockMode::Shared;
        let free = if shared {
            self.admits_shared()
        } else {
            self.admits_exclusive()
        };
        if self.queue.len() == 0 && free {
            if shared {
                self.shared.push(invocation);
            } else {
                self.holder = Some(invocation);
                self.state = HolderState::Active;
            }
            Admission::Granted
        } else {
            self.queue.push(Waiter { invocation, shared, since: now });
            Admission::Queued
        }
    }

    /// Lets waiters in from the head of the queue: see
    /// [`KeyLockView::serve_queue`].
    pub fn serve_queue(&mut self) -> (started: Vec<u64>)
        ensures
            final(self)@ == old(self)@.serve_queue().0,
            started@ == old(self)@.serve_queue().1,
    {
        let mut started: Vec<u64> = Vec::new();
        let ghost start = self@;
        loop
            invariant
                start == old(self)@,
                start.serve_queue().0 == self@.serve_queue().0,
                start.serve_queue().1 == started@ + self@.serve_queue().1,
            decreases self.queue.len(),
        {
            if self.queue.len() == 0 {
                assert(started@ + Seq::<u64>::empty() =~= started@);
                return started;
            }
            let head = self.queue[0];
            if head.shared && self.admits_shared() {
                let ghost before = self@;
                self.queue.remove(0);
                self.shared.push(head.invocation);
                proof {
                    assert(self@.queue =~= before.queue.drop_first());
                    let next = KeyLockView {
                        queue: before.queue.drop_first(),
                        shared: before.shared.push(head.invocation),
                        ..before
                    };
                    assert(self@ == next);
                    assert(started@ + (seq![head.invocation] + next.serve_queue().1) =~= started@.push(
                        head.invocation,
                    ) + next.serve_queue().1);
                }
                started.push(head.invocation);
            } else if !head.shared && self.admits_exclusive() {
                let ghost before = self@;
                self.queue.remove(0);
                self.holder = Some(head.invocation);
                self.state = HolderState::Active;
                proof {
                    assert(self@.queue =~= before.queue.drop_first());
                    assert(started@ + seq![head.invocation] =~= started@.push(head.invocation));
                }
                started.push(head.invocation);
                return started;
            } else {
                assert(started@ + Seq::<u64>::empty() =~= started@);
                return started;
            }
        }
    }

    /// Gives the key back: see [`KeyLockView::release`].
    pub fn release(&mut self, invocation: u64) -> (r: Result<Vec<u64>, EngineError>)
        ensures
            final(self)@ == old(self)@.release(invocation).0,
            r is Ok <==> old(self)@.release(invocation).1 is Ok,
            r matches Ok(started) ==> started@ == old(self)@.release(invocation).1->Ok_0,
            r matches Err(e) ==> old(self)@.release(invocation).1 == Err::<Seq<u64>, EngineError>(e),
    {
        let holds = match self.holder {
            Some(h) => h == invocation,
            None => false,
        };
        if holds {
            self.holder = None;
            self.state = HolderState::Active;
            return Ok(self.serve_queue());
        }
        let mut i: usize = 0;
        while i < self.shared.len()
            invariant
                i <= self.shared.len(),
                self@ == old(self)@,
                self@.holder != Some(invocation),
                forall|j: int| 0 <= j < i ==> self.shared@[j] != invocation,
            decreases self.shared.len() - i,
        {
            if self.shared[i] == invocation {
                proof {
                    lemma_drop_id_at(self.shared@, invocation, i as int);
                    assert(self.shared@.contains(invocation));
                }
                self.shared.remove(i);
                if self.shared.len() == 0 && self.state == HolderState::Resuming {
                    match self.holder {
                        Some(h) => {
                            self.state = HolderState::Active;
                            let mut started: Vec<u64> = Vec::new();
                            started.push(h);
                            assert(started@ =~= seq![h]);
                            return Ok(started);
                        },
                        None => {},
                    }
                }
                return Ok(self.serve_queue());
            }
            i = i + 1;
        }
        assert(!self.shared@.contains(invocation));
        let mut k: usize = 0;
        while k < self.queue.len()
            invariant
                k <= self.queue.len(),
                self@ == old(self)@,
                self@.holder != Some(invocation),
                !self@.shared.contains(invocation),
                forall|j: int| 0 <= j < k ==> self.queue@[j].invocation != invocation,
            decreases self.queue.len() - k,
        {
            if self.queue[k].invocation == invocation {
                proof {
                    lemma_drop_waiter_at(self.queue@, invocation, k as int);
                    assert(waits(self.queue@, invocation));
                }
                self.queue.remove(k);
                let started: Vec<u64> = Vec::new();
                assert(started@ =~= Seq::<u64>::empty());
                return Ok(started);
            }
            k = k + 1;
        }
        assert(!waits(self.queue@, invocation));
        Err(EngineError::NotRunning)
    }

    /// The holder suspends: see [`KeyLockView::suspend`].
    pub fn suspend(&mut self, invocation: u64) -> (r: Result<Vec<u64>, EngineError>)
        ensures
            final(self)@ == old(self)@.suspend(invocation).0,
            r is Ok <==> old(self)@.suspend(invocation).1 is Ok,
            r matches Ok(started) ==> started@ == old(self)@.suspend(invocation).1->Ok_0,
            r matches Err(e) ==> old(self)@.suspend(invocation).1 == Err::<Seq<u64>, EngineError>(e),
    {
        let holds = match self.holder {
            Some(h) => h == invocation,
            None => false,
        };
        if holds && self.state == HolderState::Active {
            self.state = HolderState::Suspended;
            Ok(self.serve_queue())
        } else {
            Err(EngineError::NotRunning)
        }
    }

    /// The holder is woken: see [`KeyLockView::resume`].
    pub fn resume(&mut self, invocation: u64) -> (r: Result<Admission, EngineError>)
        ensures
            final(self)@ == old(self)@.resume(invocation).0,
            r is Ok <==> old(self)@.resume(invocation).1 is Ok,
            r matches Ok(a) ==> a@ == old(self)@.resume(invocation).1->Ok_0,
            r matches Err(e) ==> old(self)@.resume(invocation).1 == Err::<AdmissionView, EngineError>(
                e,
            ),
    {
        let holds = match self.holder {
            Some(h) => h == invocation,
            None => false,
        };
        if holds && self.state == HolderState::Suspended {
            if self.shared.len() == 0 {
                self.state = HolderState::Active;
                Ok(Admission::Granted)
            } else {
                self.state = HolderState::Resuming;
                Ok(Admission::Queued)
            }
        } else {
            Err(EngineError::NotRunning)
        }
    }

    /// Records the result of the workflow of this key: see
    /// [`KeyLockView::complete`].
    pub fn complete(&mut self, outcome: Outcome) -> (r: Result<(), EngineError>)
        ensures
            final(self)@ == old(self)@.complete(outcome@).0,
            r == old(self)@.complete(outcome@).1,
    {
        if self.completed.is_some() {
            Err(EngineError::AlreadyCompleted)
        } else {
            self.completed = Some(outcome);
            Ok(())
        }
    }

    /// Looks after a waiter at time `now`: see [`KeyLockView::expire`].
    pub fn expire(&mut self, invocation: u64, now: u64, bound: u64) -> (r: Result<(), EngineError>)
        ensures
            final(self)@ == old(self)@.expire(invocation, now, bound).0,
            r == old(self)@.expire(invocation, now, bound).1,
    {
        let mut k: usize = 0;
        while k < self.queue.len()
            invariant
                k <= self.queue.len(),
                self@ == old(self)@,
                forall|j: int| 0 <= j < k ==> self.queue@[j].invocation != invocation,
            decreases self.queue.len() - k,
        {
            if self.queue[k].invocation == invocation {
                let since = self.queue[k].since;
                proof {
                    lemma_waiter_since(self.queue@, invocation, k as int);
                    lemma_drop_waiter_at(self.queue@, invocation, k as int);
                }
                if now >= since && now - since > bound {
                    self.queue.remove(k);
                    return Err(EngineError::LockTimeout);
                } else {
                    return Ok(());
                }
            }
            k = k + 1;
        }
        proof {
            lemma_waiter_since(self.queue@, invocation, self.queue@.len() as int);
        }
        Ok(())
    }
}

/// The path of a key in the lock table.
pub open spec fn lock_path(object_type: Seq<char>, key: Seq<char>) -> Seq<Seq<char>> {
    seq![object_type, key]
}

proof fn lemma_lock_paths_differ(t1: Seq<char>, k1: Seq<char>, t2: Seq<char>, k2: Seq<char>)
    ensures
        lock_path(t1, k1) == lock_path(t2, k2) ==> t1 == t2 && k1 == k2,
{
    if lock_path(t1, k1) == lock_path(t2, k2) {
        assert(lock_path(t1, k1)[0] == t1);
        assert(lock_path(t1, k1)[1] == k1);
        assert(lock_path(t2, k2)[0] == t2);
        assert(lock_path(t2, k2)[1] == k2);
    }
}

/// The locks of all keys, by object type and object key.
pub struct LockManager {
    table: PathTable<KeyLock>,
    bound: u64,
}

impl LockManager {
    /// The invariant of the representation.
    pub closed spec fn inv(&self) -> bool {
        self.table.inv()
    }

    /// The lock of a key. A key that was never asked for is idle.
    pub closed spec fn lock_of(&self, object_type: Seq<char>, key: Seq<char>) -> KeyLockView {
        if self.table.map().dom().contains(lock_path(object_type, key)) {
            self.table.map()[lock_path(object_type, key)]@
        } else {
            KeyLockView::idle()
        }
    }

    /// The longest time a waiter is left in a queue.
    pub closed spec fn bound(&self) -> u64 {
        self.bound
    }

    /// Whether every lock but the one of the given key is the same in both
    /// managers.
    pub open spec fn same_but(&self, other: &LockManager, object_type: Seq<char>, key: Seq<char>) -> bool {
        &&& self.bound() == other.bound()
        &&& forall|t: Seq<char>, k: Seq<char>|
            !(t == object_type && k == key) ==> #[trigger] self.lock_of(t, k) == other.lock_of(t, k)
    }

    /// A manager in which every key is idle. A waiter is left in a queue for
    /// at most `bound` milliseconds.
    pub fn new(bound: u64) -> (m: Self)
        ensures
            m.inv(),
            m.bound() == bound,
            forall|t: Seq<char>, k: Seq<char>| #[trigger] m.lock_of(t, k) == KeyLockView::idle(),
    {
        LockManager { table: PathTable::new(), bound }
    }

    fn lock(&self, object_type: &str, key: &str) -> (l: KeyLock)
        requires
            self.inv(),
        ensures
            l@ == self.lock_of(object_type@, key@),
    {
        let path = path2(object_type, key);
        match self.table.find(&path) {
            Some(i) => self.table.value(i).clone(),
            None => KeyLock::new(),
        }
    }

    fn store(&mut self, object_type: &str, key: &str, lock: KeyLock)
        requires
            old(self).inv(),
        ensures
            final(self).inv(),
            final(self).lock_of(object_type@, key@) == lock@,
            final(self).same_but(old(self), object_type@, key@),
    {
        let path = path2(object_type, key);
        self.table.put(path, lock);
        proof {
            assert forall|t: Seq<char>, k: Seq<char>|
                !(t == object_type@ && k == key@) implies #[trigger] self.lock_of(t, k) == old(
                self,
            ).lock_of(t, k) by {
                lemma_lock_paths_differ(t, k, object_type@, key@);
            }
        }
    }

    /// The lock of a key, as it stands.
    pub fn inspect(&self, object_type: &str, key: &str) -> (l: KeyLock)
        requires
            self.inv(),
        ensures
            l@ == self.lock_of(object_type@, key@),
    {
        self.lock(object_type, key)
    }

    /// Asks for a key on behalf of an invocation: see
    /// [`KeyLockView::acquire`]. No other key is touched.
    pub fn try_acquire(
        &mut self,
        object_type: &str,
        key: &str,
        invocation: u64,
        mode: LockMode,
        now: u64,
    ) -> (a: Admission)
        requires
            old(self).inv(),
        ensures
            final(self).inv(),
            final(self).lock_of(object_type@, key@) == old(self).lock_of(object_type@, key@).acquire(
                invocation,
                mode,
                now,
            ).0,
            a@ == old(self).lock_of(object_type@, key@).acquire(invocation, mode, now).1,
            final(self).same_but(old(self), object_type@, key@),
    {
        let mut lock = self.lock(object_type, key);
        let a = lock.acquire(invocation, mode, now);
        self.store(object_type, key, lock);
        a
    }

    /// Gives a key back, or leaves its queue: see [`KeyLockView::release`].
    /// Returns the invocations that start now. No other key is touched.
    pub fn release(&mut self, object_type: &str, key: &str, invocation: u64) -> (r: Result<
        Vec<u64>,
        EngineError,
    >)
        requires
            old(self).inv(),
        ensures
            final(self).inv(),
            final(self).lock_of(object_type@, key@) == old(self).lock_of(object_type@, key@).release(
                invocation,
            ).0,
            r is Ok <==> old(self).lock_of(object_type@, key@).release(invocation).1 is Ok,
            r matches Ok(started) ==> started@ == old(self).lock_of(object_type@, key@).release(
                invocation,
            ).1->Ok_0,
            r matches Err(e) ==> old(self).lock_of(object_type@, key@).release(invocation).1 == Err::<
                Seq<u64>,
                EngineError,
            >(e),
            final(self).same_but(old(self), object_type@, key@),
    {
        let mut lock = self.lock(object_type, key);
        let r = lock.release(invocation);
        self.store(object_type, key, lock);
        r
    }

    /// The holder of a key suspends and keeps the key: see
    /// [`KeyLockView::suspend`]. Returns the shared handlers that start now.
    pub fn suspend(&mut self, object_type: &str, key: &str, invocation: u64) -> (r: Result<
        Vec<u64>,
        EngineError,
    >)
        requires
            old(self).inv(),
        ensures
            final(self).inv(),
            final(self).lock_of(object_type@, key@) == old(self).lock_of(object_type@, key@).suspend(
                invocation,
            ).0,
            r is Ok <==> old(self).lock_of(object_type@, key@).suspend(invocation).1 is Ok,
            r matches Ok(started) ==> started@ == old(self).lock_of(object_type@, key@).suspend(
                invocation,
            ).1->Ok_0,
            r matches Err(e) ==> old(self).lock_of(object_type@, key@).suspend(invocation).1 == Err::<
                Seq<u64>,
                EngineError,
            >(e),
            final(self).same_but(old(self), object_type@, key@),
    {
        let mut lock = self.lock(object_type, key);
        let r = lock.suspend(invocation);
        self.store(object_type, key, lock);
        r
    }

    /// The suspended holder of a key is woken: see [`KeyLockView::resume`].
    pub fn resume(&mut self, object_type: &str, key: &str, invocation: u64) -> (r: Result<
        Admission,
        EngineError,
    >)
        requires
            old(self).inv(),
        ensures
            final(self).inv(),
            final(self).lock_of(object_type@, key@) == old(self).lock_of(object_type@, key@).resume(
                invocation,
            ).0,
            r is Ok <==> old(self).lock_of(object_type@, key@).resume(invocation).1 is Ok,
            r matches Ok(a) ==> a@ == old(self).lock_of(object_type@, key@).resume(invocation).1->Ok_0,
            r matches Err(e) ==> old(self).lock_of(object_type@, key@).resume(invocation).1 == Err::<
                AdmissionView,
                EngineError,
            >(e),
            final(self).same_but(old(self), object_type@, key@),
    {
        let mut lock = self.lock(object_type, key);
        let r = lock.resume(invocation);
        self.store(object_type, key, lock);
        r
    }

    /// Records the result of the workflow of a key: see
    /// [`KeyLockView::complete`].
    pub fn complete_workflow(&mut self, object_type: &str, key: &str, outcome: Outcome) -> (r: Result<
        (),
        EngineError,
    >)
        requires
            old(self).inv(),
        ensures
            final(self).inv(),
            final(self).lock_of(object_type@, key@) == old(self).lock_of(
                object_type@,
                key@,
            ).complete(outcome@).0,
            r == old(self).lock_of(object_type@, key@).complete(outcome@).1,
            final(self).same_but(old(self), object_type@, key@),
    {
        let mut lock = self.lock(object_type, key);
        let r = lock.complete(outcome);
        self.store(object_type, key, lock);
        r
    }

    /// Looks after a waiter at time `now`, with the manager's bound: see
    /// [`KeyLockView::expire`].
    pub fn check_timeout(&mut self, object_type: &str, key: &str, invocation: u64, now: u64) -> (r:
        Result<(), EngineError>)
        requires
            old(self).inv(),
        ensures
            final(self).inv(),
            final(self).lock_of(object_type@, key@) == old(self).lock_of(object_type@, key@).expire(
                invocation,
                now,
                old(self).bound(),
            ).0,
            r == old(self).lock_of(object_type@, key@).expire(invocation, now, old(self).bound()).1,
            final(self).same_but(old(self), object_type@, key@),
    {
        let mut lock = self.lock(object_type, key);
        let r = lock.expire(invocation, now, self.bound);
        self.store(object_type, key, lock);
        r
    }
}

} // verus!
