//! The timer service: durable delayed triggers.

use vstd::prelude::*;
use crate::error::EngineError;
use crate::target::{Target, TargetView};
use crate::value::{Value, ValueView};

verus! {

/// What a timer does when it fires.
#[derive(Debug, PartialEq, Eq)]
pub enum TimerPayload {
    /// It ends the sleep of the invocation that scheduled it.
    Wake,
    /// It starts a new invocation: a message that was sent with a delay.
    Send { target: Target, payload: Value },
}

/// What a [`TimerPayload`] holds.
pub enum TimerPayloadView {
    Wake,
    Send { target: TargetView, payload: ValueView },
}

impl View for TimerPayload {
    type V = TimerPayloadView;

    open spec fn view(&self) -> TimerPayloadView {
        match self {
            TimerPayload::Wake => TimerPayloadView::Wake,
            TimerPayload::Send { target, payload } => TimerPayloadView::Send {
                target: target@,
                payload: payload@,
            },
        }
    }
}

impl Clone for TimerPayload {
    fn clone(&self) -> (r: Self)
        ensures
            r@ == self@,
    {
        match self {
            TimerPayload::Wake => TimerPayload::Wake,
            TimerPayload::Send { target, payload } => TimerPayload::Send {
                target: target.clone(),
                payload: payload.clone(),
            },
        }
    }
}

/// The life of a timer: it fires once or is cancelled, and stays so.
#[derive(Debug, Clone, Copy, PartialEq, Eq, Structural)]
pub enum TimerState {
    Pending,
    Fired,
    Cancelled,
}

/// A timer.
#[derive(Debug, PartialEq, Eq)]
pub struct Timer {
    pub invocation: u64,
    pub fire_at: u64,
    pub payload: TimerPayload,
    pub state: TimerState,
}

/// What a [`Timer`] holds.
pub struct TimerView {
    pub invocation: u64,
    pub fire_at: u64,
    pub payload: TimerPayloadView,
    pub state: TimerState,
}

impl TimerView {
    /// The timer in another state.
    pub open spec fn with_state(self, state: TimerState) -> TimerView {
        TimerView { state: state, ..self }
    }

    /// Whether the timer is pending and its time has come.
    pub open spec fn due(self, now: u64) -> bool {
        self.state is Pending && self.fire_at <= now
    }
}

impl View for Timer {
    type V = TimerView;

    open spec fn view(&self) -> TimerView {
        TimerView {
            invocation: self.invocation,
            fire_at: self.fire_at,
            payload: self.payload@,
            state: self.state,
        }
    }
}

/// What became of a delivery.
#[derive(Debug, PartialEq, Eq)]
pub enum Delivery {
    /// The timer fired, now and never before: act on its payload.
    Fired { invocation: u64, payload: TimerPayload },
    /// The timer's time has not come; it stays pending.
    Early,
    /// The timer fired before: this delivery is a repeat and does nothing.
    Duplicate,
    /// The timer was cancelled.
    Cancelled,
    /// No timer under that identifier.
    Unknown,
}

/// What a [`Delivery`] holds.
pub enum DeliveryView {
    Fired { invocation: u64, payload: TimerPayloadView },
    Early,
    Duplicate,
    Cancelled,
    Unknown,
}

impl View for Delivery {
    type V = DeliveryView;

    open spec fn view(&self) -> DeliveryView {
        match self {
            Delivery::Fired { invocation, payload } => DeliveryView::Fired {
                invocation: *invocation,
                payload: payload@,
            },
            Delivery::Early => DeliveryView::Early,
            Delivery::Duplicate => DeliveryView::Duplicate,
            Delivery::Cancelled => DeliveryView::Cancelled,
            Delivery::Unknown => DeliveryView::Unknown,
        }
    }
}

/// Delivering a timer at time `now`. Gives the timers after, and what became
/// of the delivery. Only a pending timer whose time has come fires, and
/// firing is the only change a delivery makes.
pub open spec fn deliver_spec(timers: Seq<TimerView>, id: u64, now: u64) -> (
    Seq<TimerView>,
    DeliveryView,
) {
    if id >= timers.len() {
        (timers, DeliveryView::Unknown)
    } else {
        let t = timers[id as int];
        match t.state {
            TimerState::Fired => (timers, DeliveryView::Duplicate),
            TimerState::Cancelled => (timers, DeliveryView::Cancelled),
            TimerState::Pending => if now < t.fire_at {
                (timers, DeliveryView::Early)
            } else {
                (
                    timers.update(id as int, t.with_state(TimerState::Fired)),
                    DeliveryView::Fired { invocation: t.invocation, payload: t.payload },
                )
            },
        }
    }
}

/// Cancelling a timer. Gives the timers after, and `Ok` where a pending timer
/// was cancelled, `AlreadyCompleted` where the timer had fired or was
/// cancelled before, `UnknownTimer` where there is none.
pub open spec fn cancel_spec(timers: Seq<TimerView>, id: u64) -> (
    Seq<TimerView>,
    Result<(), EngineError>,
) {
    if id >= timers.len() {
        (timers, Err(EngineError::UnknownTimer))
    } else if !(timers[id as int].state is Pending) {
        (timers, Err(EngineError::AlreadyCompleted))
    } else {
        (timers.update(id as int, timers[id as int].with_state(TimerState::Cancelled)), Ok(()))
    }
}

/// The timers after every pending timer of one invocation is cancelled.
pub open spec fn cancel_for_spec(timers: Seq<TimerView>, invocation: u64) -> Seq<TimerView> {
    Seq::new(
        timers.len(),
        |i: int|
            if timers[i].invocation == invocation && timers[i].state is Pending {
                timers[i].with_state(TimerState::Cancelled)
            } else {
                timers[i]
            },
    )
}

/// Whether timer `a` comes before timer `b` in the order of firing: by fire
/// time, and by identifier among timers of one fire time.
pub open spec fn fires_before(timers: Seq<TimerView>, a: int, b: int) -> bool {
    timers[a].fire_at < timers[b].fire_at || (timers[a].fire_at == timers[b].fire_at && a <= b)
}

/// The timers of an engine. Identifiers are handed out in order, from 0.
pub struct TimerService {
    timers: Vec<Timer>,
}

impl View for TimerService {
    type V = Seq<TimerView>;

    /// The timers by identifier.
    closed spec fn view(&self) -> Seq<TimerView> {
        Seq::new(self.timers@.len(), |i: int| self.timers@[i]@)
    }
}

impl TimerService {
    /// A service without timers.
    pub fn new() -> (s: Self)
        ensures
            s@ == Seq::<TimerView>::empty(),
    {
        let s = TimerService { timers: Vec::new() };
        assert(s@ =~= Seq::<TimerView>::empty());
        s
    }

    /// The number of timers scheduled so far.
    pub fn len(&self) -> (n: usize)
        ensures
            n == self@.len(),
    {
        self.timers.len()
    }

    /// Schedules a timer for `invocation` and returns its identifier, which
    /// no timer had before.
    pub fn schedule(&mut self, invocation: u64, fire_at: u64, payload: TimerPayload) -> (id: u64)
        ensures
            id == old(self)@.len(),
            final(self)@ == old(self)@.push(
                TimerView { invocation, fire_at, payload: payload@, state: TimerState::Pending },
            ),
    {
        let id = self.timers.len() as u64;
        self.timers.push(Timer { invocation, fire_at, payload, state: TimerState::Pending });
        assert(self@ =~= old(self)@.push(
            TimerView { invocation, fire_at, payload: payload@, state: TimerState::Pending },
        ));
        id
    }

    /// The state of a timer.
    pub fn state(&self, id: u64) -> (r: Option<TimerState>)
        ensures
            r == if id < self@.len() {
                Some(self@[id as int].state)
            } else {
                None
            },
    {
        if id >= self.timers.len() as u64 {
            return None;
        }
        Some(self.timers[id as usize].state)
    }

    fn set_state(&mut self, i: usize, state: TimerState)
        requires
            i < old(self)@.len(),
        ensures
            final(self)@ == old(self)@.update(i as int, old(self)@[i as int].with_state(state)),
            final(self).timers@.len() == old(self).timers@.len(),
    {
        let t = &self.timers[i];
        let changed = Timer {
            invocation: t.invocation,
            fire_at: t.fire_at,
            payload: t.payload.clone(),
            state,
        };
        self.timers.set(i, changed);
        assert(self@ =~= old(self)@.update(i as int, old(self)@[i as int].with_state(state)));
    }

    /// Cancels a pending timer: see [`cancel_spec`].
    pub fn cancel(&mut self, id: u64) -> (r: Result<(), EngineError>)
        ensures
            final(self)@ == cancel_spec(old(self)@, id).0,
            r == cancel_spec(old(self)@, id).1,
    {
        if id >= self.timers.len() as u64 {
            return Err(EngineError::UnknownTimer);
        }
        let i = id as usize;
        if self.timers[i].state != TimerState::Pending {
            return Err(EngineError::AlreadyCompleted);
        }
        self.set_state(i, TimerState::Cancelled);
        Ok(())
    }

    /// Cancels every pending timer of an invocation, as when the invocation
    /// completes: see [`cancel_for_spec`]. Returns how many were cancelled.
    pub fn cancel_for(&mut self, invocation: u64) -> (cancelled: usize)
        ensures
            final(self)@ == cancel_for_spec(old(self)@, invocation),
            cancelled <= old(self)@.len(),
    {
        let mut cancelled: usize = 0;
        let mut i: usize = 0;
        let ghost before = self@;
        while i < self.timers.len()
            invariant
                i <= self.timers.len(),
                cancelled <= i,
                self.timers@.len() == before.len(),
                self@.len() == before.len(),
                forall|j: int| 0 <= j < i ==> self@[j] == cancel_for_spec(before, invocation)[j],
                forall|j: int| i <= j < before.len() ==> self@[j] == before[j],
            decreases self.timers.len() - i,
        {
            if self.timers[i].invocation == invocation && self.timers[i].state
                == TimerState::Pending {
                self.set_state(i, TimerState::Cancelled);
                cancelled = cancelled + 1;
            }
            i = i + 1;
        }
        assert(self@ =~= cancel_for_spec(before, invocation));
        cancelled
    }

    /// Delivers a timer at time `now`: see [`deliver_spec`].
    pub fn deliver(&mut self, id: u64, now: u64) -> (d: Delivery)
        ensures
            final(self)@ == deliver_spec(old(self)@, id, now).0,
            d@ == deliver_spec(old(self)@, id, now).1,
    {
        if id >= self.timers.len() as u64 {
            return Delivery::Unknown;
        }
        let i = id as usize;
        match self.timers[i].state {
            TimerState::Fired => Delivery::Duplicate,
            TimerState::Cancelled => Delivery::Cancelled,
            TimerState::Pending => {
                if now < self.timers[i].fire_at {
                    Delivery::Early
                } else {
                    let invocation = self.timers[i].invocation;
                    let payload = self.timers[i].payload.clone();
                    self.set_state(i, TimerState::Fired);
                    Delivery::Fired { invocation, payload }
                }
            },
        }
    }

    /// The timer to deliver next at time `now`: among the pending timers
    /// whose time has come, the first in the order of firing (see
    /// [`fires_before`]); `None` where no timer is due.
    pub fn next_due(&self, now: u64) -> (r: Option<u64>)
        ensures
            r is None <==> forall|j: int| 0 <= j < self@.len() ==> !(#[trigger] self@[j]).due(now),
            r matches Some(id) ==> {
                &&& id < self@.len()
                &&& self@[id as int].due(now)
                &&& forall|j: int|
                    0 <= j < self@.len() && (#[trigger] self@[j]).due(now) ==> fires_before(
                        self@,
                        id as int,
                        j,
                    )
            },
    {
        let mut best: Option<usize> = None;
        let mut i: usize = 0;
        while i < self.timers.len()
            invariant
                i <= self.timers.len(),
                best is None <==> forall|j: int| 0 <= j < i ==> !(#[trigger] self@[j]).due(now),
                best matches Some(b) ==> {
                    &&& b < i
                    &&& self@[b as int].due(now)
                    &&& forall|j: int|
                        0 <= j < i && (#[trigger] self@[j]).due(now) ==> fires_before(
                            self@,
                            b as int,
                            j,
                        )
                },
            decreases self.timers.len() - i,
        {
            let t = &self.timers[i];
            assert(self@[i as int] == t@);
            if t.state == TimerState::Pending && t.fire_at <= now {
                match best {
                    None => {
                        best = Some(i);
                    },
                    Some(b) => {
                        if t.fire_at < self.timers[b].fire_at {
                            best = Some(i);
                        }
                    },
                }
            }
            i = i + 1;
        }
        match best {
            Some(b) => Some(b as u64),
            None => None,
        }
    }
}

/// A timer fires at most once and never early: a delivery that fires it comes
/// at or after its fire time, and after it has fired every further delivery,
/// at whatever time, is a `Duplicate` that changes nothing.
pub proof fn law_timer_fires_once(timers: Seq<TimerView>, id: u64, now: u64, later: u64)
    requires
        deliver_spec(timers, id, now).1 is Fired,
    ensures
        now >= timers[id as int].fire_at,
        deliver_spec(deliver_spec(timers, id, now).0, id, later) == (
            deliver_spec(timers, id, now).0,
            DeliveryView::Duplicate,
        ),
{
}

/// A delivery before the fire time does nothing, and a cancelled timer never
/// fires.
pub proof fn law_timer_not_before(timers: Seq<TimerView>, id: u64, now: u64)
    requires
        id < timers.len(),
    ensures
        now < timers[id as int].fire_at ==> deliver_spec(timers, id, now).0 == timers
            && !(deliver_spec(timers, id, now).1 is Fired),
        cancel_spec(timers, id).1 is Ok ==> deliver_spec(cancel_spec(timers, id).0, id, now) == (
            cancel_spec(timers, id).0,
            DeliveryView::Cancelled,
        ),
{
}

} // verus!
