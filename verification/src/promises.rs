//! The promise registry: durable promises that any holder of the identifier
//! can resolve or reject, once.

use vstd::prelude::*;
use crate::error::EngineError;
use crate::value::{Outcome, OutcomeView, Value};

verus! {

/// A durable promise: the invocation that created it, and its outcome once
/// it has one.
#[derive(Debug, PartialEq, Eq)]
pub struct Promise {
    pub owner: u64,
    pub outcome: Option<Outcome>,
}

/// What a [`Promise`] holds. A promise without an outcome is pending; with a
/// `Success` it is resolved, with a `Failure` rejected.
pub struct PromiseView {
    pub owner: u64,
    pub outcome: Option<OutcomeView>,
}

/// The content of an optional outcome.
pub open spec fn optional_outcome(o: Option<Outcome>) -> Option<OutcomeView> {
    match o {
        Some(x) => Some(x@),
        None => None,
    }
}

impl View for Promise {
    type V = PromiseView;

    open spec fn view(&self) -> PromiseView {
        PromiseView { owner: self.owner, outcome: optional_outcome(self.outcome) }
    }
}

/// Settling a promise. Gives the registry after, and the owner of the promise
/// or why nothing was done.
///
/// - No promise under `id`: `UnknownPromise`.
/// - The promise has an outcome: `AlreadyResolved`, and the registry is as it
///   was; the first outcome stands.
/// - Else the promise takes the outcome.
pub open spec fn settle_spec(registry: Seq<PromiseView>, id: u64, outcome: OutcomeView) -> (
    Seq<PromiseView>,
    Result<u64, EngineError>,
) {
    if id >= registry.len() {
        (registry, Err(EngineError::UnknownPromise))
    } else if registry[id as int].outcome is Some {
        (registry, Err(EngineError::AlreadyResolved))
    } else {
        (
            registry.update(
                id as int,
                PromiseView { owner: registry[id as int].owner, outcome: Some(outcome) },
            ),
            Ok(registry[id as int].owner),
        )
    }
}

/// The promises of an engine. Identifiers are handed out in order, from 0.
pub struct PromiseRegistry {
    promises: Vec<Promise>,
}

impl View for PromiseRegistry {
    type V = Seq<PromiseView>;

    /// The promises by identifier.
    closed spec fn view(&self) -> Seq<PromiseView> {
        Seq::new(self.promises@.len(), |i: int| self.promises@[i]@)
    }
}

impl PromiseRegistry {
    /// A registry without promises.
    pub fn new() -> (r: Self)
        ensures
            r@ == Seq::<PromiseView>::empty(),
    {
        let r = PromiseRegistry { promises: Vec::new() };
        assert(r@ =~= Seq::<PromiseView>::empty());
        r
    }

    /// The number of promises created.
    pub fn len(&self) -> (n: usize)
        ensures
            n == self@.len(),
    {
        self.promises.len()
    }

    /// Creates a pending promise for the invocation `owner` and returns its
    /// identifier, which no promise had before.
    pub fn create(&mut self, owner: u64) -> (id: u64)
        ensures
            id == old(self)@.len(),
            final(self)@ == old(self)@.push(PromiseView { owner, outcome: None }),
    {
        let id = self.promises.len() as u64;
        self.promises.push(Promise { owner, outcome: None });
        assert(self@ =~= old(self)@.push(PromiseView { owner, outcome: None }));
        id
    }

    /// Gives the promise its outcome, if it has none yet: see
    /// [`settle_spec`].
    pub fn settle(&mut self, id: u64, outcome: Outcome) -> (r: Result<u64, EngineError>)
        ensures
            final(self)@ == settle_spec(old(self)@, id, outcome@).0,
            r == settle_spec(old(self)@, id, outcome@).1,
    {
        if id >= self.promises.len() as u64 {
            return Err(EngineError::UnknownPromise);
        }
        let i = id as usize;
        if self.promises[i].outcome.is_some() {
            return Err(EngineError::AlreadyResolved);
        }
        let owner = self.promises[i].owner;
        self.promises.set(i, Promise { owner, outcome: Some(outcome) });
        assert(self@ =~= settle_spec(old(self)@, id, outcome@).0);
        Ok(owner)
    }

    /// Resolves the promise with a value: [`Self::settle`] with a success.
    pub fn resolve(&mut self, id: u64, value: Value) -> (r: Result<u64, EngineError>)
        ensures
            final(self)@ == settle_spec(old(self)@, id, OutcomeView::Success(value@)).0,
            r == settle_spec(old(self)@, id, OutcomeView::Success(value@)).1,
    {
        self.settle(id, Outcome::Success(value))
    }

    /// Rejects the promise with a message: [`Self::settle`] with a failure.
    pub fn reject(&mut self, id: u64, message: String) -> (r: Result<u64, EngineError>)
        ensures
            final(self)@ == settle_spec(old(self)@, id, OutcomeView::Failure(message@)).0,
            r == settle_spec(old(self)@, id, OutcomeView::Failure(message@)).1,
    {
        self.settle(id, Outcome::Failure(message))
    }

    /// The outcome of the promise: `Ok(None)` while it is pending,
    /// `UnknownPromise` where there is none under `id`.
    pub fn poll(&self, id: u64) -> (r: Result<Option<Outcome>, EngineError>)
        ensures
            id >= self@.len() ==> r == Err::<Option<Outcome>, EngineError>(
                EngineError::UnknownPromise,
            ),
            id < self@.len() ==> (r matches Ok(o) && optional_outcome(o) == self@[id as int].outcome),
    {
        if id >= self.promises.len() as u64 {
            return Err(EngineError::UnknownPromise);
        }
        match &self.promises[id as usize].outcome {
            Some(o) => Ok(Some(o.clone())),
            None => Ok(None),
        }
    }

    /// The invocation that created the promise.
    pub fn owner(&self, id: u64) -> (r: Option<u64>)
        ensures
            r == if id < self@.len() {
                Some(self@[id as int].owner)
            } else {
                None
            },
    {
        if id >= self.promises.len() as u64 {
            return None;
        }
        Some(self.promises[id as usize].owner)
    }
}

/// A promise is settled once: whoever settles it second, with whatever
/// outcome, is told `AlreadyResolved`, and the registry keeps the first
/// outcome.
pub proof fn law_first_outcome_stands(
    registry: Seq<PromiseView>,
    id: u64,
    first: OutcomeView,
    second: OutcomeView,
)
    requires
        settle_spec(registry, id, first).1 is Ok,
    ensures
        settle_spec(registry, id, first).0[id as int].outcome == Some(first),
        settle_spec(settle_spec(registry, id, first).0, id, second) == (
            settle_spec(registry, id, first).0,
            Err::<u64, EngineError>(EngineError::AlreadyResolved),
        ),
{
}

/// Settling one promise leaves every other promise as it was, and never
/// creates or removes one.
pub proof fn law_settle_is_local(registry: Seq<PromiseView>, id: u64, outcome: OutcomeView, other: u64)
    requires
        other != id,
        other < registry.len(),
    ensures
        settle_spec(registry, id, outcome).0.len() == registry.len(),
        settle_spec(registry, id, outcome).0[other as int] == registry[other as int],
{
}

} // verus!
