//! What handlers read off the results of their durable operations.

use vstd::prelude::*;
use vstd::string::StringExecFns;
use crate::action::{event_views, Action, ActionView, Event, EventView};
use crate::value::{text_views, Outcome, OutcomeView, Value, ValueView};

verus! {

/// The message under which a handler fails when an operation came back with
/// a result of a shape it cannot use.
pub open spec fn unexpected_result() -> Seq<char> {
    "unexpected result of a durable operation"@
}

/// Why the operation did not succeed: the recorded message of a failure, the
/// message of [`unexpected_result`] for an event that is no completion, and
/// `None` for a success.
pub open spec fn failure_of(ev: EventView) -> Option<Seq<char>> {
    match ev {
        EventView::Completed(OutcomeView::Success(_)) => None,
        EventView::Completed(OutcomeView::Failure(m)) => Some(m),
        _ => Some(unexpected_result()),
    }
}

/// The text that the operation produced; empty where it produced none.
pub open spec fn text_of(ev: EventView) -> Seq<char> {
    match ev {
        EventView::Completed(OutcomeView::Success(ValueView::Text(s))) => s,
        _ => Seq::empty(),
    }
}

/// The truth value that the operation produced; `false` where it produced
/// none.
pub open spec fn flag_of(ev: EventView) -> bool {
    match ev {
        EventView::Completed(OutcomeView::Success(ValueView::Bool(b))) => b,
        _ => false,
    }
}

/// The list of strings that a state read produced; empty where the field is
/// not set or holds something else.
pub open spec fn list_of(ev: EventView) -> Seq<Seq<char>> {
    match ev {
        EventView::State(Some(ValueView::List(l))) => l,
        _ => Seq::empty(),
    }
}

/// The number that a state read produced; zero where the field is not set or
/// holds something else.
pub open spec fn number_of(ev: EventView) -> u64 {
    match ev {
        EventView::State(Some(ValueView::Number(n))) => n,
        _ => 0,
    }
}

/// The identifier of the promise that the operation created or found; zero
/// where it produced none.
pub open spec fn awakeable_of(ev: EventView) -> u64 {
    match ev {
        EventView::Awakeable(id) => id,
        _ => 0,
    }
}

/// The outcome that the operation completed with; the failure of
/// [`unexpected_result`] for an event that is no completion.
pub open spec fn outcome_of(ev: EventView) -> OutcomeView {
    match ev {
        EventView::Completed(o) => o,
        _ => OutcomeView::Failure(unexpected_result()),
    }
}

/// The first position below `bound` at or after `from` whose operation did
/// not succeed.
pub open spec fn first_failure(history: Seq<EventView>, from: nat, bound: nat) -> Option<nat>
    decreases bound - from,
{
    if from >= bound || from >= history.len() {
        None
    } else if failure_of(history[from as int]) is Some {
        Some(from)
    } else {
        first_failure(history, from + 1, bound)
    }
}

/// [`first_failure`] finds the least failing position below the bound, and
/// finds one whenever there is any.
pub proof fn lemma_first_failure(history: Seq<EventView>, from: nat, bound: nat)
    ensures
        first_failure(history, from, bound) matches Some(f) ==> {
            &&& from <= f < bound
            &&& f < history.len()
            &&& failure_of(history[f as int]) is Some
            &&& forall|g: int| from <= g < f ==> failure_of(#[trigger] history[g]) is None
        },
        first_failure(history, from, bound) is None ==> forall|g: int|
            from <= g < bound && g < history.len() ==> failure_of(#[trigger] history[g]) is None,
    decreases bound - from,
{
    if from < bound && from < history.len() && failure_of(history[from as int]) is None {
        lemma_first_failure(history, from + 1, bound);
    }
}

/// See [`unexpected_result`].
pub fn unexpected_result_text() -> (s: String)
    ensures
        s@ == unexpected_result(),
{
    String::from_str("unexpected result of a durable operation")
}

/// See [`failure_of`].
pub fn failure_message(ev: &Event) -> (m: Option<String>)
    ensures
        m is Some <==> failure_of(ev@) is Some,
        m is Some ==> m->0@ == failure_of(ev@)->0,
{
    match ev {
        Event::Completed(Outcome::Success(_)) => None,
        Event::Completed(Outcome::Failure(m)) => Some(m.clone()),
        _ => Some(unexpected_result_text()),
    }
}

/// See [`text_of`].
pub fn text_value(ev: &Event) -> (s: String)
    ensures
        s@ == text_of(ev@),
{
    match ev {
        Event::Completed(Outcome::Success(Value::Text(s))) => s.clone(),
        _ => String::new(),
    }
}

/// See [`flag_of`].
pub fn flag_value(ev: &Event) -> (b: bool)
    ensures
        b == flag_of(ev@),
{
    match ev {
        Event::Completed(Outcome::Success(Value::Bool(b))) => *b,
        _ => false,
    }
}

/// See [`list_of`].
pub fn list_value(ev: &Event) -> (l: Vec<String>)
    ensures
        text_views(l@) == list_of(ev@),
{
    match ev {
        Event::State(Some(Value::List(l))) => crate::value::clone_texts(l),
        _ => {
            let l: Vec<String> = Vec::new();
            assert(text_views(l@) =~= Seq::<Seq<char>>::empty());
            l
        },
    }
}

/// See [`number_of`].
pub fn number_value(ev: &Event) -> (n: u64)
    ensures
        n == number_of(ev@),
{
    match ev {
        Event::State(Some(Value::Number(n))) => *n,
        _ => 0,
    }
}

/// See [`awakeable_of`].
pub fn awakeable_value(ev: &Event) -> (id: u64)
    ensures
        id == awakeable_of(ev@),
{
    match ev {
        Event::Awakeable(id) => *id,
        _ => 0,
    }
}

/// See [`outcome_of`].
pub fn outcome_value(ev: &Event) -> (o: Outcome)
    ensures
        o@ == outcome_of(ev@),
{
    match ev {
        Event::Completed(o) => o.clone(),
        _ => Outcome::Failure(unexpected_result_text()),
    }
}

/// See [`first_failure`].
pub fn find_first_failure(history: &Vec<Event>, from: usize, bound: usize) -> (r: Option<usize>)
    ensures
        r is Some <==> first_failure(event_views(history@), from as nat, bound as nat) is Some,
        r is Some ==> r->0 as nat == first_failure(
            event_views(history@),
            from as nat,
            bound as nat,
        )->0,
        r is Some ==> from <= r->0 < bound && r->0 < history@.len(),
        r is Some ==> failure_of(history@[r->0 as int]@) is Some,
        r is Some ==> event_views(history@)[r->0 as int] == history@[r->0 as int]@,
{
    let mut i: usize = from;
    while i < bound && i < history.len()
        invariant
            from <= i,
            first_failure(event_views(history@), i as nat, bound as nat) == first_failure(
                event_views(history@),
                from as nat,
                bound as nat,
            ),
        decreases history.len() - i,
    {
        assert(event_views(history@)[i as int] == history@[i as int]@);
        if failure_message(&history[i]).is_some() {
            return Some(i);
        }
        i = i + 1;
    }
    None
}

/// A side effect under a name, with the arguments it is captured with.
pub fn run_action(name: &str, args: Vec<String>) -> (a: Action)
    ensures
        a@ == (ActionView::Run { name: name@, args: text_views(args@) }),
{
    Action::Run { name: String::from_str(name), args }
}

/// Returning a value.
pub fn return_value(value: Value) -> (a: Action)
    ensures
        a@ == (ActionView::Return { outcome: OutcomeView::Success(value@) }),
{
    Action::Return { outcome: Outcome::Success(value) }
}

/// Returning a failure.
pub fn return_failure(message: String) -> (a: Action)
    ensures
        a@ == (ActionView::Return { outcome: OutcomeView::Failure(message@) }),
{
    Action::Return { outcome: Outcome::Failure(message) }
}

/// Returning the failure that the event at `position` reports.
pub fn return_failure_at(history: &Vec<Event>, position: usize) -> (a: Action)
    requires
        position < history@.len(),
        failure_of(history@[position as int]@) is Some,
    ensures
        a@ == (ActionView::Return {
            outcome: OutcomeView::Failure(failure_of(event_views(history@)[position as int])->0),
        }),
{
    assert(event_views(history@)[position as int] == history@[position as int]@);
    let message = failure_message(&history[position]);
    return_failure(message.unwrap())
}

/// Whether the event at `position` reports a failure.
pub fn failed_at(history: &Vec<Event>, position: usize) -> (b: bool)
    requires
        position < history@.len(),
    ensures
        b == failure_of(event_views(history@)[position as int]) is Some,
        b == failure_of(history@[position as int]@) is Some,
{
    assert(event_views(history@)[position as int] == history@[position as int]@);
    failure_message(&history[position]).is_some()
}

/// The arguments of an operation that takes one.
pub fn args1(a: &String) -> (v: Vec<String>)
    ensures
        text_views(v@) == seq![a@],
{
    let mut v: Vec<String> = Vec::new();
    v.push(a.clone());
    assert(text_views(v@) =~= seq![a@]);
    v
}

/// The arguments of an operation that takes two.
pub fn args2(a: &String, b: &String) -> (v: Vec<String>)
    ensures
        text_views(v@) == seq![a@, b@],
{
    let mut v: Vec<String> = Vec::new();
    v.push(a.clone());
    v.push(b.clone());
    assert(text_views(v@) =~= seq![a@, b@]);
    v
}

/// The arguments of an operation that takes three.
pub fn args3(a: &String, b: &String, c: &String) -> (v: Vec<String>)
    ensures
        text_views(v@) == seq![a@, b@, c@],
{
    let mut v: Vec<String> = Vec::new();
    v.push(a.clone());
    v.push(b.clone());
    v.push(c.clone());
    assert(text_views(v@) =~= seq![a@, b@, c@]);
    v
}

} // verus!
