//! Values that cross a durable operation boundary, and the outcome of an
//! operation that may fail.

use vstd::prelude::*;

verus! {

/// The mathematical content of a list of strings.
pub open spec fn text_views(v: Seq<String>) -> Seq<Seq<char>> {
    Seq::new(v.len(), |i: int| v[i]@)
}

/// A value carried by a journal entry, a state field or a handler result.
#[derive(Debug, PartialEq, Eq)]
pub enum Value {
    Unit,
    Bool(bool),
    Number(u64),
    Text(String),
    List(Vec<String>),
}

/// What a [`Value`] holds.
pub enum ValueView {
    Unit,
    Bool(bool),
    Number(u64),
    Text(Seq<char>),
    List(Seq<Seq<char>>),
}

impl View for Value {
    type V = ValueView;

    open spec fn view(&self) -> ValueView {
        match self {
            Value::Unit => ValueView::Unit,
            Value::Bool(b) => ValueView::Bool(*b),
            Value::Number(n) => ValueView::Number(*n),
            Value::Text(s) => ValueView::Text(s@),
            Value::List(l) => ValueView::List(text_views(l@)),
        }
    }
}

/// Copies a list of strings.
pub fn clone_texts(v: &Vec<String>) -> (r: Vec<String>)
    ensures
        text_views(r@) == text_views(v@),
        r@.len() == v@.len(),
{
    let mut r: Vec<String> = Vec::new();
    let mut i: usize = 0;
    while i < v.len()
        invariant
            i <= v.len(),
            r@.len() == i,
            forall|j: int| 0 <= j < i ==> r@[j]@ == v@[j]@,
        decreases v.len() - i,
    {
        r.push(v[i].clone());
        i = i + 1;
    }
    assert(text_views(r@) =~= text_views(v@));
    r
}

impl Clone for Value {
    fn clone(&self) -> (r: Self)
        ensures
            r@ == self@,
    {
        match self {
            Value::Unit => Value::Unit,
            Value::Bool(b) => Value::Bool(*b),
            Value::Number(n) => Value::Number(*n),
            Value::Text(s) => Value::Text(s.clone()),
            Value::List(l) => Value::List(clone_texts(l)),
        }
    }
}

/// The result of a durable operation: a value, or the message of a failure
/// that is final.
#[derive(Debug, PartialEq, Eq)]
pub enum Outcome {
    Success(Value),
    Failure(String),
}

/// What an [`Outcome`] holds.
pub enum OutcomeView {
    Success(ValueView),
    Failure(Seq<char>),
}

impl View for Outcome {
    type V = OutcomeView;

    open spec fn view(&self) -> OutcomeView {
        match self {
            Outcome::Success(v) => OutcomeView::Success(v@),
            Outcome::Failure(m) => OutcomeView::Failure(m@),
        }
    }
}

impl Clone for Outcome {
    fn clone(&self) -> (r: Self)
        ensures
            r@ == self@,
    {
        match self {
            Outcome::Success(v) => Outcome::Success(v.clone()),
            Outcome::Failure(m) => Outcome::Failure(m.clone()),
        }
    }
}

} // verus!
