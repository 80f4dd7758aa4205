//! The saga helper: compensating actions are pushed as the steps of a saga
//! are taken, and run in reverse order when a step fails for good.

use vstd::prelude::*;
use crate::action::{Action, ActionView};
use crate::value::{clone_texts, text_views};

verus! {

/// A compensating action as data: the name of the action and the arguments it
/// was captured with, so that a rollback can be inspected and reproduced.
#[derive(Debug, PartialEq, Eq)]
pub struct Compensation {
    pub name: String,
    pub args: Vec<String>,
}

/// What a [`Compensation`] holds.
pub struct CompensationView {
    pub name: Seq<char>,
    pub args: Seq<Seq<char>>,
}

impl CompensationView {
    /// The operation that runs this compensation: a side effect under the
    /// compensation's name, with its arguments.
    pub open spec fn action(self) -> ActionView {
        ActionView::Run { name: self.name, args: self.args }
    }
}

impl View for Compensation {
    type V = CompensationView;

    open spec fn view(&self) -> CompensationView {
        CompensationView { name: self.name@, args: text_views(self.args@) }
    }
}

impl Clone for Compensation {
    fn clone(&self) -> (r: Self)
        ensures
            r@ == self@,
    {
        Compensation { name: self.name.clone(), args: clone_texts(&self.args) }
    }
}

impl Compensation {
    /// The operation that runs this compensation.
    pub fn to_action(&self) -> (a: Action)
        ensures
            a@ == self@.action(),
    {
        Action::Run { name: self.name.clone(), args: clone_texts(&self.args) }
    }
}

/// The contents of a list of compensations.
pub open spec fn compensation_views(v: Seq<Compensation>) -> Seq<CompensationView> {
    Seq::new(v.len(), |i: int| v[i]@)
}

/// The compensations of one attempt, in the order in which they were pushed.
/// It lives in memory only: a new attempt builds it again from the journal.
pub struct CompensationStack {
    steps: Vec<Compensation>,
}

impl View for CompensationStack {
    type V = Seq<CompensationView>;

    closed spec fn view(&self) -> Seq<CompensationView> {
        compensation_views(self.steps@)
    }
}

impl CompensationStack {
    /// A stack without compensations.
    pub fn new() -> (s: Self)
        ensures
            s@ == Seq::<CompensationView>::empty(),
    {
        let s = CompensationStack { steps: Vec::new() };
        assert(s@ =~= Seq::<CompensationView>::empty());
        s
    }

    /// The number of compensations pushed.
    pub fn len(&self) -> (n: usize)
        ensures
            n == self@.len(),
    {
        self.steps.len()
    }

    /// Whether nothing has been pushed.
    pub fn is_empty(&self) -> (b: bool)
        ensures
            b == (self@.len() == 0),
    {
        self.steps.len() == 0
    }

    /// Pushes the compensation of the step that is about to be taken.
    pub fn push(&mut self, step: Compensation)
        ensures
            final(self)@ == old(self)@.push(step@),
    {
        self.steps.push(step);
        assert(self@ =~= old(self)@.push(step@));
    }

    /// Takes the compensation pushed last off the stack, if there is one.
    pub fn pop(&mut self) -> (step: Option<Compensation>)
        ensures
            old(self)@.len() == 0 ==> step is None && final(self)@ == old(self)@,
            old(self)@.len() > 0 ==> step is Some && step->0@ == old(self)@.last() && final(self)@
                == old(self)@.drop_last(),
    {
        let step = self.steps.pop();
        assert(self@ =~= if old(self)@.len() == 0 {
            old(self)@
        } else {
            old(self)@.drop_last()
        });
        step
    }

    /// The rollback plan: every compensation pushed, the last one first.
    pub fn unwind(self) -> (plan: Vec<Compensation>)
        ensures
            compensation_views(plan@) == self@.reverse(),
    {
        let mut steps = self.steps;
        let ghost pushed = compensation_views(steps@);
        let mut plan: Vec<Compensation> = Vec::new();
        while steps.len() > 0
            invariant
                steps@.len() + plan@.len() == pushed.len(),
                forall|i: int| 0 <= i < steps@.len() ==> steps@[i]@ == pushed[i],
                forall|i: int|
                    0 <= i < plan@.len() ==> plan@[i]@ == pushed[pushed.len() - 1 - i],
            decreases steps@.len(),
        {
            let step = steps.pop().unwrap();
            plan.push(step);
        }
        assert(compensation_views(plan@) =~= pushed.reverse());
        plan
    }
}

/// The rollback plan holds exactly the compensations that were pushed, in the
/// opposite order: the compensation at place `i` of the plan is the one
/// pushed as number `len - 1 - i`.
pub proof fn law_unwind_reverses(pushed: Seq<CompensationView>, i: int)
    requires
        0 <= i < pushed.len(),
    ensures
        pushed.reverse().len() == pushed.len(),
        pushed.reverse()[i] == pushed[pushed.len() - 1 - i],
        pushed.reverse().reverse() == pushed,
{
    assert(pushed.reverse().reverse() =~= pushed);
}

} // verus!
