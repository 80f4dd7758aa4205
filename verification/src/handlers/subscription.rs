//! Adding subscriptions for a user: one recurring payment, then one
//! subscription after the other. Three policies: stop at the first failure,
//! roll back on failure (saga), and try every subscription before judging.

use vstd::prelude::*;
use vstd::string::StringExecFns;
use crate::action::{event_views, Action, ActionView, Event, EventView};
use crate::saga::{Compensation, CompensationStack, CompensationView, compensation_views};
use crate::script::{
    args1, args2, args3, failure_message, failure_of, find_first_failure, first_failure,
    lemma_first_failure, return_failure, return_value, run_action, text_of, text_value,
};
use crate::value::{text_views, OutcomeView, Value, ValueView};

verus! {

/// The request to add subscriptions for a user.
#[derive(Debug, PartialEq, Eq)]
pub struct SubscriptionRequest {
    pub user_id: String,
    pub credit_card: String,
    pub subscriptions: Vec<String>,
}

/// What a successful parallel run reports.
#[derive(Debug, PartialEq, Eq)]
pub struct SubscriptionResult {
    pub success: bool,
    pub payment_ref: String,
}

impl SubscriptionResult {
    /// The value under which the result is returned: the list of the flag,
    /// written `true` or `false`, and the payment reference.
    pub open spec fn spec_to_value(&self) -> ValueView {
        ValueView::List(
            seq![
                if self.success {
                    "true"@
                } else {
                    "false"@
                },
                self.payment_ref@,
            ],
        )
    }

    /// The value under which the result is returned.
    pub fn to_value(&self) -> (v: Value)
        ensures
            v@ == self.spec_to_value(),
    {
        let flag = if self.success {
            String::from_str("true")
        } else {
            String::from_str("false")
        };
        Value::List(args2(&flag, &self.payment_ref))
    }
}

impl SubscriptionRequest {
    /// The names of the subscriptions asked for.
    pub open spec fn subs(&self) -> Seq<Seq<char>> {
        text_views(self.subscriptions@)
    }

    /// Drawing the payment identifier: a side effect, so that a retry works
    /// with the identifier drawn first.
    pub open spec fn uuid_step() -> ActionView {
        ActionView::Run { name: "uuid"@, args: Seq::empty() }
    }

    /// Creating the recurring payment under the identifier drawn.
    pub open spec fn pay_step(&self, payment_id: Seq<char>) -> ActionView {
        ActionView::Run { name: "pay"@, args: seq![self.credit_card@, payment_id] }
    }

    /// Creating subscription number `i` against the payment reference.
    pub open spec fn add_step(&self, i: int, pay_ref: Seq<char>) -> ActionView {
        ActionView::Run {
            name: "add-"@ + self.subs()[i],
            args: seq![self.user_id@, self.subs()[i], pay_ref],
        }
    }

    /// Step number `k` of the script: the identifier, the payment, then the
    /// subscriptions in the order of the request.
    pub open spec fn forward_step(&self, history: Seq<EventView>, k: int) -> ActionView {
        if k == 0 {
            Self::uuid_step()
        } else if k == 1 {
            self.pay_step(text_of(history[0]))
        } else {
            self.add_step(k - 2, text_of(history[1]))
        }
    }

    /// The number of steps of the script.
    pub open spec fn steps(&self) -> nat {
        self.subs().len() + 2
    }

    /// See [`Self::forward_step`].
    pub fn step(&self, history: &Vec<Event>, k: usize) -> (a: Action)
        requires
            k < self.steps(),
            k <= history@.len(),
        ensures
            a@ == self.forward_step(event_views(history@), k as int),
    {
        if k == 0 {
            let none: Vec<String> = Vec::new();
            assert(text_views(none@) =~= Seq::<Seq<char>>::empty());
            run_action("uuid", none)
        } else if k == 1 {
            assert(event_views(history@)[0] == history@[0]@);
            let payment_id = text_value(&history[0]);
            run_action("pay", args2(&self.credit_card, &payment_id))
        } else {
            assert(event_views(history@)[1] == history@[1]@);
            assert(self.subs()[k - 2] == self.subscriptions@[k - 2]@);
            let pay_ref = text_value(&history[1]);
            let sub = &self.subscriptions[k - 2];
            let name = String::from_str("add-").concat(sub.as_str());
            Action::Run { name, args: args3(&self.user_id, sub, &pay_ref) }
        }
    }

    /// Whether step `k` exists.
    pub fn has_step(&self, k: usize) -> (b: bool)
        ensures
            b == (k < self.steps()),
    {
        k < 2 || k - 2 < self.subscriptions.len()
    }
}

/// Adds subscriptions and stops at the first step that fails.
#[derive(Debug, PartialEq, Eq)]
pub struct SubscriptionService;

impl SubscriptionService {
    /// After a history: the failure of the first step that failed, if any;
    /// else the next step of the script; else success.
    pub open spec fn spec_add(req: &SubscriptionRequest, history: Seq<EventView>) -> ActionView {
        match first_failure(history, 0, history.len()) {
            Some(f) => ActionView::Return {
                outcome: OutcomeView::Failure(failure_of(history[f as int])->0),
            },
            None => if history.len() < req.steps() {
                req.forward_step(history, history.len() as int)
            } else {
                ActionView::Return { outcome: OutcomeView::Success(ValueView::Unit) }
            },
        }
    }

    /// The handler `add`: see [`Self::spec_add`].
    pub fn add(&self, req: &SubscriptionRequest, history: &Vec<Event>) -> (a: Action)
        ensures
            a@ == Self::spec_add(req, event_views(history@)),
    {
        let k = history.len();
        match find_first_failure(history, 0, k) {
            Some(f) => {
                let message = failure_message(&history[f]);
                return_failure(message.unwrap())
            },
            None => {
                if req.has_step(k) {
                    req.step(history, k)
                } else {
                    return_value(Value::Unit)
                }
            },
        }
    }
}

/// Adds subscriptions as a saga: before each step its compensation is pushed,
/// and when a step fails for good every compensation pushed so far runs, the
/// last one first, before the failure is returned.
#[derive(Debug, PartialEq, Eq)]
pub struct SubscriptionSaga;

impl SubscriptionSaga {
    /// The compensation pushed as number `j`: removing the recurring payment
    /// for `j == 0`, removing subscription `j - 1` after that.
    pub open spec fn pushed(req: &SubscriptionRequest, history: Seq<EventView>, j: int) -> CompensationView {
        if j == 0 {
            CompensationView { name: "remove-recurring-payment"@, args: seq![text_of(history[0])] }
        } else {
            CompensationView {
                name: "remove-subscription"@,
                args: seq![req.user_id@, req.subs()[j - 1]],
            }
        }
    }

    /// The compensations on the stack when step `f` fails: one for each step
    /// from the payment up to and including the failed one.
    pub open spec fn stack_at(req: &SubscriptionRequest, history: Seq<EventView>, f: nat) -> Seq<
        CompensationView,
    > {
        Seq::new(
            if f < req.steps() {
                f
            } else {
                (req.steps() - 1) as nat
            },
            |j: int| Self::pushed(req, history, j),
        )
    }

    /// After a history: as [`SubscriptionService::spec_add`] while no step
    /// has failed; after the failure of step `f`, the compensations of
    /// [`Self::stack_at`] in reverse order, one after the other whatever
    /// their results, and then the failure of step `f`.
    pub open spec fn spec_add(req: &SubscriptionRequest, history: Seq<EventView>) -> ActionView {
        match first_failure(history, 0, history.len()) {
            Some(f) => {
                let plan = Self::stack_at(req, history, f).reverse();
                let done = history.len() - f - 1;
                if done < plan.len() {
                    plan[done].action()
                } else {
                    ActionView::Return {
                        outcome: OutcomeView::Failure(failure_of(history[f as int])->0),
                    }
                }
            },
            None => if history.len() < req.steps() {
                req.forward_step(history, history.len() as int)
            } else {
                ActionView::Return { outcome: OutcomeView::Success(ValueView::Unit) }
            },
        }
    }

    /// The compensations pushed before step `f` failed, on their stack.
    pub fn compensations(req: &SubscriptionRequest, history: &Vec<Event>, f: usize) -> (stack:
        CompensationStack)
        requires
            f < history@.len(),
        ensures
            stack@ == Self::stack_at(req, event_views(history@), f as nat),
    {
        let mut stack = CompensationStack::new();
        let ghost h = event_views(history@);
        if f >= 1 {
            let payment_id = text_value(&history[0]);
            stack.push(
                Compensation {
                    name: String::from_str("remove-recurring-payment"),
                    args: args1(&payment_id),
                },
            );
            let mut j: usize = 1;
            while j < f && j - 1 < req.subscriptions.len()
                invariant
                    1 <= j <= f,
                    j <= req.steps() - 1,
                    h == event_views(history@),
                    stack@ == Seq::new(j as nat, |i: int| Self::pushed(req, h, i)),
                decreases f - j,
            {
                let sub = &req.subscriptions[j - 1];
                stack.push(
                    Compensation {
                        name: String::from_str("remove-subscription"),
                        args: args2(&req.user_id, sub),
                    },
                );
                j = j + 1;
                assert(stack@ =~= Seq::new(j as nat, |i: int| Self::pushed(req, h, i)));
            }
            assert(stack@ =~= Self::stack_at(req, h, f as nat));
        } else {
            assert(stack@ =~= Self::stack_at(req, h, f as nat));
        }
        stack
    }

    /// The handler `add`: see [`Self::spec_add`].
    pub fn add(&self, req: &SubscriptionRequest, history: &Vec<Event>) -> (a: Action)
        ensures
            a@ == Self::spec_add(req, event_views(history@)),
    {
        let k = history.len();
        match find_first_failure(history, 0, k) {
            Some(f) => {
                let plan = Self::compensations(req, history, f).unwind();
                let done = k - f - 1;
                if done < plan.len() {
                    assert(compensation_views(plan@)[done as int] == plan@[done as int]@);
                    plan[done].to_action()
                } else {
                    let message = failure_message(&history[f]);
                    return_failure(message.unwrap())
                }
            },
            None => {
                if req.has_step(k) {
                    req.step(history, k)
                } else {
                    return_value(Value::Unit)
                }
            },
        }
    }
}

/// A failed saga undoes what it did in the opposite order: when step `f` is
/// the first to fail, the compensation issued as number `done` after the
/// failure is the one pushed as number `f - 1 - done`, so the failed step is
/// compensated first and the payment last; after the last compensation the
/// failure of step `f` is returned.
pub proof fn law_saga_compensates_in_reverse(
    req: &SubscriptionRequest,
    history: Seq<EventView>,
    f: nat,
)
    requires
        first_failure(history, 0, history.len()) == Some(f),
        f < req.steps(),
    ensures
        history.len() - f - 1 < f ==> SubscriptionSaga::spec_add(req, history)
            == SubscriptionSaga::pushed(req, history, f - 1 - (history.len() - f - 1)).action(),
        history.len() - f - 1 >= f ==> SubscriptionSaga::spec_add(req, history)
            == (ActionView::Return {
            outcome: OutcomeView::Failure(failure_of(history[f as int])->0),
        }),
{
    lemma_first_failure(history, 0, history.len());
}

/// Adds subscriptions side by side: once the payment stands, every
/// subscription is attempted whatever became of the others, and the results
/// are judged in the order of the request when all are in.
#[derive(Debug, PartialEq, Eq)]
pub struct ParallelSubscriptionService;

impl ParallelSubscriptionService {
    /// After a history: the failure of the identifier or of the payment, if
    /// one of them failed; else the next step of the script while steps are
    /// left; else the failure of the first subscription that failed, and
    /// success with the payment reference where none did.
    pub open spec fn spec_add(req: &SubscriptionRequest, history: Seq<EventView>) -> ActionView {
        match first_failure(history, 0, 2) {
            Some(f) => ActionView::Return {
                outcome: OutcomeView::Failure(failure_of(history[f as int])->0),
            },
            None => if history.len() < req.steps() {
                req.forward_step(history, history.len() as int)
            } else {
                match first_failure(history, 2, history.len()) {
                    Some(f) => ActionView::Return {
                        outcome: OutcomeView::Failure(failure_of(history[f as int])->0),
                    },
                    None => ActionView::Return {
                        outcome: OutcomeView::Success(
                            ValueView::List(seq!["true"@, text_of(history[1])]),
                        ),
                    },
                }
            },
        }
    }

    /// The handler `add`: see [`Self::spec_add`].
    pub fn add(&self, req: &SubscriptionRequest, history: &Vec<Event>) -> (a: Action)
        ensures
            a@ == Self::spec_add(req, event_views(history@)),
    {
        let k = history.len();
        match find_first_failure(history, 0, 2) {
            Some(f) => {
                let message = failure_message(&history[f]);
                return_failure(message.unwrap())
            },
            None => {
                if req.has_step(k) {
                    req.step(history, k)
                } else {
                    match find_first_failure(history, 2, k) {
                        Some(f) => {
                            let message = failure_message(&history[f]);
                            return_failure(message.unwrap())
                        },
                        None => {
                            let result = SubscriptionResult {
                                success: true,
                                payment_ref: text_value(&history[1]),
                            };
                            return_value(result.to_value())
                        },
                    }
                }
            },
        }
    }
}

} // verus!
