//! Payments that are confirmed from outside: the handler starts the payment
//! with the provider, who calls back later; the call-back resolves the
//! durable promise that the handler waits on. One variant gives the provider
//! half a minute and cancels the payment after that.

use vstd::prelude::*;
use vstd::string::StringExecFns;
use crate::action::{event_views, Action, ActionView, Event, EventView};
use crate::script::{
    args1, awakeable_of, awakeable_value, failed_at, failure_of, outcome_of, outcome_value,
    return_failure_at, return_value, run_action, text_of, text_value,
};
use crate::target::{Target, TargetView};
use crate::text::{decimal, decimal_text, signed_decimal, signed_decimal_text};
use crate::value::{text_views, Outcome, OutcomeView, Value, ValueView};

verus! {

/// The request to take a payment.
#[derive(Debug, PartialEq, Eq)]
pub struct PaymentRequest {
    pub amount: i32,
    pub currency: String,
    pub customer_id: String,
    pub order_id: String,
}

/// How a payment went.
#[derive(Debug, PartialEq, Eq)]
pub struct PaymentResult {
    pub success: bool,
    pub transaction_id: Option<String>,
    pub error_message: Option<String>,
}

/// The text of an optional string: empty where there is none.
pub open spec fn optional_text(s: Option<String>) -> Seq<char> {
    match s {
        Some(t) => t@,
        None => Seq::empty(),
    }
}

/// What the provider is given to confirm a payment: the identifier of the
/// promise, and how the payment went.
#[derive(Debug, PartialEq, Eq)]
pub struct ConfirmationRequest {
    pub id: u64,
    pub result: PaymentResult,
}

/// The message with which a payment that was not confirmed in time is
/// rejected.
pub open spec fn payment_timeout() -> Seq<char> {
    "Payment timeout"@
}

/// The time that the provider has to confirm a payment: half a minute, in
/// milliseconds.
pub const CONFIRMATION_TIMEOUT_MS: u64 = 30000;

impl PaymentResult {
    /// The result as a value: the list of the flag, written `true` or
    /// `false`, the transaction identifier and the error message, each of the
    /// last two empty where there is none.
    pub open spec fn spec_to_value(&self) -> ValueView {
        ValueView::List(
            seq![
                if self.success {
                    "true"@
                } else {
                    "false"@
                },
                optional_text(self.transaction_id),
                optional_text(self.error_message),
            ],
        )
    }

    /// The result of a payment that was not confirmed in time.
    pub open spec fn timed_out() -> ValueView {
        ValueView::List(seq!["false"@, Seq::empty(), payment_timeout()])
    }

    /// See [`Self::spec_to_value`].
    pub fn to_value(&self) -> (v: Value)
        ensures
            v@ == self.spec_to_value(),
    {
        let mut l: Vec<String> = Vec::new();
        l.push(
            if self.success {
                String::from_str("true")
            } else {
                String::from_str("false")
            },
        );
        l.push(
            match &self.transaction_id {
                Some(t) => t.clone(),
                None => String::new(),
            },
        );
        l.push(
            match &self.error_message {
                Some(t) => t.clone(),
                None => String::new(),
            },
        );
        assert(text_views(l@) =~= seq![
            if self.success {
                "true"@
            } else {
                "false"@
            },
            optional_text(self.transaction_id),
            optional_text(self.error_message),
        ]);
        Value::List(l)
    }

    /// The result of a payment that was not confirmed in time: no success, no
    /// transaction, and the message of [`payment_timeout`].
    pub fn timeout() -> (r: PaymentResult)
        ensures
            !r.success,
            r.transaction_id is None,
            r.error_message matches Some(m) && m@ == payment_timeout(),
            r.spec_to_value() == Self::timed_out(),
    {
        PaymentResult {
            success: false,
            transaction_id: None,
            error_message: Some(String::from_str("Payment timeout")),
        }
    }
}

impl PaymentRequest {
    /// What the provider is told to start the payment: amount, currency,
    /// customer, order, and the identifier under which to confirm.
    pub open spec fn pay_step(&self, promise: u64) -> ActionView {
        ActionView::Run {
            name: "pay"@,
            args: seq![
                signed_decimal(self.amount as int),
                self.currency@,
                self.customer_id@,
                self.order_id@,
                decimal(promise as nat),
            ],
        }
    }

    /// See [`Self::pay_step`].
    pub fn pay(&self, promise: u64) -> (a: Action)
        ensures
            a@ == self.pay_step(promise),
    {
        let mut args: Vec<String> = Vec::new();
        args.push(signed_decimal_text(self.amount as i64));
        args.push(self.currency.clone());
        args.push(self.customer_id.clone());
        args.push(self.order_id.clone());
        args.push(decimal_text(promise));
        assert(text_views(args@) =~= seq![
            signed_decimal(self.amount as int),
            self.currency@,
            self.customer_id@,
            self.order_id@,
            decimal(promise as nat),
        ]);
        run_action("pay", args)
    }
}

/// Payments that wait for the provider's confirmation as long as it takes.
#[derive(Debug, PartialEq, Eq)]
pub struct Payments;

impl Payments {
    /// Processing a payment: a promise is created, the payment is started
    /// with the provider under the promise's identifier, and the outcome of
    /// the promise is the outcome of the payment. A start that fails for good
    /// ends the handler with that failure.
    pub open spec fn spec_process(req: &PaymentRequest, history: Seq<EventView>) -> ActionView {
        if history.len() == 0 {
            ActionView::CreateAwakeable
        } else if history.len() == 1 {
            req.pay_step(awakeable_of(history[0]))
        } else if failure_of(history[1]) is Some {
            ActionView::Return { outcome: OutcomeView::Failure(failure_of(history[1])->0) }
        } else if history.len() == 2 {
            ActionView::AwaitAwakeable { id: awakeable_of(history[0]) }
        } else {
            ActionView::Return { outcome: outcome_of(history[2]) }
        }
    }

    /// Confirming a payment: the promise of the request takes the result as
    /// its value.
    pub open spec fn spec_confirm(confirmation: &ConfirmationRequest, history: Seq<EventView>) -> ActionView {
        if history.len() == 0 {
            ActionView::ResolveAwakeable {
                id: confirmation.id,
                outcome: OutcomeView::Success(confirmation.result.spec_to_value()),
            }
        } else {
            ActionView::Return { outcome: OutcomeView::Success(ValueView::Unit) }
        }
    }

    /// The handler `process`: see [`Self::spec_process`].
    pub fn process(&self, req: &PaymentRequest, history: &Vec<Event>) -> (a: Action)
        ensures
            a@ == Self::spec_process(req, event_views(history@)),
    {
        let k = history.len();
        if k == 0 {
            return Action::CreateAwakeable;
        }
        assert(event_views(history@)[0] == history@[0]@);
        let id = awakeable_value(&history[0]);
        if k == 1 {
            return req.pay(id);
        }
        if failed_at(history, 1) {
            return return_failure_at(history, 1);
        }
        if k == 2 {
            return Action::AwaitAwakeable { id };
        }
        assert(event_views(history@)[2] == history@[2]@);
        Action::Return { outcome: outcome_value(&history[2]) }
    }

    /// The handler `confirm`: see [`Self::spec_confirm`].
    pub fn confirm(&self, confirmation: &ConfirmationRequest, history: &Vec<Event>) -> (a: Action)
        ensures
            a@ == Self::spec_confirm(confirmation, event_views(history@)),
    {
        if history.len() == 0 {
            Action::ResolveAwakeable {
                id: confirmation.id,
                outcome: Outcome::Success(confirmation.result.to_value()),
            }
        } else {
            return_value(Value::Unit)
        }
    }
}

/// Payments that give the provider [`CONFIRMATION_TIMEOUT_MS`] to confirm.
#[derive(Debug, PartialEq, Eq)]
pub struct PaymentsWithTimeout;

impl PaymentsWithTimeout {
    /// The address of the handler that ends the wait.
    pub open spec fn expire_target() -> TargetView {
        TargetView::service("PaymentsWithTimeout"@, "expire"@)
    }

    /// Whether the promise ended with the rejection that the timeout makes.
    pub open spec fn timed_out(ev: EventView) -> bool {
        outcome_of(ev) == OutcomeView::Failure(payment_timeout())
    }

    /// Processing a payment with a timeout: as [`Payments::spec_process`],
    /// but before it waits the handler sends itself, half a minute ahead, the
    /// order to reject the promise with [`payment_timeout`]. The promise
    /// takes whichever comes first. Where that is the timeout, the payment is
    /// cancelled with the provider under the reference that the start
    /// returned, and the result is the one of [`PaymentResult::timed_out`];
    /// where it is the confirmation, the result is the confirmation's.
    pub open spec fn spec_process(req: &PaymentRequest, history: Seq<EventView>) -> ActionView {
        if history.len() == 0 {
            ActionView::CreateAwakeable
        } else if history.len() == 1 {
            req.pay_step(awakeable_of(history[0]))
        } else if failure_of(history[1]) is Some {
            ActionView::Return { outcome: OutcomeView::Failure(failure_of(history[1])->0) }
        } else if history.len() == 2 {
            ActionView::Send {
                target: Self::expire_target(),
                payload: ValueView::Number(awakeable_of(history[0])),
                delay_ms: CONFIRMATION_TIMEOUT_MS,
            }
        } else if history.len() == 3 {
            ActionView::AwaitAwakeable { id: awakeable_of(history[0]) }
        } else if !Self::timed_out(history[3]) {
            ActionView::Return { outcome: outcome_of(history[3]) }
        } else if history.len() == 4 {
            ActionView::Run { name: "cancel-payment"@, args: seq![text_of(history[1])] }
        } else if failure_of(history[4]) is Some {
            ActionView::Return { outcome: OutcomeView::Failure(failure_of(history[4])->0) }
        } else {
            ActionView::Return { outcome: OutcomeView::Success(PaymentResult::timed_out()) }
        }
    }

    /// Ending the wait for a confirmation: the promise is rejected with
    /// [`payment_timeout`]. Where the confirmation came first, the rejection
    /// changes nothing.
    pub open spec fn spec_expire(promise: u64, history: Seq<EventView>) -> ActionView {
        if history.len() == 0 {
            ActionView::ResolveAwakeable {
                id: promise,
                outcome: OutcomeView::Failure(payment_timeout()),
            }
        } else {
            ActionView::Return { outcome: OutcomeView::Success(ValueView::Unit) }
        }
    }

    /// The handler `process`: see [`Self::spec_process`].
    pub fn process(&self, req: &PaymentRequest, history: &Vec<Event>) -> (a: Action)
        ensures
            a@ == Self::spec_process(req, event_views(history@)),
    {
        let k = history.len();
        if k == 0 {
            return Action::CreateAwakeable;
        }
        assert(event_views(history@)[0] == history@[0]@);
        let id = awakeable_value(&history[0]);
        if k == 1 {
            return req.pay(id);
        }
        assert(event_views(history@)[1] == history@[1]@);
        if failed_at(history, 1) {
            return return_failure_at(history, 1);
        }
        if k == 2 {
            return Action::Send {
                target: Target::service("PaymentsWithTimeout", "expire"),
                payload: Value::Number(id),
                delay_ms: CONFIRMATION_TIMEOUT_MS,
            };
        }
        if k == 3 {
            return Action::AwaitAwakeable { id };
        }
        assert(event_views(history@)[3] == history@[3]@);
        let outcome = outcome_value(&history[3]);
        let timed_out = match &outcome {
            Outcome::Failure(m) => *m == String::from_str("Payment timeout"),
            Outcome::Success(_) => false,
        };
        if !timed_out {
            return Action::Return { outcome };
        }
        if k == 4 {
            let pay_ref = text_value(&history[1]);
            return run_action("cancel-payment", args1(&pay_ref));
        }
        if failed_at(history, 4) {
            return return_failure_at(history, 4);
        }
        return_value(PaymentResult::timeout().to_value())
    }

    /// The handler `confirm`: see [`Payments::spec_confirm`].
    pub fn confirm(&self, confirmation: &ConfirmationRequest, history: &Vec<Event>) -> (a: Action)
        ensures
            a@ == Payments::spec_confirm(confirmation, event_views(history@)),
    {
        Payments.confirm(confirmation, history)
    }

    /// The handler `expire`: see [`Self::spec_expire`].
    pub fn expire(&self, promise: u64, history: &Vec<Event>) -> (a: Action)
        ensures
            a@ == Self::spec_expire(promise, event_views(history@)),
    {
        if history.len() == 0 {
            Action::ResolveAwakeable {
                id: promise,
                outcome: Outcome::Failure(String::from_str("Payment timeout")),
            }
        } else {
            return_value(Value::Unit)
        }
    }
}

} // verus!
