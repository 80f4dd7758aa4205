//! The building blocks in use: a service that goes through all of them, the
//! subscriptions of a user kept in a virtual object, and the signup of a user
//! as a workflow.

use vstd::prelude::*;
use vstd::string::StringExecFns;
use crate::action::{event_views, Action, ActionView, Event, EventView};
use crate::handlers::subscription::{SubscriptionRequest, SubscriptionService};
use crate::script::{
    args2, args3, awakeable_of, awakeable_value, failed_at, failure_of, list_of, list_value,
    return_failure_at, return_value, run_action, text_of, text_value,
};
use crate::stubs::User;
use crate::target::{Target, TargetView};
use crate::text::{insert_text, with_member};
use crate::value::{text_views, Outcome, OutcomeView, Value, ValueView};

verus! {

/// The pause and the delay that the tour of the building blocks uses, in
/// milliseconds.
pub const TOUR_DELAY_MS: u64 = 5000;

/// A service that uses every durable building block once.
#[derive(Debug, PartialEq, Eq)]
pub struct MyServiceImpl;

impl MyServiceImpl {
    /// The address of the subscription object that the tour talks to.
    pub open spec fn create_target() -> TargetView {
        TargetView::keyed("SubscriptionObject"@, "my-sub-123"@, "create"@)
    }

    /// The address to which the tour sends the delayed cancellation.
    pub open spec fn cancel_target() -> TargetView {
        TargetView::keyed("SubscriptionObject"@, "my-sub-123"@, "cancel"@)
    }

    /// The tour, step by step: a durable call; the same request as a
    /// message; a promise, awaited and then resolved with `hello`; a sleep of
    /// five seconds; a message delayed by five seconds; an idempotency key,
    /// and a charge under it. A call, an await or an effect that fails for
    /// good ends the tour with that failure.
    pub open spec fn spec_run(history: Seq<EventView>) -> ActionView {
        if history.len() == 0 {
            ActionView::Call { target: Self::create_target(), payload: ValueView::Text("my-request"@) }
        } else if failure_of(history[0]) is Some {
            ActionView::Return { outcome: OutcomeView::Failure(failure_of(history[0])->0) }
        } else if history.len() == 1 {
            ActionView::Send {
                target: Self::create_target(),
                payload: ValueView::Text("my-request"@),
                delay_ms: 0,
            }
        } else if history.len() == 2 {
            ActionView::CreateAwakeable
        } else if history.len() == 3 {
            ActionView::AwaitAwakeable { id: awakeable_of(history[2]) }
        } else if failure_of(history[3]) is Some {
            ActionView::Return { outcome: OutcomeView::Failure(failure_of(history[3])->0) }
        } else if history.len() == 4 {
            ActionView::ResolveAwakeable {
                id: awakeable_of(history[2]),
                outcome: OutcomeView::Success(ValueView::Text("hello"@)),
            }
        } else if history.len() == 5 {
            ActionView::Sleep { duration_ms: TOUR_DELAY_MS }
        } else if history.len() == 6 {
            ActionView::Send {
                target: Self::cancel_target(),
                payload: ValueView::Unit,
                delay_ms: TOUR_DELAY_MS,
            }
        } else if history.len() == 7 {
            ActionView::Run { name: "uuid"@, args: Seq::empty() }
        } else if failure_of(history[7]) is Some {
            ActionView::Return { outcome: OutcomeView::Failure(failure_of(history[7])->0) }
        } else if history.len() == 8 {
            ActionView::Run { name: "charge-bank-account"@, args: seq![text_of(history[7]), "100"@] }
        } else if failure_of(history[8]) is Some {
            ActionView::Return { outcome: OutcomeView::Failure(failure_of(history[8])->0) }
        } else {
            ActionView::Return { outcome: OutcomeView::Success(ValueView::Unit) }
        }
    }

    /// The handler `run`: see [`Self::spec_run`].
    pub fn run(&self, history: &Vec<Event>) -> (a: Action)
        ensures
            a@ == Self::spec_run(event_views(history@)),
    {
        let k = history.len();
        if k == 0 {
            return Action::Call {
                target: Target::keyed("SubscriptionObject", "my-sub-123", "create"),
                payload: Value::Text(String::from_str("my-request")),
            };
        }
        if failed_at(history, 0) {
            return return_failure_at(history, 0);
        }
        if k == 1 {
            return Action::Send {
                target: Target::keyed("SubscriptionObject", "my-sub-123", "create"),
                payload: Value::Text(String::from_str("my-request")),
                delay_ms: 0,
            };
        }
        if k == 2 {
            return Action::CreateAwakeable;
        }
        assert(event_views(history@)[2] == history@[2]@);
        let id = awakeable_value(&history[2]);
        if k == 3 {
            return Action::AwaitAwakeable { id };
        }
        if failed_at(history, 3) {
            return return_failure_at(history, 3);
        }
        if k == 4 {
            return Action::ResolveAwakeable {
                id,
                outcome: Outcome::Success(Value::Text(String::from_str("hello"))),
            };
        }
        if k == 5 {
            return Action::Sleep { duration_ms: TOUR_DELAY_MS };
        }
        if k == 6 {
            return Action::Send {
                target: Target::keyed("SubscriptionObject", "my-sub-123", "cancel"),
                payload: Value::Unit,
                delay_ms: TOUR_DELAY_MS,
            };
        }
        if k == 7 {
            let none: Vec<String> = Vec::new();
            assert(text_views(none@) =~= Seq::<Seq<char>>::empty());
            return run_action("uuid", none);
        }
        assert(event_views(history@)[7] == history@[7]@);
        if failed_at(history, 7) {
            return return_failure_at(history, 7);
        }
        if k == 8 {
            let key = text_value(&history[7]);
            let amount = String::from_str("100");
            return run_action("charge-bank-account", args2(&key, &amount));
        }
        if failed_at(history, 8) {
            return return_failure_at(history, 8);
        }
        return_value(Value::Unit)
    }
}

/// The subscription object that the tour talks to, and the service that adds
/// subscriptions in durable steps.
#[derive(Debug, PartialEq, Eq)]
pub struct SubscriptionServiceImpl;

impl SubscriptionServiceImpl {
    /// Creating a subscription: the answer is `SUCCESS`, at once.
    pub open spec fn spec_create(history: Seq<EventView>) -> ActionView {
        ActionView::Return { outcome: OutcomeView::Success(ValueView::Text("SUCCESS"@)) }
    }

    /// Cancelling all subscriptions of a user: done at once.
    pub open spec fn spec_cancel(history: Seq<EventView>) -> ActionView {
        ActionView::Return { outcome: OutcomeView::Success(ValueView::Unit) }
    }

    /// The line that reports a cancellation.
    pub open spec fn cancel_line(key: Seq<char>) -> Seq<char> {
        "Cancelling all subscriptions for user "@ + key
    }

    /// The handler `add`: see [`SubscriptionService::spec_add`].
    pub fn add(&self, req: &SubscriptionRequest, history: &Vec<Event>) -> (a: Action)
        ensures
            a@ == SubscriptionService::spec_add(req, event_views(history@)),
    {
        SubscriptionService.add(req, history)
    }

    /// The handler `create`: see [`Self::spec_create`].
    pub fn create(&self, _user_id: &String, history: &Vec<Event>) -> (a: Action)
        ensures
            a@ == Self::spec_create(event_views(history@)),
    {
        return_value(Value::Text(String::from_str("SUCCESS")))
    }

    /// The handler `cancel`: see [`Self::spec_cancel`].
    pub fn cancel(&self, history: &Vec<Event>) -> (a: Action)
        ensures
            a@ == Self::spec_cancel(event_views(history@)),
    {
        return_value(Value::Unit)
    }

    /// The line that reports the cancellation for the user `key`.
    pub fn cancellation_line(&self, key: &str) -> (line: String)
        ensures
            line@ == Self::cancel_line(key@),
    {
        let mut line = String::from_str("Cancelling all subscriptions for user ");
        line.append(key);
        line
    }
}

/// The field that holds a user's subscriptions.
pub open spec fn subscriptions_key() -> Seq<char> {
    "subscriptions"@
}

/// The field that holds the time of the last change.
pub open spec fn last_updated_key() -> Seq<char> {
    "lastUpdated"@
}

/// The subscriptions of a user: a virtual object with the fields
/// `subscriptions` and `lastUpdated`.
#[derive(Debug, PartialEq, Eq)]
pub struct UserSubscriptions;

impl UserSubscriptions {
    /// Adding a subscription: it joins the user's subscriptions unless it is
    /// among them, the time is read (in seconds since the epoch, as text),
    /// and stored as the time of the last change. Where the time cannot be
    /// read the handler fails with that failure.
    pub open spec fn spec_add(subscription: Seq<char>, history: Seq<EventView>) -> ActionView {
        if history.len() == 0 {
            ActionView::GetState { key: subscriptions_key() }
        } else if history.len() == 1 {
            ActionView::SetState {
                key: subscriptions_key(),
                value: ValueView::List(with_member(list_of(history[0]), subscription)),
            }
        } else if history.len() == 2 {
            ActionView::Run { name: "unix-seconds"@, args: Seq::empty() }
        } else if failure_of(history[2]) is Some {
            ActionView::Return { outcome: OutcomeView::Failure(failure_of(history[2])->0) }
        } else if history.len() == 3 {
            ActionView::SetState {
                key: last_updated_key(),
                value: ValueView::Text(text_of(history[2])),
            }
        } else {
            ActionView::Return { outcome: OutcomeView::Success(ValueView::Unit) }
        }
    }

    /// Reading the subscriptions: the list stored, empty where none is.
    pub open spec fn spec_get_subscriptions(history: Seq<EventView>) -> ActionView {
        if history.len() == 0 {
            ActionView::GetState { key: subscriptions_key() }
        } else {
            ActionView::Return { outcome: OutcomeView::Success(ValueView::List(list_of(history[0]))) }
        }
    }

    /// The handler `add`: see [`Self::spec_add`].
    pub fn add(&self, subscription: &String, history: &Vec<Event>) -> (a: Action)
        ensures
            a@ == Self::spec_add(subscription@, event_views(history@)),
    {
        let k = history.len();
        if k == 0 {
            return Action::GetState { key: String::from_str("subscriptions") };
        }
        assert(event_views(history@)[0] == history@[0]@);
        if k == 1 {
            let subscriptions = list_value(&history[0]);
            return Action::SetState {
                key: String::from_str("subscriptions"),
                value: Value::List(insert_text(&subscriptions, subscription)),
            };
        }
        if k == 2 {
            let none: Vec<String> = Vec::new();
            assert(text_views(none@) =~= Seq::<Seq<char>>::empty());
            return run_action("unix-seconds", none);
        }
        assert(event_views(history@)[2] == history@[2]@);
        if failed_at(history, 2) {
            return return_failure_at(history, 2);
        }
        if k == 3 {
            return Action::SetState {
                key: String::from_str("lastUpdated"),
                value: Value::Text(text_value(&history[2])),
            };
        }
        return_value(Value::Unit)
    }

    /// The handler `get_subscriptions`: see
    /// [`Self::spec_get_subscriptions`].
    pub fn get_subscriptions(&self, history: &Vec<Event>) -> (a: Action)
        ensures
            a@ == Self::spec_get_subscriptions(event_views(history@)),
    {
        if history.len() == 0 {
            return Action::GetState { key: String::from_str("subscriptions") };
        }
        assert(event_views(history@)[0] == history@[0]@);
        return_value(Value::List(list_value(&history[0])))
    }
}

/// The name of the promise that a click on the verification link resolves.
pub open spec fn email_link() -> Seq<char> {
    "email-link"@
}

/// The signup of a user, as a workflow: it runs once per user.
#[derive(Debug, PartialEq, Eq)]
pub struct SignupWorkflowImpl;

impl SignupWorkflowImpl {
    /// The workflow for the user `key`: the user's entry is created, a secret
    /// is drawn, a mail with the verification link goes out, and the workflow
    /// waits for the promise `email-link`. The answer is whether the secret
    /// that the click brought is the one that was mailed. An effect or a wait
    /// that fails for good ends the workflow with that failure.
    pub open spec fn spec_run(key: Seq<char>, user: &User, history: Seq<EventView>) -> ActionView {
        if history.len() == 0 {
            ActionView::Run { name: "create-user-entry"@, args: seq![user.name@, user.email@] }
        } else if failure_of(history[0]) is Some {
            ActionView::Return { outcome: OutcomeView::Failure(failure_of(history[0])->0) }
        } else if history.len() == 1 {
            ActionView::Run { name: "uuid"@, args: Seq::empty() }
        } else if failure_of(history[1]) is Some {
            ActionView::Return { outcome: OutcomeView::Failure(failure_of(history[1])->0) }
        } else if history.len() == 2 {
            ActionView::Run {
                name: "send-email-with-link"@,
                args: seq![key, user.email@, text_of(history[1])],
            }
        } else if failure_of(history[2]) is Some {
            ActionView::Return { outcome: OutcomeView::Failure(failure_of(history[2])->0) }
        } else if history.len() == 3 {
            ActionView::NamedAwakeable { name: email_link() }
        } else if history.len() == 4 {
            ActionView::AwaitAwakeable { id: awakeable_of(history[3]) }
        } else if failure_of(history[4]) is Some {
            ActionView::Return { outcome: OutcomeView::Failure(failure_of(history[4])->0) }
        } else {
            ActionView::Return {
                outcome: OutcomeView::Success(
                    ValueView::Bool(text_of(history[4]) == text_of(history[1])),
                ),
            }
        }
    }

    /// A click on the verification link: the promise `email-link` of the
    /// workflow is resolved with the secret that the click brought.
    pub open spec fn spec_click(secret: Seq<char>, history: Seq<EventView>) -> ActionView {
        if history.len() == 0 {
            ActionView::NamedAwakeable { name: email_link() }
        } else if history.len() == 1 {
            ActionView::ResolveAwakeable {
                id: awakeable_of(history[0]),
                outcome: OutcomeView::Success(ValueView::Text(secret)),
            }
        } else {
            ActionView::Return { outcome: OutcomeView::Success(ValueView::Unit) }
        }
    }

    /// The handler `run`: see [`Self::spec_run`].
    pub fn run(&self, key: &String, user: &User, history: &Vec<Event>) -> (a: Action)
        ensures
            a@ == Self::spec_run(key@, user, event_views(history@)),
    {
        let k = history.len();
        if k == 0 {
            return run_action("create-user-entry", args2(&user.name, &user.email));
        }
        if failed_at(history, 0) {
            return return_failure_at(history, 0);
        }
        if k == 1 {
            let none: Vec<String> = Vec::new();
            assert(text_views(none@) =~= Seq::<Seq<char>>::empty());
            return run_action("uuid", none);
        }
        assert(event_views(history@)[1] == history@[1]@);
        if failed_at(history, 1) {
            return return_failure_at(history, 1);
        }
        let secret = text_value(&history[1]);
        if k == 2 {
            return run_action("send-email-with-link", args3(key, &user.email, &secret));
        }
        if failed_at(history, 2) {
            return return_failure_at(history, 2);
        }
        if k == 3 {
            return Action::NamedAwakeable { name: String::from_str("email-link") };
        }
        assert(event_views(history@)[3] == history@[3]@);
        if k == 4 {
            return Action::AwaitAwakeable { id: awakeable_value(&history[3]) };
        }
        assert(event_views(history@)[4] == history@[4]@);
        if failed_at(history, 4) {
            return return_failure_at(history, 4);
        }
        let clicked = text_value(&history[4]);
        return_value(Value::Bool(clicked == secret))
    }

    /// The handler `click`: see [`Self::spec_click`].
    pub fn click(&self, secret: &String, history: &Vec<Event>) -> (a: Action)
        ensures
            a@ == Self::spec_click(secret@, event_views(history@)),
    {
        if history.len() == 0 {
            return Action::NamedAwakeable { name: String::from_str("email-link") };
        }
        assert(event_views(history@)[0] == history@[0]@);
        if history.len() == 1 {
            return Action::ResolveAwakeable {
                id: awakeable_value(&history[0]),
                outcome: Outcome::Success(Value::Text(secret.clone())),
            };
        }
        return_value(Value::Unit)
    }
}

} // verus!
