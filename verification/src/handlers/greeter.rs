//! Greeters: a service that greets in durable steps, and a virtual object
//! that counts its greetings.

use vstd::prelude::*;
use vstd::string::StringExecFns;
use crate::action::{event_views, Action, ActionView, Event, EventView};
use crate::script::{
    args1, args2, failed_at, failure_of, number_of, number_value, return_failure_at, return_value,
    run_action, text_of, text_value,
};
use crate::text::{concat3, decimal, decimal_text};
use crate::value::{text_views, OutcomeView, Value, ValueView};

verus! {

/// The pause between the notification and the reminder, in milliseconds.
pub const GREETING_PAUSE_MS: u64 = 1000;

/// The two wordings of the greeter's answer.
#[derive(Debug, Clone, Copy, PartialEq, Eq, Structural)]
pub enum Wording {
    /// "Greetings" and the name.
    Greetings,
    /// "You said hi to" and the name.
    SaidHi,
}

/// The script of a greeting: a greeting identifier is drawn, a notification
/// goes out under it, the greeter pauses, a reminder goes out, and the answer
/// names the person greeted. A step that fails for good ends the greeting
/// with that failure. `flags` are handed on to both effects after their own
/// arguments.
pub open spec fn greeting_script(
    name: Seq<char>,
    wording: Wording,
    reminder_names_person: bool,
    flags: Seq<Seq<char>>,
    history: Seq<EventView>,
) -> ActionView {
    if history.len() == 0 {
        ActionView::Run { name: "uuid"@, args: Seq::empty() }
    } else if failure_of(history[0]) is Some {
        ActionView::Return { outcome: OutcomeView::Failure(failure_of(history[0])->0) }
    } else if history.len() == 1 {
        ActionView::Run { name: "notification"@, args: seq![text_of(history[0]), name] + flags }
    } else if failure_of(history[1]) is Some {
        ActionView::Return { outcome: OutcomeView::Failure(failure_of(history[1])->0) }
    } else if history.len() == 2 {
        ActionView::Sleep { duration_ms: GREETING_PAUSE_MS }
    } else if history.len() == 3 {
        ActionView::Run {
            name: "reminder"@,
            args: if reminder_names_person {
                seq![text_of(history[0]), name] + flags
            } else {
                seq![text_of(history[0])] + flags
            },
        }
    } else if failure_of(history[3]) is Some {
        ActionView::Return { outcome: OutcomeView::Failure(failure_of(history[3])->0) }
    } else {
        ActionView::Return {
            outcome: OutcomeView::Success(
                ValueView::Text(
                    match wording {
                        Wording::Greetings => "Greetings "@ + name,
                        Wording::SaidHi => "You said hi to "@ + name,
                    },
                ),
            ),
        }
    }
}

fn with_flags(mut args: Vec<String>, flags: &Vec<String>) -> (r: Vec<String>)
    ensures
        text_views(r@) == text_views(args@) + text_views(flags@),
{
    let ghost start = text_views(args@);
    let mut i: usize = 0;
    while i < flags.len()
        invariant
            i <= flags.len(),
            text_views(args@) == start + text_views(flags@).take(i as int),
        decreases flags.len() - i,
    {
        let ghost before = text_views(args@);
        args.push(flags[i].clone());
        assert(text_views(args@) =~= before.push(flags@[i as int]@));
        assert(text_views(flags@).take(i + 1) =~= text_views(flags@).take(i as int).push(
            flags@[i as int]@,
        ));
        assert(text_views(args@) =~= start + text_views(flags@).take(i + 1));
        i = i + 1;
    }
    assert(text_views(flags@).take(flags.len() as int) =~= text_views(flags@));
    args
}

fn greeting(
    name: &String,
    wording: Wording,
    reminder_names_person: bool,
    flags: &Vec<String>,
    history: &Vec<Event>,
) -> (a: Action)
    ensures
        a@ == greeting_script(
            name@,
            wording,
            reminder_names_person,
            text_views(flags@),
            event_views(history@),
        ),
{
    let k = history.len();
    if k == 0 {
        let none: Vec<String> = Vec::new();
        assert(text_views(none@) =~= Seq::<Seq<char>>::empty());
        return run_action("uuid", none);
    }
    assert(event_views(history@)[0] == history@[0]@);
    if failed_at(history, 0) {
        return return_failure_at(history, 0);
    }
    let id = text_value(&history[0]);
    if k == 1 {
        return run_action("notification", with_flags(args2(&id, name), flags));
    }
    if failed_at(history, 1) {
        return return_failure_at(history, 1);
    }
    if k == 2 {
        return Action::Sleep { duration_ms: GREETING_PAUSE_MS };
    }
    if k == 3 {
        let args = if reminder_names_person {
            args2(&id, name)
        } else {
            args1(&id)
        };
        return run_action("reminder", with_flags(args, flags));
    }
    if failed_at(history, 3) {
        return return_failure_at(history, 3);
    }
    let mut answer = match wording {
        Wording::Greetings => String::from_str("Greetings "),
        Wording::SaidHi => String::from_str("You said hi to "),
    };
    answer.append(name.as_str());
    return_value(Value::Text(answer))
}

/// The flag that tells an effect whether it may fail on purpose.
pub open spec fn failure_flag(simulate_failure: bool) -> Seq<Seq<char>> {
    seq![if simulate_failure {
        "true"@
    } else {
        "false"@
    }]
}

fn failure_flag_text(simulate_failure: bool) -> (flags: Vec<String>)
    ensures
        text_views(flags@) == failure_flag(simulate_failure),
{
    let flag = if simulate_failure {
        String::from_str("true")
    } else {
        String::from_str("false")
    };
    args1(&flag)
}

/// The greeter whose effects do not fail on purpose.
#[derive(Debug, PartialEq, Eq)]
pub struct GreeterImpl {
    /// The wording of the answer.
    pub wording: Wording,
}

impl GreeterImpl {
    /// Greeting `name`: [`greeting_script`]. With the wording `Greetings` the
    /// effects are told not to fail on purpose and the reminder goes by the
    /// greeting identifier alone; with the wording `SaidHi` the effects take
    /// no flag and the reminder names the person.
    pub open spec fn spec_greet(&self, name: Seq<char>, history: Seq<EventView>) -> ActionView {
        match self.wording {
            Wording::Greetings => greeting_script(
                name,
                Wording::Greetings,
                false,
                failure_flag(false),
                history,
            ),
            Wording::SaidHi => greeting_script(
                name,
                Wording::SaidHi,
                true,
                Seq::empty(),
                history,
            ),
        }
    }

    /// The handler `greet`: see [`Self::spec_greet`].
    pub fn greet(&self, name: &String, history: &Vec<Event>) -> (a: Action)
        ensures
            a@ == self.spec_greet(name@, event_views(history@)),
    {
        match self.wording {
            Wording::Greetings => greeting(
                name,
                Wording::Greetings,
                false,
                &failure_flag_text(false),
                history,
            ),
            Wording::SaidHi => {
                let none: Vec<String> = Vec::new();
                assert(text_views(none@) =~= Seq::<Seq<char>>::empty());
                greeting(name, Wording::SaidHi, true, &none, history)
            },
        }
    }
}

/// The greeter whose effects fail on purpose now and then.
#[derive(Debug, PartialEq, Eq)]
pub struct GreeterFailureImpl;

impl GreeterFailureImpl {
    /// Greeting `name`: [`greeting_script`] with the wording `Greetings`, the
    /// effects told that they may fail on purpose.
    pub open spec fn spec_greet(name: Seq<char>, history: Seq<EventView>) -> ActionView {
        greeting_script(name, Wording::Greetings, false, failure_flag(true), history)
    }

    /// The handler `greet`: see [`Self::spec_greet`].
    pub fn greet(&self, name: &String, history: &Vec<Event>) -> (a: Action)
        ensures
            a@ == Self::spec_greet(name@, event_views(history@)),
    {
        greeting(name, Wording::Greetings, false, &failure_flag_text(true), history)
    }
}

/// The field of a greeter object that counts its greetings.
pub open spec fn count_key() -> Seq<char> {
    "count"@
}

/// The count after one more greeting; it stays at the largest count.
pub open spec fn one_more(count: u64) -> u64 {
    if count < u64::MAX {
        (count + 1) as u64
    } else {
        count
    }
}

/// The count after one greeting is taken back; it stays at zero.
pub open spec fn one_less(count: u64) -> u64 {
    if count > 0 {
        (count - 1) as u64
    } else {
        count
    }
}

/// The greeter object: one per person, with the field `count`.
#[derive(Debug, PartialEq, Eq)]
pub struct GreeterObjectImpl;

impl GreeterObjectImpl {
    /// The answer to a greeting.
    pub open spec fn greeting_text(greeting: Seq<char>, key: Seq<char>, count: u64) -> Seq<char> {
        greeting + " "@ + key + " for the "@ + decimal(count as nat) + "-th time."@
    }

    /// The answer to a greeting taken back.
    pub open spec fn ungreeting_text(key: Seq<char>, count: u64) -> Seq<char> {
        "Dear "@ + key + ", taking one greeting back: "@ + decimal(count as nat) + "."@
    }

    /// Greeting the person `key`: the count goes up by one, and the answer
    /// says the how-manieth greeting this was.
    pub open spec fn spec_greet(key: Seq<char>, greeting: Seq<char>, history: Seq<EventView>) -> ActionView {
        if history.len() == 0 {
            ActionView::GetState { key: count_key() }
        } else if history.len() == 1 {
            ActionView::SetState {
                key: count_key(),
                value: ValueView::Number(one_more(number_of(history[0]))),
            }
        } else {
            ActionView::Return {
                outcome: OutcomeView::Success(
                    ValueView::Text(
                        Self::greeting_text(greeting, key, one_more(number_of(history[0]))),
                    ),
                ),
            }
        }
    }

    /// Taking a greeting back: the count goes down by one unless it is zero,
    /// and the answer says what is left.
    pub open spec fn spec_ungreet(key: Seq<char>, history: Seq<EventView>) -> ActionView {
        if history.len() == 0 {
            ActionView::GetState { key: count_key() }
        } else if history.len() == 1 {
            ActionView::SetState {
                key: count_key(),
                value: ValueView::Number(one_less(number_of(history[0]))),
            }
        } else {
            ActionView::Return {
                outcome: OutcomeView::Success(
                    ValueView::Text(Self::ungreeting_text(key, one_less(number_of(history[0])))),
                ),
            }
        }
    }

    /// The handler `greet` of the object `key`: see [`Self::spec_greet`].
    pub fn greet(&self, key: &String, greeting: &String, history: &Vec<Event>) -> (a: Action)
        ensures
            a@ == Self::spec_greet(key@, greeting@, event_views(history@)),
    {
        if history.len() == 0 {
            return Action::GetState { key: String::from_str("count") };
        }
        assert(event_views(history@)[0] == history@[0]@);
        let before = number_value(&history[0]);
        let count = if before < u64::MAX {
            before + 1
        } else {
            before
        };
        if history.len() == 1 {
            return Action::SetState { key: String::from_str("count"), value: Value::Number(count) };
        }
        let mut text = concat3(greeting.as_str(), " ", key.as_str());
        text.append(" for the ");
        text.append(decimal_text(count).as_str());
        text.append("-th time.");
        return_value(Value::Text(text))
    }

    /// The handler `ungreet` of the object `key`: see [`Self::spec_ungreet`].
    pub fn ungreet(&self, key: &String, history: &Vec<Event>) -> (a: Action)
        ensures
            a@ == Self::spec_ungreet(key@, event_views(history@)),
    {
        if history.len() == 0 {
            return Action::GetState { key: String::from_str("count") };
        }
        assert(event_views(history@)[0] == history@[0]@);
        let before = number_value(&history[0]);
        let count = if before > 0 {
            before - 1
        } else {
            before
        };
        if history.len() == 1 {
            return Action::SetState { key: String::from_str("count"), value: Value::Number(count) };
        }
        let mut text = concat3("Dear ", key.as_str(), ", taking one greeting back: ");
        text.append(decimal_text(count).as_str());
        text.append(".");
        return_value(Value::Text(text))
    }
}

} // verus!
