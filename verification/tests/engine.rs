use durable_exec::action::{Action, Handler};
use durable_exec::engine::{
    due_at, Engine, Execution, Launch, Progress, Resumption, Setback, Submission,
};
use durable_exec::entry::JournalEntry;
use durable_exec::error::EngineError;
use durable_exec::handlers::greeter::Wording;
use durable_exec::handlers::payments::PaymentRequest;
use durable_exec::handlers::subscription::SubscriptionRequest;
use durable_exec::handlers::Request;
use durable_exec::journal::JournalStore;
use durable_exec::record::{HandlerId, Status};
use durable_exec::runner::{Next, Phase, Wait};
use durable_exec::entry::EntryKind;
use durable_exec::stubs::User;
use durable_exec::target::Target;
use durable_exec::timers::{Delivery, TimerPayload, TimerState};
use durable_exec::value::{Outcome, Value};

/// How a drive ended.
#[derive(Debug, PartialEq)]
enum End {
    Finished(Outcome, Vec<u64>),
    Suspended(Wait),
    Settled(u64, u64),
    Failed(EngineError),
    Stalled(EngineError),
}

/// The outside world of the tests: it performs side effects and calls, and
/// keeps count of them.
struct World {
    performed: Vec<String>,
    failing: Vec<String>,
}

impl World {
    fn new() -> World {
        World { performed: Vec::new(), failing: Vec::new() }
    }

    fn perform(&mut self, action: &Action) -> Outcome {
        let name = match action {
            Action::Run { name, .. } => name.clone(),
            Action::Call { target, .. } => format!("{}/{}", target.service, target.handler),
            other => panic!("not for the outside: {:?}", other),
        };
        self.performed.push(name.clone());
        if self.failing.contains(&name) {
            return Outcome::Failure(format!("{} failed", name));
        }
        match name.as_str() {
            "uuid" => Outcome::Success(Value::Text(format!("id-{}", self.performed.len()))),
            "pay" => Outcome::Success(Value::Text("payRef-1".to_string())),
            "unix-seconds" => Outcome::Success(Value::Text("1700000000".to_string())),
            _ => Outcome::Success(Value::Unit),
        }
    }
}

fn handler_id(request: &Request, method: &str) -> HandlerId {
    HandlerId { service: request.service(), method: method.to_string(), kind: request.kind() }
}

/// Runs an execution until it ends, waits or must hand control back.
fn drive(engine: &mut Engine, x: &mut Option<Execution>, h: &Request, now: u64, world: &mut World) -> End {
    loop {
        let exec = x.as_mut().unwrap();
        match exec.runner.advance(h, now) {
            Next::Perform(_) => match engine.perform(exec, h, now) {
                Ok(Progress::Continued) => {}
                Ok(Progress::Settled { owner, promise }) => return End::Settled(owner, promise),
                Ok(Progress::Suspended(wait)) => {
                    engine.park(exec).unwrap();
                    return End::Suspended(wait);
                }
                Ok(Progress::Outside(action)) => {
                    let outcome = world.perform(&action);
                    engine.complete(exec, h, outcome, now).unwrap();
                }
                Err(e) => return End::Stalled(e),
            },
            Next::Suspended(wait) => {
                engine.park(exec).unwrap();
                return End::Suspended(wait);
            }
            Next::Done(outcome) => {
                let started = engine.finish(x.take().unwrap(), outcome.clone()).unwrap();
                return End::Finished(outcome, started);
            }
            Next::Failed(e) => {
                engine.finish(x.take().unwrap(), Outcome::Failure(e.name())).unwrap();
                return End::Failed(e);
            }
            Next::NotRunning => panic!("not running"),
        }
    }
}

fn ready(launch: Result<Launch, EngineError>) -> Execution {
    match launch {
        Ok(Launch::Ready(x)) => x,
        Ok(Launch::Waiting) => panic!("the invocation has to wait"),
        Err(e) => panic!("not started: {:?}", e),
    }
}

fn started(submission: Result<Submission, EngineError>) -> u64 {
    match submission {
        Ok(Submission::Started { id }) => id,
        other => panic!("not started: {:?}", other),
    }
}

fn greet(key: &str) -> Request {
    Request::ObjectGreet { key: key.to_string(), greeting: "Hi".to_string() }
}

#[test]
fn greeting_commits_its_count_with_the_result() {
    let mut engine = Engine::new(100, 1000, 3);
    let mut world = World::new();
    let request = greet("mary");
    let id = started(engine.submit(handler_id(&request, "greet"), "mary".to_string(), Value::Unit, 0));
    let mut x = Some(ready(engine.start(id, 0)));
    assert_eq!(engine.attach(id), Ok(None));
    let end = drive(&mut engine, &mut x, &request, 0, &mut world);
    let answer = Outcome::Success(Value::Text("Hi mary for the 1-th time.".to_string()));
    assert_eq!(end, End::Finished(answer.clone(), Vec::new()));
    assert_eq!(engine.state.get("GreeterObject", "mary", "count"), Some(Value::Number(1)));
    assert_eq!(engine.state.version("GreeterObject", "mary"), 1);
    assert_eq!(engine.journals.status(id), Some(Status::Completed));
    assert_eq!(engine.attach(id), Ok(Some(answer)));
    assert_eq!(engine.locks.inspect("GreeterObject", "mary").holder(), None);
    assert_eq!(
        engine.journals.journal(id),
        Ok(vec![
            JournalEntry::StateGet { key: "count".to_string(), value: None },
            JournalEntry::StateSet { key: "count".to_string(), value: Value::Number(1) },
        ])
    );
}

#[test]
fn writes_are_not_committed_before_the_invocation_ends() {
    let mut engine = Engine::new(100, 1000, 3);
    let request = greet("mary");
    let id = started(engine.submit(handler_id(&request, "greet"), "mary".to_string(), Value::Unit, 0));
    let mut x = ready(engine.start(id, 0));
    x.runner.advance(&request, 0);
    assert_eq!(engine.perform(&mut x, &request, 0), Ok(Progress::Continued));
    x.runner.advance(&request, 0);
    assert_eq!(engine.perform(&mut x, &request, 0), Ok(Progress::Continued));
    // The write is on record and in the buffer, and not in the store.
    assert_eq!(x.buffer.len(), 1);
    assert_eq!(engine.state.get("GreeterObject", "mary", "count"), None);
    assert_eq!(engine.state.version("GreeterObject", "mary"), 0);
}

#[test]
fn concurrent_greetings_of_one_key_run_one_after_the_other() {
    let mut engine = Engine::new(100, 1000, 3);
    let mut world = World::new();
    let request = greet("mary");
    let first = engine.submit(handler_id(&request, "greet"), "mary".to_string(), Value::Unit, 0);
    let second = engine.submit(handler_id(&request, "greet"), "mary".to_string(), Value::Unit, 0);
    let third = engine.submit(handler_id(&request, "greet"), "mary".to_string(), Value::Unit, 0);
    assert_eq!(first, Ok(Submission::Started { id: 0 }));
    assert_eq!(second, Ok(Submission::Queued { id: 1 }));
    assert_eq!(third, Ok(Submission::Queued { id: 2 }));
    let mut next = Some(0u64);
    let mut answers = Vec::new();
    let mut order = Vec::new();
    while let Some(id) = next {
        order.push(id);
        let mut x = Some(ready(engine.start(id, 0)));
        match drive(&mut engine, &mut x, &request, 0, &mut world) {
            End::Finished(Outcome::Success(Value::Text(answer)), started) => {
                answers.push(answer);
                assert!(started.len() <= 1);
                next = started.first().copied();
            }
            other => panic!("unexpected: {:?}", other),
        }
    }
    assert_eq!(order, vec![0, 1, 2]);
    assert_eq!(
        answers,
        vec![
            "Hi mary for the 1-th time.",
            "Hi mary for the 2-th time.",
            "Hi mary for the 3-th time."
        ]
    );
    assert_eq!(engine.state.get("GreeterObject", "mary", "count"), Some(Value::Number(3)));
    assert_eq!(engine.state.version("GreeterObject", "mary"), 3);
}

#[test]
fn greetings_of_different_keys_do_not_wait() {
    let mut engine = Engine::new(100, 1000, 3);
    let mary = greet("mary");
    let barack = greet("barack");
    assert_eq!(
        engine.submit(handler_id(&mary, "greet"), "mary".to_string(), Value::Unit, 0),
        Ok(Submission::Started { id: 0 })
    );
    assert_eq!(
        engine.submit(handler_id(&barack, "greet"), "barack".to_string(), Value::Unit, 0),
        Ok(Submission::Started { id: 1 })
    );
}

#[test]
fn failed_invocation_commits_nothing() {
    let mut engine = Engine::new(100, 1000, 3);
    let mut world = World::new();
    world.failing.push("unix-seconds".to_string());
    let request = Request::UserSubscriptionAdd { subscription: "Netflix".to_string() };
    let id = started(engine.submit(handler_id(&request, "add"), "sam".to_string(), Value::Unit, 0));
    let mut x = Some(ready(engine.start(id, 0)));
    let end = drive(&mut engine, &mut x, &request, 0, &mut world);
    let failure = Outcome::Failure("unix-seconds failed".to_string());
    assert_eq!(end, End::Finished(failure.clone(), Vec::new()));
    // The subscriptions were set in the buffer before the failure; none of
    // it reached the store.
    assert_eq!(engine.state.get("UserSubscriptions", "sam", "subscriptions"), None);
    assert_eq!(engine.state.version("UserSubscriptions", "sam"), 0);
    assert_eq!(engine.journals.status(id), Some(Status::Failed));
    assert_eq!(engine.attach(id), Ok(Some(failure)));
    assert_eq!(engine.locks.inspect("UserSubscriptions", "sam").holder(), None);
}

#[test]
fn crash_and_restart_replays_the_journal_without_repeating_effects() {
    let mut engine = Engine::new(100, 1000, 3);
    let mut world = World::new();
    let request = Request::SubscriptionAdd(SubscriptionRequest {
        user_id: "sam".to_string(),
        credit_card: "1234".to_string(),
        subscriptions: vec!["A".to_string(), "B".to_string()],
    });
    let id = started(engine.submit(handler_id(&request, "add"), String::new(), Value::Unit, 0));
    {
        // The first attempt gets as far as the payment, then the process
        // dies.
        let mut x = ready(engine.start(id, 0));
        for _ in 0..2 {
            match x.runner.advance(&request, 0) {
                Next::Perform(action) => {
                    let outcome = world.perform(&action);
                    engine.complete(&mut x, &request, outcome, 0).unwrap();
                }
                other => panic!("unexpected: {:?}", other),
            }
        }
    }
    assert_eq!(world.performed, vec!["uuid", "pay"]);
    // The same invocation is started again.
    let mut x = Some(ready(engine.start(id, 0)));
    assert_eq!(x.as_ref().unwrap().runner.phase(), Phase::Replaying);
    let end = drive(&mut engine, &mut x, &request, 0, &mut world);
    assert_eq!(end, End::Finished(Outcome::Success(Value::Unit), Vec::new()));
    assert_eq!(world.performed, vec!["uuid", "pay", "add-A", "add-B"]);
    // A terminal invocation is not executed again.
    assert!(matches!(engine.start(id, 0), Err(EngineError::AlreadyCompleted)));
}

#[test]
fn another_process_recovers_the_journal_and_goes_on() {
    let mut world = World::new();
    let request = Request::SubscriptionAdd(SubscriptionRequest {
        user_id: "sam".to_string(),
        credit_card: "1234".to_string(),
        subscriptions: vec!["A".to_string(), "B".to_string()],
    });
    // The first process gets as far as the payment and dies. All that is
    // left of it is what it wrote to the medium.
    let (id, medium) = {
        let mut engine = Engine::new(100, 1000, 3);
        let id = started(engine.submit(handler_id(&request, "add"), String::new(), Value::Unit, 0));
        let mut x = ready(engine.start(id, 0));
        for _ in 0..2 {
            match x.runner.advance(&request, 0) {
                Next::Perform(action) => {
                    let outcome = world.perform(&action);
                    engine.complete(&mut x, &request, outcome, 0).unwrap();
                }
                other => panic!("unexpected: {:?}", other),
            }
        }
        (id, engine.journals.log().clone())
    };
    assert_eq!(world.performed, vec!["uuid", "pay"]);
    let mut engine = Engine::new(100, 1000, 3);
    engine.journals = JournalStore::recover(&medium, 100).unwrap();
    assert_eq!(engine.journals.status(id), Some(Status::Running));
    assert_eq!(engine.journals.journal(id).unwrap().len(), 2);
    let mut x = Some(ready(engine.start(id, 0)));
    assert_eq!(x.as_ref().unwrap().runner.phase(), Phase::Replaying);
    let end = drive(&mut engine, &mut x, &request, 0, &mut world);
    assert_eq!(end, End::Finished(Outcome::Success(Value::Unit), Vec::new()));
    assert_eq!(world.performed, vec!["uuid", "pay", "add-A", "add-B"]);
    assert_eq!(engine.journals.attach(id), Ok(Some(Outcome::Success(Value::Unit))));
}

#[test]
fn storage_outage_stalls_and_the_retry_goes_on() {
    let mut engine = Engine::new(100, 1000, 3);
    let mut world = World::new();
    let request = greet("mary");
    let id = started(engine.submit(handler_id(&request, "greet"), "mary".to_string(), Value::Unit, 0));
    let mut x = Some(ready(engine.start(id, 0)));
    engine.journals.set_online(false);
    assert_eq!(
        drive(&mut engine, &mut x, &request, 0, &mut world),
        End::Stalled(EngineError::StorageUnavailable)
    );
    assert_eq!(x.as_ref().unwrap().runner.journal_len(), 0);
    engine.journals.set_online(true);
    assert_eq!(engine.journals.journal(id), Ok(Vec::new()));
    match drive(&mut engine, &mut x, &request, 0, &mut world) {
        End::Finished(Outcome::Success(_), _) => {}
        other => panic!("unexpected: {:?}", other),
    }
    assert_eq!(engine.state.get("GreeterObject", "mary", "count"), Some(Value::Number(1)));
}

#[test]
fn submission_fails_when_storage_is_out() {
    let mut engine = Engine::new(100, 1000, 3);
    engine.journals.set_online(false);
    let request = greet("mary");
    assert_eq!(
        engine.submit(handler_id(&request, "greet"), "mary".to_string(), Value::Unit, 0),
        Err(EngineError::StorageUnavailable)
    );
    // Nobody took the key.
    assert_eq!(engine.locks.inspect("GreeterObject", "mary").holder(), None);
}

#[test]
fn sleep_suspends_and_the_timer_resumes_exactly_once() {
    let mut engine = Engine::new(100, 1000, 3);
    let mut world = World::new();
    let request = Request::Greet { name: "Ada".to_string(), wording: Wording::Greetings };
    let id = started(engine.submit(handler_id(&request, "greet"), String::new(), Value::Unit, 500));
    let mut x = Some(ready(engine.start(id, 0)));
    let wait = Wait::Timer { fire_at: 1500 };
    assert_eq!(drive(&mut engine, &mut x, &request, 500, &mut world), End::Suspended(wait));
    assert_eq!(world.performed, vec!["uuid", "notification"]);
    assert_eq!(engine.journals.status(id), Some(Status::Suspended));
    assert_eq!(engine.journals.waiting(id), Some(wait));
    // Not before its time.
    assert_eq!(engine.timers.next_due(1499), None);
    assert_eq!(engine.timers.deliver(0, 1499), Delivery::Early);
    // At its time the timer fires, and the invocation resumes.
    assert_eq!(engine.timers.next_due(1500), Some(0));
    assert_eq!(
        engine.timers.deliver(0, 1500),
        Delivery::Fired { invocation: id, payload: TimerPayload::Wake }
    );
    assert_eq!(engine.unpark(x.as_mut().unwrap(), wait, 1500), Ok(Resumption::Resumed));
    assert_eq!(engine.journals.status(id), Some(Status::Running));
    // The same timer delivered again does nothing, twice over.
    assert_eq!(engine.timers.deliver(0, 1500), Delivery::Duplicate);
    assert_eq!(engine.unpark(x.as_mut().unwrap(), wait, 1500), Ok(Resumption::Ignored));
    let end = drive(&mut engine, &mut x, &request, 1500, &mut world);
    assert_eq!(
        end,
        End::Finished(Outcome::Success(Value::Text("Greetings Ada".to_string())), Vec::new())
    );
    assert_eq!(world.performed, vec!["uuid", "notification", "reminder"]);
}

#[test]
fn an_early_wake_up_suspends_again() {
    let mut engine = Engine::new(100, 1000, 3);
    let mut world = World::new();
    let request = Request::Greet { name: "Ada".to_string(), wording: Wording::Greetings };
    let id = started(engine.submit(handler_id(&request, "greet"), String::new(), Value::Unit, 0));
    let mut x = Some(ready(engine.start(id, 0)));
    let wait = Wait::Timer { fire_at: 1000 };
    assert_eq!(drive(&mut engine, &mut x, &request, 0, &mut world), End::Suspended(wait));
    assert_eq!(engine.unpark(x.as_mut().unwrap(), wait, 10), Ok(Resumption::Resumed));
    assert_eq!(drive(&mut engine, &mut x, &request, 10, &mut world), End::Suspended(wait));
    assert_eq!(world.performed, vec!["uuid", "notification"]);
}

#[test]
fn suspended_invocation_restarted_after_a_crash_waits_for_its_deadline() {
    let mut engine = Engine::new(100, 1000, 3);
    let mut world = World::new();
    let request = Request::Greet { name: "Ada".to_string(), wording: Wording::Greetings };
    let id = started(engine.submit(handler_id(&request, "greet"), String::new(), Value::Unit, 0));
    {
        let mut x = Some(ready(engine.start(id, 0)));
        drive(&mut engine, &mut x, &request, 0, &mut world);
    }
    let mut x = Some(ready(engine.start(id, 0)));
    assert_eq!(
        drive(&mut engine, &mut x, &request, 999, &mut world),
        End::Suspended(Wait::Timer { fire_at: 1000 })
    );
    let mut x = Some(ready(engine.start(id, 0)));
    match drive(&mut engine, &mut x, &request, 1000, &mut world) {
        End::Finished(Outcome::Success(_), _) => {}
        other => panic!("unexpected: {:?}", other),
    }
    assert_eq!(world.performed, vec!["uuid", "notification", "reminder"]);
}

#[test]
fn completion_cancels_the_timers_of_the_invocation() {
    let mut engine = Engine::new(100, 1000, 3);
    let mut world = World::new();
    let request = Request::CartAddTicket { key: "mary".to_string(), ticket_id: "seat2B".to_string() };
    world.performed.clear();
    let id = started(engine.submit(handler_id(&request, "addTicket"), "mary".to_string(), Value::Unit, 100));
    let mut x = ready(engine.start(id, 0));
    // The reservation call succeeds with `true`.
    x.runner.advance(&request, 100);
    engine.complete(&mut x, &request, Outcome::Success(Value::Bool(true)), 100).unwrap();
    let mut x = Some(x);
    let end = drive(&mut engine, &mut x, &request, 100, &mut world);
    assert_eq!(end, End::Finished(Outcome::Success(Value::Bool(true)), Vec::new()));
    assert_eq!(
        engine.state.get("CartObject", "mary", "tickets"),
        Some(Value::List(vec!["seat2B".to_string()]))
    );
    // The expiry was scheduled a quarter of an hour ahead, and cancelled
    // with the invocation that scheduled it.
    assert_eq!(engine.timers.len(), 1);
    assert_eq!(engine.timers.state(0), Some(TimerState::Cancelled));
    assert_eq!(due_at(100, 900000), 900100);
    assert_eq!(due_at(u64::MAX - 1, 5), u64::MAX);
}

#[test]
fn workflow_runs_once_per_key() {
    let mut engine = Engine::new(100, 1000, 3);
    let mut world = World::new();
    let user = || User { name: "Bob".to_string(), email: "bob@builder.com".to_string() };
    let run = Request::Signup { key: "userid1".to_string(), user: user() };
    let id = started(engine.submit(handler_id(&run, "run"), "userid1".to_string(), Value::Unit, 0));
    let mut x = Some(ready(engine.start(id, 0)));
    // The workflow runs up to its wait for the click.
    assert_eq!(
        drive(&mut engine, &mut x, &run, 0, &mut world),
        End::Suspended(Wait::Awakeable { id: 0 })
    );
    assert_eq!(world.performed, vec!["create-user-entry", "uuid", "send-email-with-link"]);
    // A second run submitted meanwhile waits for the key.
    assert_eq!(
        engine.submit(handler_id(&run, "run"), "userid1".to_string(), Value::Unit, 0),
        Ok(Submission::Queued { id: 1 })
    );
    assert_eq!(engine.locks.release("SignupWorkflow", "userid1", 1), Ok(Vec::new()));
    // The click runs beside the suspended workflow and resolves its promise.
    let click = Request::SignupClick { secret: "id-2".to_string() };
    let click_id =
        started(engine.submit(handler_id(&click, "click"), "userid1".to_string(), Value::Unit, 0));
    let mut c = Some(ready(engine.start(click_id, 0)));
    assert_eq!(drive(&mut engine, &mut c, &click, 0, &mut world), End::Settled(id, 0));
    assert_eq!(
        engine.unpark(x.as_mut().unwrap(), Wait::Awakeable { id: 0 }, 0),
        Ok(Resumption::Waiting)
    );
    assert_eq!(
        drive(&mut engine, &mut c, &click, 0, &mut world),
        End::Finished(Outcome::Success(Value::Unit), vec![id])
    );
    // With the click done the workflow goes on and finds the right secret.
    let answer = Outcome::Success(Value::Bool(true));
    assert_eq!(
        drive(&mut engine, &mut x, &run, 0, &mut world),
        End::Finished(answer.clone(), Vec::new())
    );
    let effects_of_the_run = world.performed.clone();
    let invocations = engine.journals.len();
    // The same key again: the stored result, no invocation, no effect.
    assert_eq!(
        engine.submit(handler_id(&run, "run"), "userid1".to_string(), Value::Unit, 50),
        Ok(Submission::AlreadyCompleted(answer.clone()))
    );
    assert_eq!(
        engine.submit(handler_id(&run, "run"), "userid1".to_string(), Value::Unit, 60),
        Ok(Submission::AlreadyCompleted(answer))
    );
    assert_eq!(engine.journals.len(), invocations);
    assert_eq!(world.performed, effects_of_the_run);
    // Another key is another workflow.
    assert_eq!(
        engine.submit(handler_id(&run, "run"), "userid2".to_string(), Value::Unit, 0),
        Ok(Submission::Started { id: invocations as u64 })
    );
}

#[test]
fn payment_that_is_not_confirmed_in_time_is_cancelled() {
    let mut engine = Engine::new(100, 1000, 3);
    let mut world = World::new();
    let request = Request::TimedPaymentProcess(PaymentRequest {
        amount: 2500,
        currency: "EUR".to_string(),
        customer_id: "c-1".to_string(),
        order_id: "o-9".to_string(),
    });
    let id = started(engine.submit(handler_id(&request, "process"), String::new(), Value::Unit, 0));
    let mut x = Some(ready(engine.start(id, 0)));
    assert_eq!(
        drive(&mut engine, &mut x, &request, 0, &mut world),
        End::Suspended(Wait::Awakeable { id: 0 })
    );
    assert_eq!(world.performed, vec!["pay"]);
    // Half a minute later the timeout message is due.
    assert_eq!(engine.timers.next_due(29999), None);
    let timer = engine.timers.next_due(30000).unwrap();
    let fired = engine.timers.deliver(timer, 30000);
    assert_eq!(
        fired,
        Delivery::Fired {
            invocation: id,
            payload: TimerPayload::Send {
                target: Target::service("PaymentsWithTimeout", "expire"),
                payload: Value::Number(0),
            },
        }
    );
    let expire = Request::TimedPaymentExpire { promise: 0 };
    let expire_id =
        started(engine.submit(handler_id(&expire, "expire"), String::new(), Value::Unit, 30000));
    let mut e = Some(ready(engine.start(expire_id, 0)));
    assert_eq!(drive(&mut engine, &mut e, &expire, 30000, &mut world), End::Settled(id, 0));
    assert_eq!(
        drive(&mut engine, &mut e, &expire, 30000, &mut world),
        End::Finished(Outcome::Success(Value::Unit), Vec::new())
    );
    // A confirmation that comes now is too late, and changes nothing.
    assert_eq!(
        engine.promises.resolve(0, Value::List(vec!["true".to_string()])),
        Err(EngineError::AlreadyResolved)
    );
    assert_eq!(
        engine.unpark(x.as_mut().unwrap(), Wait::Awakeable { id: 0 }, 30000),
        Ok(Resumption::Resumed)
    );
    let end = drive(&mut engine, &mut x, &request, 30000, &mut world);
    assert_eq!(
        end,
        End::Finished(
            Outcome::Success(Value::List(vec![
                "false".to_string(),
                String::new(),
                "Payment timeout".to_string()
            ])),
            Vec::new()
        )
    );
    assert_eq!(world.performed, vec!["pay", "cancel-payment"]);
}

#[test]
fn payment_confirmed_in_time_beats_the_timeout() {
    let mut engine = Engine::new(100, 1000, 3);
    let mut world = World::new();
    let request = Request::TimedPaymentProcess(PaymentRequest {
        amount: 1,
        currency: "EUR".to_string(),
        customer_id: "c".to_string(),
        order_id: "o".to_string(),
    });
    let id = started(engine.submit(handler_id(&request, "process"), String::new(), Value::Unit, 0));
    let mut x = Some(ready(engine.start(id, 0)));
    drive(&mut engine, &mut x, &request, 0, &mut world);
    let confirmed = Value::List(vec!["true".to_string(), "txn-123".to_string(), String::new()]);
    assert_eq!(engine.promises.resolve(0, confirmed.clone()), Ok(id));
    // The timeout that fires later finds the promise settled.
    assert_eq!(
        engine.promises.reject(0, "Payment timeout".to_string()),
        Err(EngineError::AlreadyResolved)
    );
    engine.unpark(x.as_mut().unwrap(), Wait::Awakeable { id: 0 }, 100).unwrap();
    assert_eq!(
        drive(&mut engine, &mut x, &request, 100, &mut world),
        End::Finished(Outcome::Success(confirmed), Vec::new())
    );
    assert_eq!(world.performed, vec!["pay"]);
}

#[test]
fn perform_hands_out_what_the_outside_must_do() {
    let mut engine = Engine::new(100, 1000, 3);
    let request = Request::Greet { name: "Ada".to_string(), wording: Wording::Greetings };
    let id = started(engine.submit(handler_id(&request, "greet"), String::new(), Value::Unit, 0));
    let mut x = ready(engine.start(id, 0));
    assert_eq!(
        engine.perform(&mut x, &request, 0),
        Ok(Progress::Outside(Action::Run { name: "uuid".to_string(), args: Vec::new() }))
    );
    // Nothing was recorded by handing it out.
    assert_eq!(x.runner.journal_len(), 0);
    assert_eq!(engine.complete(&mut x, &request, Outcome::Success(Value::Text("g".to_string())), 0), Ok(0));
    assert_eq!(x.runner.journal_len(), 1);
    assert_eq!(request.next(&Vec::new()), Action::Run { name: "uuid".to_string(), args: Vec::new() });
}

#[test]
fn complete_is_refused_where_nothing_outside_is_pending() {
    let mut engine = Engine::new(100, 1000, 3);
    let request = greet("mary");
    let id = started(engine.submit(handler_id(&request, "greet"), "mary".to_string(), Value::Unit, 0));
    let mut x = ready(engine.start(id, 0));
    assert_eq!(
        engine.complete(&mut x, &request, Outcome::Success(Value::Unit), 0),
        Err(EngineError::UnexpectedEntry)
    );
    assert_eq!(engine.journals.journal(id), Ok(Vec::new()));
}

#[test]
fn perform_where_the_handler_returns_is_refused() {
    let mut engine = Engine::new(100, 1000, 3);
    let request = Request::SubscriptionCancel;
    let id = started(engine.submit(handler_id(&request, "cancel"), "mary".to_string(), Value::Unit, 0));
    let mut x = ready(engine.start(id, 0));
    assert_eq!(engine.perform(&mut x, &request, 0), Err(EngineError::UnexpectedEntry));
}

#[test]
fn wait_on_a_promise_that_does_not_exist_ends_in_a_failure() {
    let mut engine = Engine::new(100, 1000, 3);
    let mut world = World::new();
    // The tour waits on the promise it created; here its journal claims a
    // promise that the registry never made.
    let request = Request::Tour;
    let id = started(engine.submit(handler_id(&request, "run"), String::new(), Value::Unit, 0));
    engine
        .journals
        .append(
            id,
            JournalEntry::CallResult {
                target: Target::keyed("SubscriptionObject", "my-sub-123", "create"),
                outcome: Outcome::Success(Value::Unit),
            },
        )
        .unwrap();
    engine
        .journals
        .append(
            id,
            JournalEntry::SendRecorded {
                target: Target::keyed("SubscriptionObject", "my-sub-123", "create"),
                payload: Value::Text("my-request".to_string()),
            },
        )
        .unwrap();
    engine.journals.append(id, JournalEntry::AwakeableCreated { id: 41 }).unwrap();
    let mut x = Some(ready(engine.start(id, 0)));
    assert_eq!(
        drive(&mut engine, &mut x, &request, 0, &mut world),
        End::Finished(Outcome::Failure("UnknownPromise".to_string()), Vec::new())
    );
}

#[test]
fn an_execution_that_does_not_wait_is_not_parked() {
    let mut engine = Engine::new(100, 1000, 3);
    let request = greet("mary");
    let id = started(engine.submit(handler_id(&request, "greet"), "mary".to_string(), Value::Unit, 0));
    let x = ready(engine.start(id, 0));
    assert_eq!(engine.park(&x), Err(EngineError::NotRunning));
    assert!(matches!(engine.load(id), Ok(_)));
    assert_eq!(engine.journals.status(id), Some(Status::Running));
}

#[test]
fn unknown_invocation_cannot_be_started() {
    let mut engine = Engine::new(100, 1000, 3);
    assert!(matches!(engine.start(0, 0), Err(EngineError::UnknownInvocation)));
    assert!(matches!(engine.load(0), Err(EngineError::UnknownInvocation)));
    assert_eq!(engine.attach(0), Err(EngineError::UnknownInvocation));
}

#[test]
fn changed_handler_is_parked_as_failed() {
    let mut engine = Engine::new(100, 1000, 3);
    let mut world = World::new();
    let recorded_by = greet("mary");
    let id = started(engine.submit(handler_id(&recorded_by, "greet"), "mary".to_string(), Value::Unit, 0));
    {
        let mut x = ready(engine.start(id, 0));
        x.runner.advance(&recorded_by, 0);
        engine.perform(&mut x, &recorded_by, 0).unwrap();
    }
    // The code changes: the handler now starts with a side effect.
    let replayed_by = Request::SubscriptionAdd(SubscriptionRequest {
        user_id: "sam".to_string(),
        credit_card: "1234".to_string(),
        subscriptions: Vec::new(),
    });
    let mut x = Some(ready(engine.start(id, 0)));
    assert_eq!(
        drive(&mut engine, &mut x, &replayed_by, 0, &mut world),
        End::Failed(EngineError::NonDeterminismError {
            position: 0,
            found: durable_exec::entry::EntryKind::StateGet
        })
    );
    assert_eq!(world.performed, Vec::<String>::new());
    assert_eq!(engine.journals.status(id), Some(Status::Failed));
    assert_eq!(engine.attach(id), Ok(Some(Outcome::Failure("NonDeterminismError".to_string()))));
}

#[test]
fn queued_invocation_is_not_started_before_its_turn() {
    let mut engine = Engine::new(100, 1000, 3);
    let mut world = World::new();
    let request = greet("mary");
    let first = started(engine.submit(handler_id(&request, "greet"), "mary".to_string(), Value::Unit, 0));
    assert_eq!(
        engine.submit(handler_id(&request, "greet"), "mary".to_string(), Value::Unit, 0),
        Ok(Submission::Queued { id: 1 })
    );
    assert!(matches!(engine.start(1, 0), Ok(Launch::Waiting)));
    assert_eq!(engine.locks.inspect("GreeterObject", "mary").holder(), Some(first));
    let mut x = Some(ready(engine.start(first, 0)));
    match drive(&mut engine, &mut x, &request, 0, &mut world) {
        End::Finished(_, started) => assert_eq!(started, vec![1]),
        other => panic!("unexpected: {:?}", other),
    }
    assert!(matches!(engine.start(1, 0), Ok(Launch::Ready(_))));
}

#[test]
fn restart_of_a_suspended_holder_takes_the_key_up_again() {
    let mut engine = Engine::new(100, 1000, 3);
    let mut world = World::new();
    let user = User { name: "Bob".to_string(), email: "bob@builder.com".to_string() };
    let run = Request::Signup { key: "u1".to_string(), user };
    let id = started(engine.submit(handler_id(&run, "run"), "u1".to_string(), Value::Unit, 0));
    {
        let mut x = Some(ready(engine.start(id, 0)));
        assert_eq!(
            drive(&mut engine, &mut x, &run, 0, &mut world),
            End::Suspended(Wait::Awakeable { id: 0 })
        );
    }
    assert_eq!(engine.journals.status(id), Some(Status::Suspended));
    assert_eq!(engine.journals.waiting(id), Some(Wait::Awakeable { id: 0 }));
    // The process is gone; the promise is resolved from outside; the
    // invocation is started again.
    assert_eq!(engine.promises.resolve(0, Value::Text("id-2".to_string())), Ok(id));
    let mut x = Some(ready(engine.start(id, 0)));
    assert_eq!(engine.journals.status(id), Some(Status::Running));
    assert_eq!(
        engine.locks.inspect("SignupWorkflow", "u1").holder_state(),
        durable_exec::locks::HolderState::Active
    );
    assert_eq!(
        drive(&mut engine, &mut x, &run, 0, &mut world),
        End::Finished(Outcome::Success(Value::Bool(true)), Vec::new())
    );
    // Every effect ran once, before the suspension.
    assert_eq!(world.performed, vec!["create-user-entry", "uuid", "send-email-with-link"]);
}

#[test]
fn restart_waits_while_shared_handlers_execute() {
    let mut engine = Engine::new(100, 1000, 3);
    let mut world = World::new();
    let user = User { name: "Bob".to_string(), email: "bob@builder.com".to_string() };
    let run = Request::Signup { key: "u1".to_string(), user };
    let id = started(engine.submit(handler_id(&run, "run"), "u1".to_string(), Value::Unit, 0));
    {
        let mut x = Some(ready(engine.start(id, 0)));
        drive(&mut engine, &mut x, &run, 0, &mut world);
    }
    let click = Request::SignupClick { secret: "id-2".to_string() };
    let click_id =
        started(engine.submit(handler_id(&click, "click"), "u1".to_string(), Value::Unit, 0));
    // The click executes: the workflow cannot take its key up yet.
    assert!(matches!(engine.start(id, 0), Ok(Launch::Waiting)));
    assert_eq!(engine.journals.status(id), Some(Status::Suspended));
    assert!(matches!(engine.start(id, 0), Ok(Launch::Waiting)));
    let mut c = Some(ready(engine.start(click_id, 0)));
    assert_eq!(drive(&mut engine, &mut c, &click, 0, &mut world), End::Settled(id, 0));
    assert_eq!(
        drive(&mut engine, &mut c, &click, 0, &mut world),
        End::Finished(Outcome::Success(Value::Unit), vec![id])
    );
    assert!(matches!(engine.start(id, 0), Ok(Launch::Ready(_))));
}

#[test]
fn start_needs_the_store() {
    let mut engine = Engine::new(100, 1000, 3);
    let request = greet("mary");
    let id = started(engine.submit(handler_id(&request, "greet"), "mary".to_string(), Value::Unit, 0));
    engine.journals.set_online(false);
    assert!(matches!(engine.start(id, 0), Err(EngineError::StorageUnavailable)));
}

fn subscription_of_sam() -> Request {
    Request::SubscriptionAdd(SubscriptionRequest {
        user_id: "sam".to_string(),
        credit_card: "1234".to_string(),
        subscriptions: vec!["A".to_string(), "B".to_string()],
    })
}

/// An execution of the subscription that has its identifier and is about to
/// pay.
fn about_to_pay(engine: &mut Engine, world: &mut World) -> (u64, Execution) {
    let request = subscription_of_sam();
    let id = started(engine.submit(handler_id(&request, "add"), String::new(), Value::Unit, 0));
    let mut x = ready(engine.start(id, 0));
    match x.runner.advance(&request, 0) {
        Next::Perform(action) => {
            let outcome = world.perform(&action);
            engine.complete(&mut x, &request, outcome, 0).unwrap();
        }
        other => panic!("unexpected: {:?}", other),
    }
    assert!(matches!(x.runner.advance(&request, 0), Next::Perform(Action::Run { .. })));
    (id, x)
}

#[test]
fn a_side_effect_that_fails_for_the_moment_is_performed_again() {
    let mut engine = Engine::new(100, 1000, 2);
    let mut world = World::new();
    let request = subscription_of_sam();
    let (id, x) = about_to_pay(&mut engine, &mut world);
    let x = match engine.setback(x, EngineError::TransientOperationError) {
        Ok(Setback::Repeat(x)) => x,
        _ => panic!("the payment is to be performed again"),
    };
    assert_eq!(x.runner.phase(), Phase::Live);
    assert_eq!(x.runner.attempts(), 1);
    assert_eq!(x.runner.journal_len(), 1);
    // The second try succeeds, and the invocation goes on to its end.
    let mut x = Some(x);
    let end = drive(&mut engine, &mut x, &request, 0, &mut world);
    assert_eq!(end, End::Finished(Outcome::Success(Value::Unit), Vec::new()));
    assert_eq!(world.performed, vec!["uuid", "pay", "add-A", "add-B"]);
    assert_eq!(engine.journals.status(id), Some(Status::Completed));
}

#[test]
fn repeated_failures_use_up_the_budget_and_fail_the_invocation() {
    let mut engine = Engine::new(100, 1000, 2);
    let mut world = World::new();
    let (id, x) = about_to_pay(&mut engine, &mut world);
    let x = match engine.setback(x, EngineError::TransientOperationError) {
        Ok(Setback::Repeat(x)) => x,
        _ => panic!("first retry"),
    };
    let x = match engine.setback(x, EngineError::TransientOperationError) {
        Ok(Setback::Repeat(x)) => x,
        _ => panic!("second retry"),
    };
    match engine.setback(x, EngineError::TransientOperationError) {
        Ok(Setback::Failed(started)) => assert!(started.is_empty()),
        _ => panic!("the budget is spent"),
    }
    assert_eq!(engine.journals.status(id), Some(Status::Failed));
    let error = Outcome::Failure("TransientOperationError".to_string());
    assert_eq!(engine.attach(id), Ok(Some(error.clone())));
    assert_eq!(engine.attach(id), Ok(Some(error)));
    // What was recorded stays on record.
    assert_eq!(engine.journals.journal(id).unwrap().len(), 1);
    assert!(matches!(engine.start(id, 0), Err(EngineError::AlreadyCompleted)));
}

#[test]
fn a_storage_failure_starts_the_attempt_over() {
    let mut engine = Engine::new(100, 1000, 2);
    let mut world = World::new();
    let request = subscription_of_sam();
    let (_, x) = about_to_pay(&mut engine, &mut world);
    let x = match engine.setback(x, EngineError::StorageUnavailable) {
        Ok(Setback::Restarted(x)) => x,
        _ => panic!("the attempt starts over"),
    };
    assert_eq!(x.runner.phase(), Phase::Replaying);
    assert_eq!(x.runner.cursor(), 0);
    assert_eq!(x.runner.attempts(), 1);
    let mut x = Some(x);
    let end = drive(&mut engine, &mut x, &request, 0, &mut world);
    assert_eq!(end, End::Finished(Outcome::Success(Value::Unit), Vec::new()));
    // The identifier was on record: it was not drawn again.
    assert_eq!(world.performed, vec!["uuid", "pay", "add-A", "add-B"]);
}

#[test]
fn a_fatal_error_fails_the_invocation_and_frees_its_key() {
    let mut engine = Engine::new(100, 1000, 3);
    let request = greet("mary");
    let first = started(engine.submit(handler_id(&request, "greet"), "mary".to_string(), Value::Unit, 0));
    let second = engine.submit(handler_id(&request, "greet"), "mary".to_string(), Value::Unit, 0);
    assert_eq!(second, Ok(Submission::Queued { id: 1 }));
    let mut x = ready(engine.start(first, 0));
    x.runner.advance(&request, 0);
    assert_eq!(engine.perform(&mut x, &request, 0), Ok(Progress::Continued));
    x.runner.advance(&request, 0);
    assert_eq!(engine.perform(&mut x, &request, 0), Ok(Progress::Continued));
    let error = EngineError::NonDeterminismError { position: 0, found: EntryKind::StateGet };
    match engine.setback(x, error) {
        Ok(Setback::Failed(started)) => assert_eq!(started, vec![1]),
        _ => panic!("the invocation fails for good"),
    }
    assert_eq!(engine.journals.status(first), Some(Status::Failed));
    assert_eq!(
        engine.attach(first),
        Ok(Some(Outcome::Failure("NonDeterminismError".to_string())))
    );
    // The write of the failed invocation was not committed.
    assert_eq!(engine.state.get("GreeterObject", "mary", "count"), None);
    assert_eq!(engine.locks.inspect("GreeterObject", "mary").holder(), Some(1));
}

#[test]
fn a_condition_that_is_no_failure_changes_nothing() {
    let mut engine = Engine::new(100, 1000, 2);
    let mut world = World::new();
    let (id, x) = about_to_pay(&mut engine, &mut world);
    let x = match engine.setback(x, EngineError::AlreadyResolved) {
        Ok(Setback::Ignored(x)) => x,
        _ => panic!("nothing to do"),
    };
    assert_eq!(x.runner.phase(), Phase::Live);
    assert_eq!(x.runner.attempts(), 0);
    assert_eq!(engine.journals.status(id), Some(Status::Running));
}

#[test]
fn an_attempt_that_does_not_execute_is_not_retried() {
    let mut engine = Engine::new(100, 1000, 2);
    let request = subscription_of_sam();
    let id = started(engine.submit(handler_id(&request, "add"), String::new(), Value::Unit, 0));
    let mut x = ready(engine.start(id, 0));
    x.runner.abort();
    assert!(matches!(
        engine.setback(x, EngineError::TransientOperationError),
        Err(EngineError::NotRunning)
    ));
    assert_eq!(engine.journals.status(id), Some(Status::Running));
}

#[test]
fn a_failure_that_cannot_be_recorded_leaves_the_invocation_to_be_started_again() {
    let mut engine = Engine::new(100, 1000, 0);
    let mut world = World::new();
    let (id, x) = about_to_pay(&mut engine, &mut world);
    engine.journals.set_online(false);
    assert!(matches!(
        engine.setback(x, EngineError::StorageUnavailable),
        Err(EngineError::StorageUnavailable)
    ));
    engine.journals.set_online(true);
    assert_eq!(engine.journals.status(id), Some(Status::Running));
    let x = ready(engine.start(id, 0));
    assert_eq!(x.runner.phase(), Phase::Replaying);
}
