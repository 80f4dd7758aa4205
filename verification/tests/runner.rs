use durable_exec::action::{Action, Event};
use durable_exec::entry::{EntryKind, JournalEntry};
use durable_exec::error::EngineError;
use durable_exec::handlers::subscription::SubscriptionRequest;
use durable_exec::handlers::Request;
use durable_exec::runner::{Next, Phase, Retry, Runner, Wait};
use durable_exec::value::{Outcome, Value};

fn text(s: &str) -> Outcome {
    Outcome::Success(Value::Text(s.to_string()))
}

fn effect(outcome: Outcome) -> JournalEntry {
    JournalEntry::SideEffectResult { outcome }
}

fn add_request(subscriptions: &[&str]) -> Request {
    Request::SubscriptionAdd(SubscriptionRequest {
        user_id: "Sam Beckett".to_string(),
        credit_card: "1234-5678-9012-3456".to_string(),
        subscriptions: subscriptions.iter().map(|s| s.to_string()).collect(),
    })
}

fn run_name(action: &Action) -> String {
    match action {
        Action::Run { name, .. } => name.clone(),
        other => panic!("not a side effect: {:?}", other),
    }
}

/// Runs the handler to its end on the given journal, performing every side
/// effect that the runner hands out with success, and returns the names of
/// the effects performed, in order, with the journal after.
fn run_to_end(handler: &Request, journal: Vec<JournalEntry>) -> (Vec<String>, Vec<JournalEntry>, Outcome) {
    let mut runner = Runner::new(journal, 3);
    runner.begin();
    let mut performed = Vec::new();
    loop {
        match runner.advance(handler, 0) {
            Next::Perform(action) => {
                let name = run_name(&action);
                let result = if name == "uuid" {
                    text("id-1")
                } else if name == "pay" {
                    text("payRef-1")
                } else {
                    text("SUCCESS")
                };
                performed.push(name);
                runner.complete(handler, effect(result), 0).unwrap();
            }
            Next::Done(outcome) => {
                return (performed, runner.journal().clone(), outcome);
            }
            other => panic!("unexpected: {:?}", other),
        }
    }
}

#[test]
fn fresh_runner_with_empty_journal_goes_live() {
    let mut runner = Runner::new(Vec::new(), 3);
    assert_eq!(runner.phase(), Phase::Fresh);
    assert_eq!(runner.begin(), Phase::Live);
    assert_eq!(runner.cursor(), 0);
    assert_eq!(runner.journal_len(), 0);
}

#[test]
fn fresh_runner_with_entries_replays_from_zero() {
    let mut runner = Runner::new(vec![effect(text("id-1"))], 3);
    assert_eq!(runner.begin(), Phase::Replaying);
    assert_eq!(runner.cursor(), 0);
    // Beginning twice changes nothing.
    assert_eq!(runner.begin(), Phase::Replaying);
}

#[test]
fn advance_before_begin_is_not_running() {
    let handler = add_request(&["A"]);
    let mut runner = Runner::new(Vec::new(), 3);
    assert_eq!(runner.advance(&handler, 0), Next::NotRunning);
    assert_eq!(runner.phase(), Phase::Fresh);
}

#[test]
fn first_run_performs_every_effect_once_in_order() {
    let handler = add_request(&["A", "B"]);
    let (performed, journal, outcome) = run_to_end(&handler, Vec::new());
    assert_eq!(performed, vec!["uuid", "pay", "add-A", "add-B"]);
    assert_eq!(journal.len(), 4);
    assert_eq!(outcome, Outcome::Success(Value::Unit));
}

#[test]
fn replay_of_a_complete_journal_performs_nothing() {
    let handler = add_request(&["A", "B"]);
    let (_, journal, _) = run_to_end(&handler, Vec::new());
    for _ in 0..5 {
        let (performed, after, outcome) = run_to_end(&handler, journal.clone());
        assert_eq!(performed, Vec::<String>::new());
        assert_eq!(after, journal);
        assert_eq!(outcome, Outcome::Success(Value::Unit));
    }
}

#[test]
fn crash_after_payment_replays_payment_and_runs_subscriptions_once() {
    let handler = add_request(&["A", "B"]);
    // The journal as a crash left it: the identifier and the payment are on
    // record, no subscription is.
    let journal = vec![effect(text("id-1")), effect(text("payRef-recorded"))];
    let mut runner = Runner::new(journal, 3);
    assert_eq!(runner.begin(), Phase::Replaying);
    let first = runner.advance(&handler, 0);
    // The payment is not performed again: the first operation handed out is
    // the first subscription, and it carries the recorded reference.
    assert_eq!(
        first,
        Next::Perform(Action::Run {
            name: "add-A".to_string(),
            args: vec!["Sam Beckett".to_string(), "A".to_string(), "payRef-recorded".to_string()],
        })
    );
    assert_eq!(runner.phase(), Phase::Live);
    assert_eq!(runner.cursor(), 2);
    assert_eq!(runner.complete(&handler, effect(text("SUCCESS")), 0), Ok(2));
    assert_eq!(
        runner.advance(&handler, 0),
        Next::Perform(Action::Run {
            name: "add-B".to_string(),
            args: vec!["Sam Beckett".to_string(), "B".to_string(), "payRef-recorded".to_string()],
        })
    );
    assert_eq!(runner.complete(&handler, effect(text("SUCCESS")), 0), Ok(3));
    assert_eq!(runner.advance(&handler, 0), Next::Done(Outcome::Success(Value::Unit)));
    assert_eq!(runner.phase(), Phase::Terminal);
    assert_eq!(runner.journal_len(), 4);
}

#[test]
fn resubmission_after_crash_counts_each_effect_once() {
    let handler = add_request(&["A", "B"]);
    let journal = vec![effect(text("id-1")), effect(text("payRef-recorded"))];
    let (performed, after, _) = run_to_end(&handler, journal);
    assert_eq!(performed, vec!["add-A", "add-B"]);
    // And once more on the journal that this left: nothing at all.
    let (again, _, _) = run_to_end(&handler, after);
    assert_eq!(again, Vec::<String>::new());
}

#[test]
fn replay_with_another_kind_of_operation_is_non_determinism() {
    // Recorded by a handler that reads state first; replayed by one that
    // starts with a side effect.
    let journal = vec![JournalEntry::StateGet { key: "count".to_string(), value: None }];
    let handler = add_request(&["A"]);
    let mut runner = Runner::new(journal, 3);
    runner.begin();
    assert_eq!(
        runner.advance(&handler, 0),
        Next::Failed(EngineError::NonDeterminismError { position: 0, found: EntryKind::StateGet })
    );
    assert_eq!(runner.phase(), Phase::Terminal);
    assert_eq!(runner.journal_len(), 1);
    // A terminal runner takes nothing more.
    assert_eq!(runner.advance(&handler, 0), Next::NotRunning);
    assert_eq!(
        runner.complete(&handler, effect(text("x")), 0),
        Err(EngineError::NotRunning)
    );
}

#[test]
fn mismatch_in_the_middle_is_found_at_its_position() {
    let journal = vec![
        effect(text("id-1")),
        effect(text("payRef-1")),
        JournalEntry::SleepUntil { timestamp: 0 },
    ];
    let handler = add_request(&["A"]);
    let mut runner = Runner::new(journal, 3);
    runner.begin();
    assert_eq!(
        runner.advance(&handler, 10),
        Next::Failed(EngineError::NonDeterminismError { position: 2, found: EntryKind::SleepUntil })
    );
}

#[test]
fn journal_longer_than_the_handler_is_non_determinism() {
    let journal = vec![
        effect(text("id-1")),
        effect(text("payRef-1")),
        effect(text("SUCCESS")),
    ];
    let handler = add_request(&[]);
    let mut runner = Runner::new(journal, 3);
    runner.begin();
    assert_eq!(
        runner.advance(&handler, 0),
        Next::Failed(EngineError::NonDeterminismError {
            position: 2,
            found: EntryKind::SideEffectResult
        })
    );
}

#[test]
fn complete_refuses_an_entry_of_the_wrong_kind() {
    let handler = add_request(&["A"]);
    let mut runner = Runner::new(Vec::new(), 3);
    runner.begin();
    assert_eq!(
        runner.complete(&handler, JournalEntry::SleepUntil { timestamp: 5 }, 0),
        Err(EngineError::UnexpectedEntry)
    );
    assert_eq!(runner.journal_len(), 0);
    assert_eq!(runner.accepts(&handler, EntryKind::SideEffectResult), Ok(()));
    assert_eq!(runner.accepts(&handler, EntryKind::CallResult), Err(EngineError::UnexpectedEntry));
}

#[test]
fn sequence_numbers_of_completions_count_up_from_zero() {
    let handler = add_request(&["A"]);
    let mut runner = Runner::new(Vec::new(), 3);
    runner.begin();
    assert_eq!(runner.complete(&handler, effect(text("id")), 0), Ok(0));
    assert_eq!(runner.complete(&handler, effect(text("ref")), 0), Ok(1));
    assert_eq!(runner.complete(&handler, effect(text("SUCCESS")), 0), Ok(2));
    assert_eq!(runner.complete(&handler, effect(text("extra")), 0), Err(EngineError::UnexpectedEntry));
}

#[test]
fn recorded_sleep_suspends_until_its_deadline() {
    let handler = Request::Greet {
        name: "Ada".to_string(),
        wording: durable_exec::handlers::greeter::Wording::Greetings,
    };
    let journal = vec![
        effect(text("g-1")),
        effect(Outcome::Success(Value::Unit)),
        JournalEntry::SleepUntil { timestamp: 1000 },
    ];
    let mut runner = Runner::new(journal, 3);
    runner.begin();
    let wait = Wait::Timer { fire_at: 1000 };
    assert_eq!(runner.advance(&handler, 999), Next::Suspended(wait));
    assert_eq!(runner.phase(), Phase::Suspended);
    assert_eq!(runner.cursor(), 2);
    assert_eq!(runner.wait(), Some(wait));
    // While suspended nothing advances.
    assert_eq!(runner.advance(&handler, 5000), Next::NotRunning);
    // The timer fires: the runner resumes, once.
    assert!(runner.wake(wait));
    assert!(!runner.wake(wait));
    assert_eq!(runner.phase(), Phase::Replaying);
    match runner.advance(&handler, 1000) {
        Next::Perform(action) => assert_eq!(run_name(&action), "reminder"),
        other => panic!("unexpected: {:?}", other),
    }
    assert_eq!(runner.phase(), Phase::Live);
}

#[test]
fn early_wake_suspends_again() {
    let handler = Request::Greet {
        name: "Ada".to_string(),
        wording: durable_exec::handlers::greeter::Wording::Greetings,
    };
    let journal = vec![
        effect(text("g-1")),
        effect(Outcome::Success(Value::Unit)),
        JournalEntry::SleepUntil { timestamp: 1000 },
    ];
    let mut runner = Runner::new(journal, 3);
    runner.begin();
    let wait = Wait::Timer { fire_at: 1000 };
    assert_eq!(runner.advance(&handler, 10), Next::Suspended(wait));
    assert!(runner.wake(wait));
    assert_eq!(runner.advance(&handler, 20), Next::Suspended(wait));
}

#[test]
fn wake_for_something_else_is_ignored() {
    let handler = add_request(&["A"]);
    let mut runner = Runner::new(Vec::new(), 3);
    runner.begin();
    assert!(!runner.wake(Wait::Timer { fire_at: 1 }));
    assert!(!runner.wake(Wait::Awakeable { id: 0 }));
    assert_eq!(runner.phase(), Phase::Live);
    assert_eq!(runner.suspend(&handler), Err(EngineError::UnexpectedEntry));
}

#[test]
fn live_sleep_suspends_under_the_new_entry() {
    let handler = Request::Greet {
        name: "Ada".to_string(),
        wording: durable_exec::handlers::greeter::Wording::Greetings,
    };
    let mut runner = Runner::new(Vec::new(), 3);
    runner.begin();
    runner.complete(&handler, effect(text("g-1")), 0).unwrap();
    runner.complete(&handler, effect(Outcome::Success(Value::Unit)), 0).unwrap();
    assert_eq!(
        runner.advance(&handler, 0),
        Next::Perform(Action::Sleep { duration_ms: 1000 })
    );
    assert_eq!(runner.complete(&handler, JournalEntry::SleepUntil { timestamp: 1000 }, 0), Ok(2));
    assert_eq!(runner.phase(), Phase::Suspended);
    assert_eq!(runner.wait(), Some(Wait::Timer { fire_at: 1000 }));
    assert_eq!(runner.cursor(), 2);
    assert_eq!(runner.journal_len(), 3);
}

#[test]
fn retry_restarts_with_the_journal_until_the_budget_is_spent() {
    let handler = add_request(&["A"]);
    let mut runner = Runner::new(Vec::new(), 2);
    assert_eq!(runner.retry(), Retry::NotRunning);
    runner.begin();
    runner.complete(&handler, effect(text("id")), 0).unwrap();
    assert_eq!(runner.retry(), Retry::Restarted);
    assert_eq!(runner.phase(), Phase::Fresh);
    assert_eq!(runner.cursor(), 0);
    assert_eq!(runner.journal_len(), 1);
    assert_eq!(runner.attempts(), 1);
    runner.begin();
    assert_eq!(runner.retry(), Retry::Restarted);
    runner.begin();
    assert_eq!(runner.retry(), Retry::Exhausted);
    assert_eq!(runner.phase(), Phase::Terminal);
    assert_eq!(runner.journal_len(), 1);
    assert_eq!(runner.retry(), Retry::NotRunning);
}

#[test]
fn effect_retries_share_the_budget() {
    let mut runner = Runner::new(Vec::new(), 2);
    assert_eq!(runner.retry_effect(), Retry::NotRunning);
    runner.begin();
    assert_eq!(runner.retry_effect(), Retry::Repeat);
    assert_eq!(runner.phase(), Phase::Live);
    assert_eq!(runner.retry_effect(), Retry::Repeat);
    assert_eq!(runner.attempts(), 2);
    assert_eq!(runner.retry_effect(), Retry::Exhausted);
    assert_eq!(runner.phase(), Phase::Terminal);
}

#[test]
fn abort_makes_any_runner_terminal() {
    let mut runner = Runner::new(vec![effect(text("id"))], 1);
    runner.abort();
    assert_eq!(runner.phase(), Phase::Terminal);
    assert_eq!(runner.wait(), None);
    assert_eq!(runner.journal_len(), 1);
}

#[test]
fn replayed_events_are_the_recorded_ones() {
    let handler = add_request(&["A"]);
    let journal = vec![effect(text("recorded-id"))];
    let mut runner = Runner::new(journal, 3);
    runner.begin();
    // The payment step is built from the recorded identifier.
    assert_eq!(
        runner.advance(&handler, 0),
        Next::Perform(Action::Run {
            name: "pay".to_string(),
            args: vec!["1234-5678-9012-3456".to_string(), "recorded-id".to_string()],
        })
    );
    assert_eq!(
        runner.pending(&handler),
        Action::Run {
            name: "pay".to_string(),
            args: vec!["1234-5678-9012-3456".to_string(), "recorded-id".to_string()],
        }
    );
    let _ = Event::Ack;
}
