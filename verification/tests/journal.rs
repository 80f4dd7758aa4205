use durable_exec::entry::JournalEntry;
use durable_exec::error::{EngineError, Remedy};
use durable_exec::journal::JournalStore;
use durable_exec::locks::HandlerKind;
use durable_exec::record::{HandlerId, Status};
use durable_exec::runner::Wait;
use durable_exec::value::{Outcome, Value};

fn greeter() -> HandlerId {
    HandlerId {
        service: "Greeter".to_string(),
        method: "greet".to_string(),
        kind: HandlerKind::Service,
    }
}

fn sleep(timestamp: u64) -> JournalEntry {
    JournalEntry::SleepUntil { timestamp }
}

fn store_with_one(capacity: usize) -> (JournalStore, u64) {
    let mut store = JournalStore::new(capacity);
    let id = store.create(greeter(), String::new(), Value::Text("Ada".to_string())).unwrap();
    (store, id)
}

#[test]
fn invocation_identifiers_count_up_from_zero() {
    let mut store = JournalStore::new(10);
    assert_eq!(store.len(), 0);
    assert_eq!(store.create(greeter(), String::new(), Value::Unit), Ok(0));
    assert_eq!(store.create(greeter(), String::new(), Value::Unit), Ok(1));
    assert_eq!(store.len(), 2);
    assert_eq!(store.status(0), Some(Status::Running));
    assert_eq!(store.status(2), None);
}

#[test]
fn append_returns_gapless_sequence_numbers() {
    let (mut store, id) = store_with_one(10);
    assert_eq!(store.append(id, sleep(1)), Ok(0));
    assert_eq!(store.append(id, sleep(2)), Ok(1));
    assert_eq!(store.append(id, sleep(3)), Ok(2));
}

#[test]
fn sequence_numbers_are_per_invocation() {
    let (mut store, first) = store_with_one(10);
    let second = store.create(greeter(), String::new(), Value::Unit).unwrap();
    assert_eq!(store.append(first, sleep(1)), Ok(0));
    assert_eq!(store.append(second, sleep(7)), Ok(0));
    assert_eq!(store.append(first, sleep(2)), Ok(1));
    assert_eq!(store.append(second, sleep(8)), Ok(1));
}

#[test]
fn read_all_gives_the_entries_in_order_with_their_numbers() {
    let (mut store, id) = store_with_one(10);
    store.append(id, sleep(5)).unwrap();
    store.append(id, JournalEntry::AwakeableCreated { id: 9 }).unwrap();
    assert_eq!(
        store.read_all(id),
        Ok(vec![(0, sleep(5)), (1, JournalEntry::AwakeableCreated { id: 9 })])
    );
    assert_eq!(store.journal(id), Ok(vec![sleep(5), JournalEntry::AwakeableCreated { id: 9 }]));
}

#[test]
fn read_all_of_a_new_invocation_is_empty() {
    let (store, id) = store_with_one(10);
    assert_eq!(store.read_all(id), Ok(Vec::new()));
}

#[test]
fn unknown_invocation_is_reported() {
    let (mut store, _) = store_with_one(10);
    assert_eq!(store.append(5, sleep(1)), Err(EngineError::UnknownInvocation));
    assert_eq!(store.read_all(5), Err(EngineError::UnknownInvocation));
    assert_eq!(store.journal(5), Err(EngineError::UnknownInvocation));
    assert_eq!(store.attach(5), Err(EngineError::UnknownInvocation));
    assert_eq!(
        store.mark_terminal(5, Status::Completed, Outcome::Success(Value::Unit)),
        Err(EngineError::UnknownInvocation)
    );
    assert_eq!(
        store.set_suspended(5, Some(Wait::Awakeable { id: 0 })),
        Err(EngineError::UnknownInvocation)
    );
    assert_eq!(store.call_of(5), None);
}

#[test]
fn append_fails_with_storage_unavailable_when_offline() {
    let (mut store, id) = store_with_one(10);
    store.set_online(false);
    assert_eq!(store.append(id, sleep(1)), Err(EngineError::StorageUnavailable));
    assert_eq!(store.read_all(id), Ok(Vec::new()));
    assert!(EngineError::StorageUnavailable.is_retryable());
    // The retry succeeds once the medium is back, with the number that the
    // failed append would have had.
    store.set_online(true);
    assert_eq!(store.append(id, sleep(1)), Ok(0));
}

#[test]
fn append_fails_with_storage_unavailable_when_full() {
    // The medium holds three records: the creation and two entries.
    let (mut store, id) = store_with_one(3);
    assert!(store.is_writable());
    assert_eq!(store.append(id, sleep(1)), Ok(0));
    assert_eq!(store.append(id, sleep(2)), Ok(1));
    assert!(!store.is_writable());
    assert_eq!(store.append(id, sleep(3)), Err(EngineError::StorageUnavailable));
    assert_eq!(store.read_all(id).unwrap().len(), 2);
    assert_eq!(
        store.mark_terminal(id, Status::Completed, Outcome::Success(Value::Unit)),
        Err(EngineError::StorageUnavailable)
    );
    assert_eq!(
        store.create(greeter(), String::new(), Value::Unit),
        Err(EngineError::StorageUnavailable)
    );
}

#[test]
fn create_fails_when_offline() {
    let mut store = JournalStore::new(2);
    store.set_online(false);
    assert_eq!(
        store.create(greeter(), String::new(), Value::Unit),
        Err(EngineError::StorageUnavailable)
    );
    assert_eq!(store.len(), 0);
}

#[test]
fn mark_terminal_stores_status_and_result() {
    let (mut store, id) = store_with_one(10);
    assert_eq!(store.attach(id), Ok(None));
    let result = Outcome::Success(Value::Text("Greetings Ada".to_string()));
    assert_eq!(store.mark_terminal(id, Status::Completed, result.clone()), Ok(()));
    assert_eq!(store.status(id), Some(Status::Completed));
    assert_eq!(store.attach(id), Ok(Some(result.clone())));
    assert_eq!(store.attach(id), Ok(Some(result)));
}

#[test]
fn failed_invocation_gives_its_recorded_error_to_every_caller() {
    let (mut store, id) = store_with_one(10);
    let error = Outcome::Failure("card declined".to_string());
    assert_eq!(store.mark_terminal(id, Status::Failed, error.clone()), Ok(()));
    assert_eq!(store.status(id), Some(Status::Failed));
    assert_eq!(store.attach(id), Ok(Some(error.clone())));
    assert_eq!(store.attach(id), Ok(Some(error)));
}

#[test]
fn terminal_invocation_is_final() {
    let (mut store, id) = store_with_one(10);
    store.append(id, sleep(1)).unwrap();
    let first = Outcome::Success(Value::Bool(true));
    store.mark_terminal(id, Status::Completed, first.clone()).unwrap();
    assert_eq!(
        store.mark_terminal(id, Status::Failed, Outcome::Failure("late".to_string())),
        Err(EngineError::AlreadyCompleted)
    );
    assert_eq!(store.append(id, sleep(2)), Err(EngineError::AlreadyCompleted));
    assert_eq!(
        store.set_suspended(id, Some(Wait::Timer { fire_at: 1 })),
        Err(EngineError::AlreadyCompleted)
    );
    assert_eq!(store.status(id), Some(Status::Completed));
    assert_eq!(store.attach(id), Ok(Some(first)));
    // The journal is retained.
    assert_eq!(store.read_all(id), Ok(vec![(0, sleep(1))]));
    assert!(EngineError::AlreadyCompleted.is_idempotent_noop());
    assert!(!EngineError::AlreadyCompleted.is_retryable());
}

#[test]
fn mark_terminal_wants_a_terminal_status() {
    let (mut store, id) = store_with_one(10);
    assert_eq!(
        store.mark_terminal(id, Status::Running, Outcome::Success(Value::Unit)),
        Err(EngineError::NotTerminal)
    );
    assert_eq!(
        store.mark_terminal(id, Status::Suspended, Outcome::Success(Value::Unit)),
        Err(EngineError::NotTerminal)
    );
    assert_eq!(store.status(id), Some(Status::Running));
    assert!(Status::Completed.is_terminal());
    assert!(Status::Failed.is_terminal());
    assert!(!Status::Running.is_terminal());
    assert!(!Status::Suspended.is_terminal());
}

#[test]
fn mark_terminal_fails_when_offline() {
    let (mut store, id) = store_with_one(10);
    store.set_online(false);
    assert_eq!(
        store.mark_terminal(id, Status::Completed, Outcome::Success(Value::Unit)),
        Err(EngineError::StorageUnavailable)
    );
    assert_eq!(store.status(id), Some(Status::Running));
}

#[test]
fn suspension_is_noted_and_lifted() {
    let (mut store, id) = store_with_one(10);
    let wait = Wait::Timer { fire_at: 500 };
    assert_eq!(store.waiting(id), None);
    assert_eq!(store.set_suspended(id, Some(wait)), Ok(()));
    assert_eq!(store.status(id), Some(Status::Suspended));
    assert_eq!(store.waiting(id), Some(wait));
    // A suspended invocation still takes entries: the event that wakes it.
    assert_eq!(store.append(id, sleep(1)), Ok(0));
    assert_eq!(store.set_suspended(id, None), Ok(()));
    assert_eq!(store.status(id), Some(Status::Running));
    assert_eq!(store.waiting(id), None);
}

#[test]
fn call_of_gives_handler_key_and_input() {
    let mut store = JournalStore::new(10);
    let handler = HandlerId {
        service: "CartObject".to_string(),
        method: "checkout".to_string(),
        kind: HandlerKind::Object,
    };
    let id = store.create(handler, "mary".to_string(), Value::Unit).unwrap();
    let (h, key, input) = store.call_of(id).unwrap();
    assert_eq!(h.service, "CartObject");
    assert_eq!(h.method, "checkout");
    assert_eq!(h.kind, HandlerKind::Object);
    assert_eq!(key, "mary");
    assert_eq!(input, Value::Unit);
}

#[test]
fn error_names_and_classes() {
    assert_eq!(EngineError::StorageUnavailable.name(), "StorageUnavailable");
    assert_eq!(EngineError::LockTimeout.name(), "LockTimeout");
    assert_eq!(EngineError::AlreadyResolved.name(), "AlreadyResolved");
    assert_eq!(EngineError::TransientOperationError.name(), "TransientOperationError");
    assert_eq!(
        EngineError::NonDeterminismError {
            position: 3,
            found: durable_exec::entry::EntryKind::StateGet
        }
        .name(),
        "NonDeterminismError"
    );
    assert!(EngineError::TransientOperationError.is_retryable());
    assert!(EngineError::LockTimeout.is_retryable());
    assert!(!EngineError::UnknownInvocation.is_retryable());
    assert!(EngineError::AlreadyResolved.is_idempotent_noop());
    assert!(!EngineError::LockTimeout.is_idempotent_noop());
    assert!(
        !EngineError::NonDeterminismError {
            position: 0,
            found: durable_exec::entry::EntryKind::StateGet
        }
        .is_retryable()
    );
}

fn busy_store() -> JournalStore {
    let mut store = JournalStore::new(20);
    let first = store.create(greeter(), String::new(), Value::Text("Ada".to_string())).unwrap();
    let cart = HandlerId {
        service: "CartObject".to_string(),
        method: "checkout".to_string(),
        kind: HandlerKind::Object,
    };
    let second = store
        .create(cart, "mary".to_string(), Value::List(vec!["seat2B".to_string(), "seat7A".to_string()]))
        .unwrap();
    store
        .append(
            first,
            JournalEntry::SideEffectResult {
                outcome: Outcome::Success(Value::Text("pay-\u{e9}\u{4e16}".to_string())),
            },
        )
        .unwrap();
    store.append(second, JournalEntry::StateGet { key: "tickets".to_string(), value: None }).unwrap();
    store.append(first, sleep(1000)).unwrap();
    store.set_suspended(first, Some(Wait::Timer { fire_at: 1000 })).unwrap();
    store
        .mark_terminal(second, Status::Failed, Outcome::Failure("card declined".to_string()))
        .unwrap();
    store
}

fn same_invocations(a: &JournalStore, b: &JournalStore) {
    assert_eq!(a.len(), b.len());
    for id in 0..a.len() as u64 {
        assert_eq!(a.call_of(id), b.call_of(id));
        assert_eq!(a.status(id), b.status(id));
        assert_eq!(a.waiting(id), b.waiting(id));
        assert_eq!(a.read_all(id), b.read_all(id));
        assert_eq!(a.attach(id), b.attach(id));
    }
}

#[test]
fn a_new_store_has_an_empty_log() {
    let store = JournalStore::new(4);
    assert!(store.log().is_empty());
    let back = JournalStore::recover(store.log(), 4).unwrap();
    assert_eq!(back.len(), 0);
}

#[test]
fn every_change_is_written_to_the_log() {
    let (mut store, id) = store_with_one(10);
    let created = store.log().len();
    assert!(created > 0);
    store.append(id, sleep(1)).unwrap();
    let appended = store.log().len();
    assert!(appended > created);
    store.set_suspended(id, Some(Wait::Awakeable { id: 3 })).unwrap();
    let suspended = store.log().len();
    assert!(suspended > appended);
    store.mark_terminal(id, Status::Completed, Outcome::Success(Value::Unit)).unwrap();
    assert!(store.log().len() > suspended);
}

#[test]
fn a_refused_change_writes_nothing() {
    let (mut store, id) = store_with_one(10);
    let before = store.log().clone();
    assert!(store.append(7, sleep(1)).is_err());
    store.set_online(false);
    assert!(store.append(id, sleep(1)).is_err());
    assert!(store.create(greeter(), String::new(), Value::Unit).is_err());
    store.set_online(true);
    assert!(store.mark_terminal(id, Status::Running, Outcome::Success(Value::Unit)).is_err());
    assert_eq!(store.log(), &before);
}

#[test]
fn the_store_is_recovered_from_its_log() {
    let store = busy_store();
    let back = JournalStore::recover(store.log(), 20).unwrap();
    same_invocations(&store, &back);
    assert_eq!(back.log(), store.log());
    assert!(back.is_online());
    assert_eq!(back.status(0), Some(Status::Suspended));
    assert_eq!(back.waiting(0), Some(Wait::Timer { fire_at: 1000 }));
    assert_eq!(
        back.read_all(0),
        Ok(vec![
            (
                0,
                JournalEntry::SideEffectResult {
                    outcome: Outcome::Success(Value::Text("pay-\u{e9}\u{4e16}".to_string())),
                }
            ),
            (1, sleep(1000)),
        ])
    );
    assert_eq!(back.attach(1), Ok(Some(Outcome::Failure("card declined".to_string()))));
}

#[test]
fn a_recovered_store_goes_on_where_the_first_stopped() {
    let store = busy_store();
    let mut back = JournalStore::recover(store.log(), 20).unwrap();
    assert_eq!(back.append(0, sleep(2000)), Ok(2));
    assert_eq!(back.append(1, sleep(1)), Err(EngineError::AlreadyCompleted));
    assert_eq!(back.create(greeter(), String::new(), Value::Unit), Ok(2));
    let again = JournalStore::recover(back.log(), 20).unwrap();
    same_invocations(&back, &again);
}

#[test]
fn recovery_needs_room_for_every_record() {
    let store = busy_store();
    // Two creations, three entries, a suspension and an ending.
    assert!(JournalStore::recover(store.log(), 6).is_none());
    let full = JournalStore::recover(store.log(), 7).unwrap();
    assert!(!full.is_writable());
    same_invocations(&store, &full);
}

#[test]
fn a_torn_log_is_not_recovered() {
    let store = busy_store();
    let log = store.log();
    assert!(JournalStore::recover(&log[..log.len() - 1], 20).is_none());
    let mut unknown_tag = log.clone();
    unknown_tag.push(9);
    assert!(JournalStore::recover(&unknown_tag, 20).is_none());
}

#[test]
fn a_log_with_a_text_that_is_no_utf8_is_not_recovered() {
    let (store, _) = store_with_one(10);
    let mut log = store.log().clone();
    let at = log.len() - 3;
    assert_eq!(&log[at..], "Ada".as_bytes());
    log[at] = 0xff;
    assert!(JournalStore::recover(&log, 10).is_none());
}

#[test]
fn a_log_whose_record_cannot_follow_is_not_recovered() {
    // An entry for an invocation that was never created.
    let mut first = JournalStore::new(10);
    first.create(greeter(), String::new(), Value::Unit).unwrap();
    let created = first.log().len();
    first.append(0, sleep(1)).unwrap();
    let orphan = first.log()[created..].to_vec();
    assert!(JournalStore::recover(&orphan, 10).is_none());
    // An entry after the ending.
    first.mark_terminal(0, Status::Completed, Outcome::Success(Value::Unit)).unwrap();
    let mut late = first.log().clone();
    late.extend_from_slice(&orphan);
    assert!(JournalStore::recover(&late, 10).is_none());
}

#[test]
fn salvage_of_a_whole_log_is_the_store() {
    let store = busy_store();
    let back = JournalStore::salvage(store.log(), 20);
    same_invocations(&store, &back);
    assert_eq!(back.log(), store.log());
}

#[test]
fn a_torn_write_loses_only_itself() {
    let before = busy_store();
    let mut after = busy_store();
    after
        .append(
            0,
            JournalEntry::CallResult {
                target: durable_exec::target::Target::keyed("TicketObject", "seat2B", "reserve"),
                outcome: Outcome::Success(Value::Bool(true)),
            },
        )
        .unwrap();
    let whole = after.log();
    let written = before.log().len();
    // The process died at any byte of the last record.
    for cut in written..whole.len() {
        let back = JournalStore::salvage(&whole[..cut], 20);
        same_invocations(&before, &back);
        assert_eq!(back.log(), before.log());
    }
    let back = JournalStore::salvage(whole, 20);
    same_invocations(&after, &back);
}

#[test]
fn salvage_stops_at_a_record_that_cannot_follow() {
    let mut store = JournalStore::new(10);
    store.create(greeter(), String::new(), Value::Unit).unwrap();
    let created = store.log().len();
    store.append(0, sleep(1)).unwrap();
    let entry = store.log()[created..].to_vec();
    store.mark_terminal(0, Status::Completed, Outcome::Success(Value::Unit)).unwrap();
    let ended = store.log().clone();
    let mut damaged = ended.clone();
    damaged.extend_from_slice(&entry);
    damaged.extend_from_slice(&ended);
    let back = JournalStore::salvage(&damaged, 10);
    same_invocations(&store, &back);
    assert_eq!(back.log(), &ended);
}

#[test]
fn salvage_takes_no_more_than_the_medium_holds() {
    let store = busy_store();
    let back = JournalStore::salvage(store.log(), 2);
    assert_eq!(back.len(), 2);
    assert_eq!(back.read_all(0), Ok(Vec::new()));
    assert_eq!(back.status(1), Some(Status::Running));
    assert!(!back.is_writable());
    let none = JournalStore::salvage(&[7, 7, 7], 2);
    assert_eq!(none.len(), 0);
    assert!(none.log().is_empty());
}

#[test]
fn every_error_has_its_remedy() {
    assert_eq!(EngineError::TransientOperationError.remedy(), Remedy::Repeat);
    assert_eq!(EngineError::StorageUnavailable.remedy(), Remedy::Restart);
    assert_eq!(EngineError::LockTimeout.remedy(), Remedy::Restart);
    assert_eq!(EngineError::AlreadyResolved.remedy(), Remedy::Ignore);
    assert_eq!(EngineError::AlreadyCompleted.remedy(), Remedy::Ignore);
    assert_eq!(
        EngineError::NonDeterminismError {
            position: 1,
            found: durable_exec::entry::EntryKind::SleepUntil
        }
        .remedy(),
        Remedy::Fail
    );
    assert_eq!(EngineError::UnknownInvocation.remedy(), Remedy::Fail);
    assert_eq!(EngineError::UnknownPromise.remedy(), Remedy::Fail);
    assert_eq!(EngineError::UnknownTimer.remedy(), Remedy::Fail);
    assert_eq!(EngineError::NotRunning.remedy(), Remedy::Fail);
    assert_eq!(EngineError::UnexpectedEntry.remedy(), Remedy::Fail);
    assert_eq!(EngineError::NotTerminal.remedy(), Remedy::Fail);
}
