use durable_exec::error::EngineError;
use durable_exec::promises::PromiseRegistry;
use durable_exec::value::{Outcome, Value};

#[test]
fn promise_identifiers_count_up_from_zero() {
    let mut registry = PromiseRegistry::new();
    assert_eq!(registry.len(), 0);
    assert_eq!(registry.create(7), 0);
    assert_eq!(registry.create(8), 1);
    assert_eq!(registry.len(), 2);
    assert_eq!(registry.owner(0), Some(7));
    assert_eq!(registry.owner(1), Some(8));
    assert_eq!(registry.owner(2), None);
}

#[test]
fn new_promise_is_pending() {
    let mut registry = PromiseRegistry::new();
    let id = registry.create(1);
    assert_eq!(registry.poll(id), Ok(None));
}

#[test]
fn resolve_gives_the_promise_its_value() {
    let mut registry = PromiseRegistry::new();
    let id = registry.create(42);
    assert_eq!(registry.resolve(id, Value::Text("hello".to_string())), Ok(42));
    assert_eq!(
        registry.poll(id),
        Ok(Some(Outcome::Success(Value::Text("hello".to_string()))))
    );
}

#[test]
fn resolving_twice_keeps_the_first_value() {
    let mut registry = PromiseRegistry::new();
    let id = registry.create(1);
    assert_eq!(registry.resolve(id, Value::Number(1)), Ok(1));
    assert_eq!(registry.resolve(id, Value::Number(2)), Err(EngineError::AlreadyResolved));
    assert_eq!(registry.poll(id), Ok(Some(Outcome::Success(Value::Number(1)))));
}

#[test]
fn reject_after_resolve_is_already_resolved() {
    let mut registry = PromiseRegistry::new();
    let id = registry.create(1);
    registry.resolve(id, Value::Bool(true)).unwrap();
    assert_eq!(registry.reject(id, "too late".to_string()), Err(EngineError::AlreadyResolved));
    assert_eq!(registry.poll(id), Ok(Some(Outcome::Success(Value::Bool(true)))));
}

#[test]
fn resolve_after_reject_is_already_resolved() {
    let mut registry = PromiseRegistry::new();
    let id = registry.create(1);
    assert_eq!(registry.reject(id, "no".to_string()), Ok(1));
    assert_eq!(registry.resolve(id, Value::Bool(true)), Err(EngineError::AlreadyResolved));
    assert_eq!(registry.poll(id), Ok(Some(Outcome::Failure("no".to_string()))));
}

#[test]
fn unknown_promise_is_reported() {
    let mut registry = PromiseRegistry::new();
    assert_eq!(registry.resolve(0, Value::Unit), Err(EngineError::UnknownPromise));
    assert_eq!(registry.reject(3, "x".to_string()), Err(EngineError::UnknownPromise));
    assert_eq!(registry.poll(0), Err(EngineError::UnknownPromise));
    assert_eq!(registry.len(), 0);
}

#[test]
fn settling_one_promise_leaves_the_others_pending() {
    let mut registry = PromiseRegistry::new();
    let a = registry.create(1);
    let b = registry.create(2);
    registry.settle(a, Outcome::Success(Value::Unit)).unwrap();
    assert_eq!(registry.poll(b), Ok(None));
    assert_eq!(registry.owner(b), Some(2));
    assert_eq!(registry.len(), 2);
}
