use durable_exec::codec::{decode_entry, encode_entry};
use durable_exec::entry::{EntryKind, JournalEntry};
use durable_exec::target::Target;
use durable_exec::value::{Outcome, Value};

fn round_trip(entry: JournalEntry) {
    let bytes = encode_entry(&entry);
    assert_eq!(decode_entry(&bytes), Some(entry));
}

#[test]
fn every_variant_is_read_back() {
    round_trip(JournalEntry::SideEffectResult { outcome: Outcome::Success(Value::Unit) });
    round_trip(JournalEntry::SideEffectResult { outcome: Outcome::Failure("boom".to_string()) });
    round_trip(JournalEntry::CallResult {
        target: Target::service("PaymentService", "charge"),
        outcome: Outcome::Success(Value::Text("pay-1".to_string())),
    });
    round_trip(JournalEntry::SendRecorded {
        target: Target::service("EmailService", "email_ticket"),
        payload: Value::List(vec!["seat2B".to_string(), "".to_string(), "x".to_string()]),
    });
    round_trip(JournalEntry::SleepUntil { timestamp: u64::MAX });
    round_trip(JournalEntry::AwakeableCreated { id: 0 });
    round_trip(JournalEntry::AwakeableResolved {
        id: 12345678901234567890,
        outcome: Outcome::Success(Value::Bool(true)),
    });
    round_trip(JournalEntry::StateGet { key: "count".to_string(), value: None });
    round_trip(JournalEntry::StateGet { key: "count".to_string(), value: Some(Value::Number(7)) });
    round_trip(JournalEntry::StateSet { key: "tickets".to_string(), value: Value::List(Vec::new()) });
    round_trip(JournalEntry::StateSet { key: "flag".to_string(), value: Value::Bool(false) });
    round_trip(JournalEntry::StateClear { key: "".to_string() });
}

#[test]
fn texts_outside_ascii_are_read_back() {
    round_trip(JournalEntry::StateSet {
        key: "grüße".to_string(),
        value: Value::Text("こんにちは 👋".to_string()),
    });
}

#[test]
fn sleep_is_a_tag_and_eight_bytes_lowest_first() {
    let bytes = encode_entry(&JournalEntry::SleepUntil { timestamp: 0x0102030405060708 });
    assert_eq!(bytes, vec![4, 8, 7, 6, 5, 4, 3, 2, 1]);
}

#[test]
fn state_clear_is_a_tag_a_length_and_the_text() {
    let bytes = encode_entry(&JournalEntry::StateClear { key: "ab".to_string() });
    assert_eq!(bytes, vec![9, 2, 0, 0, 0, 0, 0, 0, 0, b'a', b'b']);
}

#[test]
fn state_set_of_a_list() {
    let bytes = encode_entry(&JournalEntry::StateSet {
        key: "t".to_string(),
        value: Value::List(vec!["x".to_string(), "yz".to_string()]),
    });
    assert_eq!(
        bytes,
        vec![
            8, 1, 0, 0, 0, 0, 0, 0, 0, b't', 4, 2, 0, 0, 0, 0, 0, 0, 0, 1, 0, 0, 0, 0, 0, 0, 0,
            b'x', 2, 0, 0, 0, 0, 0, 0, 0, b'y', b'z'
        ]
    );
}

#[test]
fn side_effect_with_a_bool() {
    let bytes = encode_entry(&JournalEntry::SideEffectResult {
        outcome: Outcome::Success(Value::Bool(true)),
    });
    assert_eq!(bytes, vec![1, 0, 1, 1]);
    assert_eq!(
        decode_entry(&[1, 0, 1, 0]),
        Some(JournalEntry::SideEffectResult { outcome: Outcome::Success(Value::Bool(false)) })
    );
}

#[test]
fn call_result_carries_its_address_as_three_texts() {
    let bytes = encode_entry(&JournalEntry::CallResult {
        target: Target::keyed("T", "k", "h"),
        outcome: Outcome::Success(Value::Unit),
    });
    assert_eq!(
        bytes,
        vec![
            2, 1, 0, 0, 0, 0, 0, 0, 0, b'T', 1, 0, 0, 0, 0, 0, 0, 0, b'k', 1, 0, 0, 0, 0, 0, 0, 0,
            b'h', 0, 0
        ]
    );
    let service = Target::service("S", "h");
    assert_eq!(service.key, "");
    assert_eq!(service.clone(), service);
}

#[test]
fn empty_input_holds_no_entry() {
    assert_eq!(decode_entry(&[]), None);
}

#[test]
fn unknown_tags_are_refused() {
    assert_eq!(decode_entry(&[0]), None);
    assert_eq!(decode_entry(&[10, 0, 0, 0, 0, 0, 0, 0, 0]), None);
    // A value tag that does not exist.
    assert_eq!(decode_entry(&[1, 0, 9]), None);
    // An outcome tag that does not exist.
    assert_eq!(decode_entry(&[1, 2, 0]), None);
    // A truth value that is neither 0 nor 1.
    assert_eq!(decode_entry(&[1, 0, 1, 2]), None);
    // An optional tag that does not exist.
    assert_eq!(decode_entry(&[7, 0, 0, 0, 0, 0, 0, 0, 0, 5]), None);
}

#[test]
fn truncated_input_is_refused() {
    let bytes = encode_entry(&JournalEntry::CallResult {
        target: Target::service("PaymentService", "charge"),
        outcome: Outcome::Success(Value::Text("pay-1".to_string())),
    });
    for cut in 0..bytes.len() {
        assert_eq!(decode_entry(&bytes[..cut]), None, "cut at {}", cut);
    }
}

#[test]
fn trailing_bytes_are_refused() {
    let mut bytes = encode_entry(&JournalEntry::SleepUntil { timestamp: 5 });
    bytes.push(0);
    assert_eq!(decode_entry(&bytes), None);
}

#[test]
fn bytes_that_are_no_utf8_are_refused() {
    // StateClear with a key of one byte, 0xFF.
    assert_eq!(decode_entry(&[9, 1, 0, 0, 0, 0, 0, 0, 0, 0xFF]), None);
    // A lone continuation byte, and a truncated two-byte character.
    assert_eq!(decode_entry(&[9, 1, 0, 0, 0, 0, 0, 0, 0, 0x80]), None);
    assert_eq!(decode_entry(&[9, 1, 0, 0, 0, 0, 0, 0, 0, 0xC3]), None);
    // The same frame with proper UTF-8 is read.
    assert_eq!(
        decode_entry(&[9, 2, 0, 0, 0, 0, 0, 0, 0, 0xC3, 0xBC]),
        Some(JournalEntry::StateClear { key: "ü".to_string() })
    );
}

#[test]
fn a_length_beyond_the_input_is_refused() {
    assert_eq!(decode_entry(&[9, 3, 0, 0, 0, 0, 0, 0, 0, b'a', b'b']), None);
    assert_eq!(decode_entry(&[9, 255, 255, 255, 255, 255, 255, 255, 255, b'a']), None);
    // A list that announces more entries than follow.
    assert_eq!(
        decode_entry(&[8, 0, 0, 0, 0, 0, 0, 0, 0, 4, 2, 0, 0, 0, 0, 0, 0, 0, 0, 0, 0, 0, 0, 0, 0, 0]),
        None
    );
}

#[test]
fn kinds_of_entries() {
    assert_eq!(
        JournalEntry::SideEffectResult { outcome: Outcome::Success(Value::Unit) }.kind(),
        EntryKind::SideEffectResult
    );
    assert_eq!(
        JournalEntry::CallResult {
            target: Target::service("", ""),
            outcome: Outcome::Success(Value::Unit)
        }
        .kind(),
        EntryKind::CallResult
    );
    assert_eq!(
        JournalEntry::SendRecorded { target: Target::service("", ""), payload: Value::Unit }.kind(),
        EntryKind::SendRecorded
    );
    assert_eq!(JournalEntry::SleepUntil { timestamp: 1 }.kind(), EntryKind::SleepUntil);
    assert_eq!(JournalEntry::AwakeableCreated { id: 1 }.kind(), EntryKind::AwakeableCreated);
    assert_eq!(
        JournalEntry::AwakeableResolved { id: 1, outcome: Outcome::Success(Value::Unit) }.kind(),
        EntryKind::AwakeableResolved
    );
    assert_eq!(JournalEntry::StateGet { key: String::new(), value: None }.kind(), EntryKind::StateGet);
    assert_eq!(
        JournalEntry::StateSet { key: String::new(), value: Value::Unit }.kind(),
        EntryKind::StateSet
    );
    assert_eq!(JournalEntry::StateClear { key: String::new() }.kind(), EntryKind::StateClear);
}
