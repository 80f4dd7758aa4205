use durable_exec::table::{path1, path2, path3, same_path, PathTable};
use durable_exec::text::{
    concat3, contains_text, decimal_text, insert_text, remove_text, signed_decimal_text,
};
use durable_exec::value::{clone_texts, Outcome, Value};

fn list(items: &[&str]) -> Vec<String> {
    items.iter().map(|s| s.to_string()).collect()
}

#[test]
fn decimal_numerals() {
    assert_eq!(decimal_text(0), "0");
    assert_eq!(decimal_text(7), "7");
    assert_eq!(decimal_text(10), "10");
    assert_eq!(decimal_text(120), "120");
    assert_eq!(decimal_text(9876543210), "9876543210");
    assert_eq!(decimal_text(u64::MAX), "18446744073709551615");
}

#[test]
fn signed_decimal_numerals() {
    assert_eq!(signed_decimal_text(0), "0");
    assert_eq!(signed_decimal_text(42), "42");
    assert_eq!(signed_decimal_text(-1), "-1");
    assert_eq!(signed_decimal_text(-2500), "-2500");
    assert_eq!(signed_decimal_text(i64::MAX), "9223372036854775807");
    assert_eq!(signed_decimal_text(i64::MIN), "-9223372036854775808");
}

#[test]
fn three_pieces_are_joined() {
    assert_eq!(concat3("a", "", "c"), "ac");
    assert_eq!(concat3("TicketObject/", "seat2B", "/reserve"), "TicketObject/seat2B/reserve");
}

#[test]
fn membership_in_a_list() {
    let l = list(&["a", "b"]);
    assert!(contains_text(&l, &"a".to_string()));
    assert!(contains_text(&l, &"b".to_string()));
    assert!(!contains_text(&l, &"c".to_string()));
    assert!(!contains_text(&Vec::new(), &"a".to_string()));
}

#[test]
fn insert_adds_a_new_member_at_the_end() {
    assert_eq!(insert_text(&list(&["a", "b"]), &"c".to_string()), list(&["a", "b", "c"]));
    assert_eq!(insert_text(&Vec::new(), &"c".to_string()), list(&["c"]));
}

#[test]
fn insert_of_a_member_changes_nothing() {
    assert_eq!(insert_text(&list(&["a", "b"]), &"a".to_string()), list(&["a", "b"]));
}

#[test]
fn remove_drops_every_occurrence_and_keeps_the_order() {
    assert_eq!(remove_text(&list(&["a", "b", "a", "c"]), &"a".to_string()), list(&["b", "c"]));
    assert_eq!(remove_text(&list(&["a", "b"]), &"x".to_string()), list(&["a", "b"]));
    assert_eq!(remove_text(&list(&["a"]), &"a".to_string()), Vec::<String>::new());
}

#[test]
fn copies_are_equal() {
    assert_eq!(clone_texts(&list(&["x", "y"])), list(&["x", "y"]));
    let v = Value::List(list(&["x"]));
    assert_eq!(v.clone(), v);
    let o = Outcome::Failure("m".to_string());
    assert_eq!(o.clone(), o);
}

#[test]
fn paths_compare_name_by_name() {
    assert!(same_path(&path2("a", "b"), &path2("a", "b")));
    assert!(!same_path(&path2("a", "b"), &path2("a", "c")));
    assert!(!same_path(&path2("a", "b"), &path3("a", "b", "")));
    assert!(!same_path(&path2("ab", "c"), &path2("a", "bc")));
    assert!(same_path(&path1("x"), &list(&["x"])));
}

#[test]
fn table_puts_and_finds() {
    let mut table: PathTable<u64> = PathTable::new();
    assert_eq!(table.len(), 0);
    assert_eq!(table.find(&path2("a", "b")), None);
    table.put(path2("a", "b"), 1);
    table.put(path2("a", "c"), 2);
    table.put(path2("a", "b"), 3);
    assert_eq!(table.len(), 2);
    let i = table.find(&path2("a", "b")).unwrap();
    assert_eq!(*table.value(i), 3);
    let j = table.find(&path2("a", "c")).unwrap();
    assert_eq!(*table.value(j), 2);
    table.replace(j, 9);
    assert_eq!(*table.value(table.find(&path2("a", "c")).unwrap()), 9);
    assert_eq!(table.add(path1("z"), 5), 2);
    assert_eq!(table.len(), 3);
}
