use todo_cli::commands::{add_todo, add_todo_at, list_todos, remove_todo, Removal};
use todo_cli::record::TodoItem;
use todo_cli::store::render_todos;
use todo_cli::text::{decimal_string, join_words};
use todo_cli::timestamp::Timestamp;

fn item(secs: i64, description: &str) -> TodoItem {
    TodoItem {
        timestamp: Timestamp::new(secs, 0, 0).unwrap(),
        description: description.to_string(),
    }
}

fn words(w: &[&str]) -> Vec<String> {
    w.iter().map(|s| s.to_string()).collect()
}

#[test]
fn decimal_string_writes_digits() {
    assert_eq!(decimal_string(0), "0");
    assert_eq!(decimal_string(7), "7");
    assert_eq!(decimal_string(10), "10");
    assert_eq!(decimal_string(1234567890), "1234567890");
    assert_eq!(decimal_string(usize::MAX), usize::MAX.to_string());
}

#[test]
fn join_words_puts_single_spaces() {
    assert_eq!(join_words(&words(&[])), "");
    assert_eq!(join_words(&words(&["buy"])), "buy");
    assert_eq!(join_words(&words(&["buy", "milk", "now"])), "buy milk now");
    assert_eq!(join_words(&words(&["", "x", ""])), " x ");
}

#[test]
fn add_makes_record_line_and_message() {
    let now = Timestamp::new(1_431_648_000, 0, 0).unwrap();
    let added = add_todo_at(&words(&["buy", "milk"]), now);
    assert_eq!(added.item.description, "buy milk");
    assert_eq!(added.item.timestamp, now);
    assert_eq!(added.line, "2015-05-15T00:00:00+00:00\tbuy milk\n");
    assert_eq!(added.message, "Added: buy milk\n05-15 00:00");
}

#[test]
fn add_stamps_with_current_time() {
    let added = add_todo(&words(&["call", "home"]));
    assert_eq!(added.item.description, "call home");
    assert!(added.item.timestamp.secs() > 1_600_000_000);
    assert_eq!(added.line, format!("{}\n", added.item.to_line()));
    assert_eq!(
        added.message,
        format!("Added: call home\n{}", added.item.timestamp.format_short())
    );
    let back = TodoItem::from_line(added.line.trim_end_matches('\n')).unwrap();
    assert_eq!(back.description, "call home");
    assert_eq!(back.timestamp.secs(), added.item.timestamp.secs());
}

#[test]
fn list_of_nothing_says_no_todos() {
    assert_eq!(list_todos(&Vec::new()), vec!["No todos"]);
}

#[test]
fn list_numbers_records_from_one() {
    let todos = vec![item(1_431_648_000, "one"), item(851_042_397, "two")];
    assert_eq!(list_todos(&todos), vec!["1. [05-15 00:00] one", "2. [12-20 00:39] two"]);
    let many: Vec<TodoItem> = (0..12).map(|_| item(0, "x")).collect();
    let lines = list_todos(&many);
    assert_eq!(lines.len(), 12);
    assert_eq!(lines[9], "10. [01-01 00:00] x");
    assert_eq!(lines[11], "12. [01-01 00:00] x");
}

#[test]
fn remove_zero_and_past_end_change_nothing() {
    let mut todos = vec![item(1, "one"), item(2, "two"), item(3, "three")];
    let before = render_todos(&todos);
    match remove_todo(&mut todos, 0) {
        Removal::Invalid { message } => assert_eq!(message, "Invalid todo index: 0"),
        Removal::Removed { .. } => panic!("index 0 names no record"),
    }
    assert_eq!(render_todos(&todos), before);
    match remove_todo(&mut todos, 4) {
        Removal::Invalid { message } => assert_eq!(message, "Invalid todo index: 4"),
        Removal::Removed { .. } => panic!("index 4 names no record"),
    }
    assert_eq!(render_todos(&todos), before);
    assert_eq!(todos.len(), 3);
}

#[test]
fn remove_on_empty_list_is_invalid() {
    let mut todos: Vec<TodoItem> = Vec::new();
    assert!(matches!(remove_todo(&mut todos, 0), Removal::Invalid { .. }));
    assert!(matches!(remove_todo(&mut todos, 1), Removal::Invalid { .. }));
    assert!(todos.is_empty());
}

#[test]
fn remove_takes_the_numbered_record() {
    let mut todos = vec![item(1, "one"), item(2, "two"), item(3, "three")];
    match remove_todo(&mut todos, 2) {
        Removal::Removed { item, message } => {
            assert_eq!(item.description, "two");
            assert_eq!(message, "Removed: two");
        }
        Removal::Invalid { .. } => panic!("index 2 names a record"),
    }
    assert_eq!(todos, vec![item(1, "one"), item(3, "three")]);
    assert!(matches!(remove_todo(&mut todos, 2), Removal::Removed { .. }));
    assert!(matches!(remove_todo(&mut todos, 1), Removal::Removed { .. }));
    assert!(todos.is_empty());
}
