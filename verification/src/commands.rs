//! The one-shot commands: what each of them changes and what it prints. The
//! caller reads and writes the todo file and prints the texts.

use crate::record::{views, written, TodoItem, TodoView};
use crate::text::{decimal, decimal_string, join_words, joined, texts};
use crate::timestamp::Timestamp;
use vstd::prelude::*;

verus! {

/// What adding a record comes to.
pub struct Added {
    /// The record that was made.
    pub item: TodoItem,
    /// What is to be appended to the todo file: the line of the record and a
    /// line feed.
    pub line: String,
    /// What is to be printed.
    pub message: String,
}

/// What removing a record comes to.
pub enum Removal {
    /// The record left the list, which is to be written to the todo file.
    Removed { item: TodoItem, message: String },
    /// There is no record of that number. The todo file stays as it is.
    Invalid { message: String },
}

/// What is printed for a record that was added.
pub open spec fn added_message(item: TodoView) -> Seq<char> {
    "Added: "@ + item.description + seq!['\n'] + item.timestamp.short_text()
}

/// What is printed for the record at `index` of a list.
pub open spec fn list_line(index: int, item: TodoView) -> Seq<char> {
    decimal((index + 1) as nat) + ". ["@ + item.timestamp.short_text() + "] "@ + item.description
}

/// What is printed for a list: one line for each record, or one line that
/// says that there is none.
pub open spec fn listing(items: Seq<TodoView>) -> Seq<Seq<char>> {
    if items.len() == 0 {
        seq!["No todos"@]
    } else {
        Seq::new(items.len(), |i: int| list_line(i, items[i]))
    }
}

/// What is printed where no record has the number `index`.
pub open spec fn invalid_message(index: nat) -> Seq<char> {
    "Invalid todo index: "@ + decimal(index)
}

/// What is printed for a record that was removed.
pub open spec fn removed_message(item: TodoView) -> Seq<char> {
    "Removed: "@ + item.description
}

/// Makes the record of the words, joined by single spaces and stamped with
/// `now`, with the line for the todo file and the text to print.
pub fn add_todo_at(words: &Vec<String>, now: Timestamp) -> (r: Added)
    ensures
        r.item@ == (TodoView { timestamp: now, description: joined(texts(words@)) }),
        r.line@ == r.item@.line() + seq!['\n'],
        written(r.item@, r.item@.line()),
        r.message@ == added_message(r.item@),
{
    let description = join_words(words);
    let mut message = "Added: ".to_string();
    message.append(description.as_str());
    message.push('\n');
    message.append(now.format_short().as_str());
    let item = TodoItem { timestamp: now, description };
    let mut line = item.to_line();
    line.push('\n');
    Added { item, line, message }
}

/// Makes the record of the words, joined by single spaces and stamped with
/// the current time, with the line for the todo file and the text to print.
pub fn add_todo(words: &Vec<String>) -> (r: Added)
    ensures
        r.item@.description == joined(texts(words@)),
        r.item@.wf(),
        r.line@ == r.item@.line() + seq!['\n'],
        written(r.item@, r.item@.line()),
        r.message@ == added_message(r.item@),
{
    let now = Timestamp::now();
    add_todo_at(words, now)
}

/// The lines to print for a list of records.
pub fn list_todos(todos: &Vec<TodoItem>) -> (r: Vec<String>)
    ensures
        texts(r@) == listing(views(todos@)),
{
    let mut r: Vec<String> = Vec::new();
    if todos.len() == 0 {
        r.push("No todos".to_string());
        assert(texts(r@) == seq!["No todos"@]);
        return r;
    }
    let mut i: usize = 0;
    while i < todos.len()
        invariant
            i <= todos.len(),
            r@.len() == i,
            forall|j: int| 0 <= j < i ==> r@[j]@ == list_line(j, todos@[j]@),
        decreases todos.len() - i,
    {
        let mut line = decimal_string(i + 1);
        line.append(". [");
        line.append(todos[i].timestamp.format_short().as_str());
        line.append("] ");
        line.append(todos[i].description.as_str());
        r.push(line);
        i += 1;
    }
    assert(texts(r@) == listing(views(todos@)));
    r
}

/// Removes the record with the number `index`, counted from 1. Where there
/// is no such record, the list stays as it is.
pub fn remove_todo(todos: &mut Vec<TodoItem>, index: usize) -> (r: Removal)
    ensures
        1 <= index <= old(todos)@.len() ==> {
            &&& r matches Removal::Removed { item, message }
            &&& item == old(todos)@[index - 1]
            &&& message@ == removed_message(item@)
            &&& final(todos)@ == old(todos)@.remove(index - 1)
        },
        index == 0 || index > old(todos)@.len() ==> {
            &&& r matches Removal::Invalid { message }
            &&& message@ == invalid_message(index as nat)
            &&& final(todos)@ == old(todos)@
        },
{
    if index == 0 || index > todos.len() {
        let mut message = "Invalid todo index: ".to_string();
        message.append(decimal_string(index).as_str());
        Removal::Invalid { message }
    } else {
        let item = todos.remove(index - 1);
        let mut message = "Removed: ".to_string();
        message.append(item.description.as_str());
        Removal::Removed { item, message }
    }
}

} // verus!
