//! The todo file as a text: its lines, the records that they hold, and the
//! text that a list of records is written as.

use crate::record::{
    decodes, is_split, lemma_round_trip, plain, readable, view_of, views, written, TodoItem,
    TodoView,
};
use crate::text::{chars_of, string_of, texts};
use vstd::prelude::*;

verus! {

/// The place of the first line feed of `text` at or behind `from`, or the
/// length of the text where there is none.
pub open spec fn line_end(text: Seq<char>, from: int) -> int
    decreases text.len() - from,
{
    if from < 0 || from >= text.len() {
        text.len() as int
    } else if text[from] == '\n' {
        from
    } else {
        line_end(text, from + 1)
    }
}

/// A line ends at or behind the place where it starts, and within the text.
pub proof fn lemma_line_end_bounds(text: Seq<char>, from: int)
    requires
        0 <= from <= text.len(),
    ensures
        from <= line_end(text, from) <= text.len(),
        line_end(text, from) < text.len() ==> text[line_end(text, from)] == '\n',
        forall|j: int| from <= j < line_end(text, from) ==> text[j] != '\n',
    decreases text.len() - from,
{
    if from < text.len() && text[from] != '\n' {
        lemma_line_end_bounds(text, from + 1);
    }
}

/// A line without the carriage return that it ends in, if it ends in one.
pub open spec fn trim_cr(line: Seq<char>) -> Seq<char> {
    if line.len() > 0 && line.last() == '\r' {
        line.drop_last()
    } else {
        line
    }
}

/// The lines of `text` from `from` on. A line ends with a line feed, which
/// is no part of it, nor is a carriage return before that line feed. What
/// follows the last line feed is a line too, unless it is empty.
pub open spec fn lines_from(text: Seq<char>, from: int) -> Seq<Seq<char>>
    decreases text.len() - from,
{
    if from < 0 || from >= text.len() {
        Seq::empty()
    } else {
        let end = line_end(text, from);
        proof {
            lemma_line_end_bounds(text, from);
        }
        if end >= text.len() {
            seq![text.subrange(from, text.len() as int)]
        } else {
            seq![trim_cr(text.subrange(from, end))] + lines_from(text, end + 1)
        }
    }
}

/// The lines of a text.
pub open spec fn lines(text: Seq<char>) -> Seq<Seq<char>> {
    lines_from(text, 0)
}

/// The records are what the lines hold: each line that is readable gives
/// one record, in the order of the lines, and the others give none.
pub open spec fn holds(lines: Seq<Seq<char>>, items: Seq<TodoView>) -> bool
    decreases lines.len(),
{
    if lines.len() == 0 {
        items.len() == 0
    } else if readable(lines.last()) {
        &&& items.len() > 0
        &&& decodes(lines.last(), Some(items.last()))
        &&& holds(lines.drop_last(), items.drop_last())
    } else {
        holds(lines.drop_last(), items)
    }
}

/// The text of the todo file for a list of records: the line of each
/// record, in their order, each followed by a line feed.
pub open spec fn file_text(items: Seq<TodoView>) -> Seq<char>
    decreases items.len(),
{
    if items.len() == 0 {
        Seq::empty()
    } else {
        file_text(items.drop_last()) + items.last().line() + seq!['\n']
    }
}

/// Where no line feed stands from `from` up to `to`, the line that starts
/// at `from` ends where the one that starts at `to` ends.
proof fn lemma_line_end_skip(text: Seq<char>, from: int, to: int)
    requires
        0 <= from <= to <= text.len(),
        forall|j: int| from <= j < to ==> text[j] != '\n',
    ensures
        line_end(text, from) == line_end(text, to),
    decreases to - from,
{
    if from < to {
        lemma_line_end_skip(text, from + 1, to);
    }
}

/// Splits a text into its lines.
pub fn split_lines(content: &str) -> (r: Vec<String>)
    ensures
        texts(r@) == lines(content@),
{
    let chars = chars_of(content);
    let n = chars.len();
    let mut r: Vec<String> = Vec::new();
    let mut start: usize = 0;
    let mut i: usize = 0;
    while i < n
        invariant
            start <= i <= n == chars.len(),
            chars@ == content@,
            forall|j: int| start <= j < i ==> chars@[j] != '\n',
            lines(content@) == texts(r@) + lines_from(content@, start as int),
        decreases n - i,
    {
        if chars[i] == '\n' {
            let end = if i > start && chars[i - 1] == '\r' {
                i - 1
            } else {
                i
            };
            let line = string_of(&chars, start, end);
            proof {
                lemma_line_end_skip(content@, start as int, i as int);
                assert(line_end(content@, i as int) == i);
                assert(line@ == trim_cr(content@.subrange(start as int, i as int)));
                assert(texts(r@.push(line)) == texts(r@).push(line@));
            }
            r.push(line);
            start = i + 1;
        }
        i += 1;
    }
    if start < n {
        let line = string_of(&chars, start, n);
        proof {
            lemma_line_end_skip(content@, start as int, n as int);
            assert(texts(r@.push(line)) == texts(r@).push(line@));
        }
        r.push(line);
    }
    r
}

/// Reads the records that the lines hold. A line that gives no record is
/// passed over.
pub fn parse_lines(lines: &Vec<String>) -> (r: Vec<TodoItem>)
    ensures
        holds(texts(lines@), views(r@)),
{
    let mut r: Vec<TodoItem> = Vec::new();
    let mut i: usize = 0;
    while i < lines.len()
        invariant
            i <= lines.len(),
            holds(texts(lines@).take(i as int), views(r@)),
        decreases lines.len() - i,
    {
        let ghost before = views(r@);
        let ghost head = texts(lines@).take(i + 1);
        assert(head.drop_last() == texts(lines@).take(i as int));
        assert(head.last() == lines@[i as int]@);
        match TodoItem::from_line(lines[i].as_str()) {
            Some(item) => {
                assert(view_of(Some(item)) == Some(item@));
                r.push(item);
                assert(views(r@).drop_last() == before);
                assert(views(r@).last() == item@);
            },
            None => {},
        }
        i += 1;
    }
    assert(texts(lines@).take(lines.len() as int) == texts(lines@));
    r
}

/// Reads the records that the text of a todo file holds.
pub fn parse_todos(content: &str) -> (r: Vec<TodoItem>)
    ensures
        holds(lines(content@), views(r@)),
{
    let lines = split_lines(content);
    parse_lines(&lines)
}

/// Writes a list of records as the text of a todo file.
pub fn render_todos(todos: &Vec<TodoItem>) -> (r: String)
    ensures
        r@ == file_text(views(todos@)),
{
    let mut r = String::new();
    let mut i: usize = 0;
    while i < todos.len()
        invariant
            i <= todos.len(),
            r@ == file_text(views(todos@).take(i as int)),
        decreases todos.len() - i,
    {
        let ghost head = views(todos@).take(i + 1);
        assert(head.drop_last() == views(todos@).take(i as int));
        assert(head.last() == todos@[i as int]@);
        let line = todos[i].to_line();
        r.append(line.as_str());
        r.push('\n');
        i += 1;
    }
    assert(views(todos@).take(todos.len() as int) == views(todos@));
    r
}

/// A description that a line of a file can hold: it has no tab and no line
/// feed, and does not end in a carriage return.
pub open spec fn tidy(description: Seq<char>) -> bool {
    plain(description) && (description.len() > 0 ==> description.last() != '\r')
}

/// A record that the todo file holds without loss: its time is one that
/// RFC 3339 holds without loss, its description is tidy, and its line is
/// what writing it gives.
pub open spec fn storable(item: TodoView) -> bool {
    item.timestamp.exact() && tidy(item.description) && written(item, item.line())
}

/// The lines of the records of a list.
pub open spec fn record_lines(items: Seq<TodoView>) -> Seq<Seq<char>> {
    items.map_values(|t: TodoView| t.line())
}

/// In a text that ends in a line feed, the line that starts at `from` ends
/// where it does when more text follows.
proof fn lemma_line_end_prefix(a: Seq<char>, b: Seq<char>, from: int)
    requires
        0 <= from < a.len(),
        a.last() == '\n',
    ensures
        line_end(a + b, from) == line_end(a, from),
        line_end(a, from) < a.len(),
    decreases a.len() - from,
{
    assert((a + b)[from] == a[from]);
    if a[from] != '\n' {
        lemma_line_end_prefix(a, b, from + 1);
    }
}

/// Behind a text that is empty or ends in a line feed, the lines of what
/// follows are counted anew.
proof fn lemma_lines_prefix(a: Seq<char>, b: Seq<char>, from: int)
    requires
        0 <= from <= a.len(),
        a.len() == 0 || a.last() == '\n',
    ensures
        lines_from(a + b, from) == lines_from(a, from) + lines_from(a + b, a.len() as int),
    decreases a.len() - from,
{
    if from < a.len() {
        lemma_line_end_prefix(a, b, from);
        lemma_line_end_bounds(a, from);
        let end = line_end(a, from);
        assert((a + b).subrange(from, end) == a.subrange(from, end));
        lemma_lines_prefix(a, b, end + 1);
        let first = seq![trim_cr(a.subrange(from, end))];
        assert(lines_from(a + b, from) == first + lines_from(a + b, end + 1));
        assert(lines_from(a, from) == first + lines_from(a, end + 1));
    }
}

/// A line and its line feed, written behind a text that is empty or ends
/// in a line feed, add that line to the lines of the text. The line holds
/// no line feed and does not end in a carriage return.
proof fn lemma_lines_push(a: Seq<char>, line: Seq<char>)
    requires
        a.len() == 0 || a.last() == '\n',
        forall|j: int| 0 <= j < line.len() ==> line[j] != '\n',
        line.len() > 0 ==> line.last() != '\r',
    ensures
        lines(a + line + seq!['\n']) == lines(a).push(line),
{
    let b = line + seq!['\n'];
    let text = a + b;
    assert(text == a + line + seq!['\n']);
    let from = a.len() as int;
    let end = from + line.len();
    assert forall|j: int| from <= j < end implies text[j] != '\n' by {
        assert(text[j] == line[j - from]);
    }
    lemma_line_end_skip(text, from, end);
    assert(text[end] == '\n');
    assert(line_end(text, end) == end);
    assert(text.subrange(from, end) == line);
    assert(lines_from(text, end + 1) == Seq::<Seq<char>>::empty());
    assert(lines_from(text, from) == seq![line]);
    lemma_lines_prefix(a, b, 0);
}

/// The line of a storable record holds no line feed and does not end in a
/// carriage return, and reading it gives a record.
proof fn lemma_storable_line(item: TodoView)
    requires
        storable(item),
    ensures
        forall|j: int| 0 <= j < item.line().len() ==> item.line()[j] != '\n',
        item.line().len() > 0 && item.line().last() != '\r',
        readable(item.line()),
{
    let stamp = item.timestamp.rfc3339();
    let line = item.line();
    let n = stamp.len() as int;
    assert forall|j: int| 0 <= j < line.len() implies (line[j] != '\n' && (line[j] == '\t' <==> j
        == n)) by {
        if j < n {
            assert(line[j] == stamp[j]);
        } else if j > n {
            assert(line[j] == item.description[j - n - 1]);
        }
    }
    assert(is_split(line, n));
    assert(line.subrange(0, n) == stamp);
    if item.description.len() > 0 {
        assert(line.last() == item.description.last());
    } else {
        assert(line.last() == '\t');
    }
}

/// The lines of the text of a list of storable records are the lines of
/// the records.
pub proof fn lemma_file_lines(items: Seq<TodoView>)
    requires
        forall|i: int| 0 <= i < items.len() ==> storable(#[trigger] items[i]),
    ensures
        lines(file_text(items)) == record_lines(items),
        file_text(items).len() == 0 || file_text(items).last() == '\n',
    decreases items.len(),
{
    if items.len() > 0 {
        let head = items.drop_last();
        lemma_file_lines(head);
        assert(storable(items[items.len() - 1]));
        lemma_storable_line(items.last());
        lemma_lines_push(file_text(head), items.last().line());
        assert(record_lines(items) == record_lines(head).push(items.last().line()));
    }
}

/// What the lines of storable records hold is the records again, up to the
/// offsets of their times.
proof fn lemma_holds_same(items: Seq<TodoView>, back: Seq<TodoView>)
    requires
        forall|i: int| 0 <= i < items.len() ==> storable(#[trigger] items[i]),
        holds(record_lines(items), back),
    ensures
        back.len() == items.len(),
        forall|i: int|
            0 <= i < items.len() ==> (#[trigger] back[i]).timestamp.same_instant(
                items[i].timestamp,
            ) && back[i].description == items[i].description,
    decreases items.len(),
{
    if items.len() > 0 {
        let item = items.last();
        assert(storable(items[items.len() - 1]));
        lemma_storable_line(item);
        assert(record_lines(items).last() == item.line());
        assert(record_lines(items).drop_last() == record_lines(items.drop_last()));
        lemma_holds_same(items.drop_last(), back.drop_last());
        lemma_round_trip(item, item.line(), Some(back.last()));
        assert forall|i: int| 0 <= i < items.len() implies (#[trigger] back[i]).timestamp.same_instant(
            items[i].timestamp,
        ) && back[i].description == items[i].description by {
            if i < items.len() - 1 {
                assert(back[i] == back.drop_last()[i]);
                assert(items[i] == items.drop_last()[i]);
            }
        }
    }
}

/// A list of records that is written as a todo file and read again is the
/// same list: as many records, in the same order, each of the same instant
/// and the same description. This holds of the records that the file holds
/// without loss (see [`storable`]).
pub proof fn lemma_file_round_trip(items: Seq<TodoView>, back: Seq<TodoView>)
    requires
        forall|i: int| 0 <= i < items.len() ==> storable(#[trigger] items[i]),
        holds(lines(file_text(items)), back),
    ensures
        back.len() == items.len(),
        forall|i: int|
            0 <= i < items.len() ==> (#[trigger] back[i]).timestamp.same_instant(
                items[i].timestamp,
            ) && back[i].description == items[i].description,
{
    lemma_file_lines(items);
    lemma_holds_same(items, back);
}

} // verus!
