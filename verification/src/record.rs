//! One todo record and the line that stands for it in the todo file: an
//! RFC 3339 time, a tab, and the description.

use crate::text::{chars_of, string_of};
use crate::timestamp::{rfc3339_parse, single_field, Timestamp};
use vstd::prelude::*;

verus! {

/// One todo entry: when it was made, and what is to be done.
#[derive(Clone, Debug, PartialEq, Eq)]
pub struct TodoItem {
    pub timestamp: Timestamp,
    pub description: String,
}

/// A record as a mathematical value.
pub struct TodoView {
    pub timestamp: Timestamp,
    pub description: Seq<char>,
}

impl View for TodoItem {
    type V = TodoView;

    open spec fn view(&self) -> TodoView {
        TodoView { timestamp: self.timestamp, description: self.description@ }
    }
}

impl TodoView {
    /// The time of the record is a valid one.
    pub open spec fn wf(self) -> bool {
        self.timestamp.wf()
    }

    /// The line that stands for the record in the todo file.
    pub open spec fn line(self) -> Seq<char> {
        self.timestamp.rfc3339() + seq!['\t'] + self.description
    }
}

/// The text has one tab, and it stands at `k`.
pub open spec fn is_split(text: Seq<char>, k: int) -> bool {
    &&& 0 <= k < text.len()
    &&& forall|i: int| 0 <= i < text.len() ==> (text[i] == '\t' <==> i == k)
}

/// What reading a line gives. A line without a tab, or with more than one,
/// gives nothing, and so does one whose first field `chrono` reads no RFC 3339
/// time from. Any other gives a record with the instant that the first field
/// names and the second field as its description. The offset of its time is
/// that of the machine's zone, which nothing here states.
pub open spec fn decodes(text: Seq<char>, r: Option<TodoView>) -> bool {
    if exists|k: int| is_split(text, k) {
        let k = choose|k: int| is_split(text, k);
        match rfc3339_parse(text.subrange(0, k)) {
            None => r is None,
            Some(p) => {
                &&& r matches Some(item)
                &&& item.wf()
                &&& item.timestamp.spec_secs() == p.0
                &&& item.timestamp.spec_nanos() == p.1
                &&& item.description == text.subrange(k + 1, text.len() as int)
            },
        }
    } else {
        r is None
    }
}

/// Reading the line gives a record: it has one tab, and `chrono` reads an
/// RFC 3339 time from what stands before it.
pub open spec fn readable(text: Seq<char>) -> bool {
    exists|k: int| is_split(text, k) && rfc3339_parse(text.subrange(0, k)) is Some
}

/// A description that a line can hold: it has no tab and no line feed.
pub open spec fn plain(description: Seq<char>) -> bool {
    forall|i: int| 0 <= i < description.len() ==> description[i] != '\t' && description[i] != '\n'
}

/// What writing a record gives: its line, in which the text of the time
/// holds no tab and no line break, and reads back as the same time where
/// the time is one that RFC 3339 holds without loss.
pub open spec fn written(item: TodoView, line: Seq<char>) -> bool {
    &&& line == item.line()
    &&& single_field(item.timestamp.rfc3339())
    &&& item.timestamp.exact() ==> Timestamp::parses_to(
        item.timestamp.rfc3339(),
        Some(item.timestamp),
    )
}

/// Only one place can be the one tab of a text.
pub proof fn lemma_split_unique(text: Seq<char>, j: int, k: int)
    requires
        is_split(text, j),
        is_split(text, k),
    ensures
        j == k,
{
    assert(text[j] == '\t');
}

/// Reading gives a record exactly for the readable lines.
pub proof fn lemma_decodes_some(text: Seq<char>, r: Option<TodoView>)
    requires
        decodes(text, r),
    ensures
        r is Some <==> readable(text),
{
    if exists|k: int| is_split(text, k) {
        let k = choose|k: int| is_split(text, k);
        if readable(text) {
            let j = choose|j: int|
                is_split(text, j) && rfc3339_parse(text.subrange(0, j)) is Some;
            lemma_split_unique(text, j, k);
        }
    }
}

/// A record that is written and read again is the same record: the line
/// of a record whose description has no tab and no line feed reads back as
/// a record of the same instant and the same description. This holds of the
/// times that RFC 3339 holds without loss: those with a four-digit year and
/// an offset of whole minutes.
pub proof fn lemma_round_trip(item: TodoView, line: Seq<char>, back: Option<TodoView>)
    requires
        item.timestamp.exact(),
        plain(item.description),
        written(item, line),
        decodes(line, back),
    ensures
        back matches Some(b) && b.timestamp.same_instant(item.timestamp) && b.description
            == item.description,
{
    let stamp = item.timestamp.rfc3339();
    let n = stamp.len() as int;
    assert(line.len() == n + 1 + item.description.len());
    assert(is_split(line, n)) by {
        assert forall|i: int| 0 <= i < line.len() implies (line[i] == '\t' <==> i == n) by {
            if i < n {
                assert(line[i] == stamp[i]);
            } else if i > n {
                assert(line[i] == item.description[i - n - 1]);
            }
        }
    }
    let k = choose|k: int| is_split(line, k);
    lemma_split_unique(line, n, k);
    assert(line.subrange(0, n) == stamp);
    assert(line.subrange(n + 1, line.len() as int) == item.description);
}

/// The records of a list as mathematical values.
pub open spec fn views(s: Seq<TodoItem>) -> Seq<TodoView> {
    s.map_values(|t: TodoItem| t@)
}

/// The view of a record that may be missing.
pub open spec fn view_of(r: Option<TodoItem>) -> Option<TodoView> {
    match r {
        Some(item) => Some(item@),
        None => None,
    }
}

impl TodoItem {
    /// Reads a record from one line of the todo file.
    pub fn from_line(line: &str) -> (r: Option<TodoItem>)
        ensures
            decodes(line@, view_of(r)),
            r is Some <==> readable(line@),
    {
        proof {
            assert forall|r: Option<TodoView>| decodes(line@, r) implies (r is Some <==> readable(
                line@,
            )) by {
                lemma_decodes_some(line@, r);
            }
        }
        let chars = chars_of(line);
        let n = chars.len();
        let mut k: usize = 0;
        while k < n && chars[k] != '\t'
            invariant
                k <= n == chars.len(),
                chars@ == line@,
                forall|i: int| 0 <= i < k ==> chars@[i] != '\t',
            decreases n - k,
        {
            k += 1;
        }
        if k == n {
            assert forall|j: int| !is_split(line@, j) by {
                if is_split(line@, j) {
                    assert(line@[j] == '\t');
                }
            }
            return None;
        }
        let mut i: usize = k + 1;
        while i < n
            invariant
                k < i <= n == chars.len(),
                chars@ == line@,
                chars@[k as int] == '\t',
                forall|j: int| 0 <= j < k ==> chars@[j] != '\t',
                forall|j: int| k < j < i ==> chars@[j] != '\t',
            decreases n - i,
        {
            if chars[i] == '\t' {
                assert forall|j: int| !is_split(line@, j) by {
                    if is_split(line@, j) {
                        assert(line@[k as int] == '\t');
                        assert(line@[i as int] == '\t');
                    }
                }
                return None;
            }
            i += 1;
        }
        assert(is_split(line@, k as int));
        let field = string_of(&chars, 0, k);
        let description = string_of(&chars, k + 1, n);
        match Timestamp::parse_rfc3339(field.as_str()) {
            None => None,
            Some(t) => Some(TodoItem { timestamp: t.to_local(), description }),
        }
    }

    /// Writes the record as one line of the todo file, without a line break.
    pub fn to_line(&self) -> (r: String)
        ensures
            written(self@, r@),
            self@.wf(),
    {
        proof {
            use_type_invariant(&self.timestamp);
        }
        let mut r = self.timestamp.to_rfc3339();
        r.push('\t');
        let chars = chars_of(self.description.as_str());
        let mut i: usize = 0;
        while i < chars.len()
            invariant
                i <= chars.len(),
                chars@ == self.description@,
                r@ == self.timestamp.rfc3339() + seq!['\t'] + chars@.subrange(0, i as int),
            decreases chars.len() - i,
        {
            r.push(chars[i]);
            i += 1;
        }
        assert(chars@.subrange(0, chars.len() as int) == chars@);
        r
    }
}

} // verus!
