//! The list of records with its selection, and the modal editor that works
//! on it one key at a time.

use crate::keys::{Action, KeyCode, KeyEvent, KeyKind};
use crate::record::{views, TodoItem, TodoView};
use crate::text::chars_of;
use crate::timestamp::Timestamp;
use vstd::prelude::*;

verus! {

/// How the editor reads the next key.
#[derive(Clone, Copy, Debug, PartialEq, Eq)]
pub enum Mode {
    /// Keys move the selection and start the other modes.
    Normal,
    /// Keys edit the description of the selected record.
    Insert,
    /// Keys fill the command buffer.
    Command,
    /// Keys edit the description of a record that was just added.
    New,
}

/// The editor: the records in the order of the todo file, the selected one,
/// the mode, and the command typed so far.
pub struct App {
    todos: Vec<TodoItem>,
    selected: Option<usize>,
    mode: Mode,
    command: String,
}

/// The editor as a mathematical value.
pub struct AppView {
    pub todos: Seq<TodoView>,
    pub selected: Option<int>,
    pub mode: Mode,
    pub command: Seq<char>,
}

/// A record of the given time with nothing written in it yet.
pub open spec fn blank(now: Timestamp) -> TodoView {
    TodoView { timestamp: now, description: Seq::empty() }
}

/// The selection of a list of `len` records that is nearest to `i`.
pub open spec fn clamp(len: nat, i: int) -> Option<int> {
    if len == 0 {
        None
    } else if i < 0 {
        Some(0)
    } else if i >= len {
        Some(len - 1)
    } else {
        Some(i)
    }
}

/// What a command does when Enter is pressed: `q` ends the session, `w`
/// saves, `wq` saves and ends the session, anything else does nothing.
pub open spec fn interpret(command: Seq<char>) -> Action {
    if command == seq!['q'] {
        Action::Quit
    } else if command == seq!['w', 'q'] {
        Action::SaveAndQuit
    } else if command == seq!['w'] {
        Action::Save
    } else {
        Action::Continue
    }
}

impl AppView {
    /// A selection is an index of the list; there is one unless the list is
    /// empty; and the command buffer is empty outside Command mode.
    pub open spec fn wf(self) -> bool {
        &&& self.selected is None <==> self.todos.len() == 0
        &&& self.selected matches Some(i) ==> 0 <= i < self.todos.len()
        &&& self.mode != Mode::Command ==> self.command.len() == 0
    }

    pub open spec fn with_mode(self, mode: Mode) -> AppView {
        AppView { mode, ..self }
    }

    pub open spec fn with_selected(self, selected: Option<int>) -> AppView {
        AppView { selected, ..self }
    }

    pub open spec fn with_command(self, mode: Mode, command: Seq<char>) -> AppView {
        AppView { mode, command, ..self }
    }

    /// The selection moves one record down and stays on the last one.
    pub open spec fn select_next(self) -> AppView {
        match self.selected {
            Some(i) => self.with_selected(clamp(self.todos.len(), i + 1)),
            None => self.with_selected(clamp(self.todos.len(), 0)),
        }
    }

    /// The selection moves one record up and stays on the first one.
    pub open spec fn select_previous(self) -> AppView {
        match self.selected {
            Some(i) => self.with_selected(clamp(self.todos.len(), i - 1)),
            None => self.with_selected(clamp(self.todos.len(), self.todos.len() - 1)),
        }
    }

    /// The selection moves to the first record.
    pub open spec fn select_first(self) -> AppView {
        self.with_selected(clamp(self.todos.len(), 0))
    }

    /// The selection moves to the last record.
    pub open spec fn select_last(self) -> AppView {
        self.with_selected(clamp(self.todos.len(), self.todos.len() - 1))
    }

    /// The selected record leaves the list. The selection stays at its index
    /// where a record is left there, else it moves to the last record.
    pub open spec fn remove_selected(self) -> AppView {
        match self.selected {
            Some(i) if 0 <= i < self.todos.len() => {
                let todos = self.todos.remove(i);
                AppView { todos, selected: clamp(todos.len(), i), ..self }
            },
            _ => self,
        }
    }

    /// The record enters the list behind the selected one, or as the first
    /// one where none is selected, and is selected.
    pub open spec fn insert_after_selected(self, record: TodoView) -> AppView {
        match self.selected {
            Some(i) if 0 <= i < self.todos.len() => AppView {
                todos: self.todos.insert(i + 1, record),
                selected: Some(i + 1),
                ..self
            },
            _ => AppView { todos: self.todos.insert(0, record), selected: Some(0), ..self },
        }
    }

    /// The description of the selected record changes to `description`.
    pub open spec fn with_description(self, description: Seq<char>) -> AppView {
        match self.selected {
            Some(i) if 0 <= i < self.todos.len() => AppView {
                todos: self.todos.update(
                    i,
                    TodoView { timestamp: self.todos[i].timestamp, description },
                ),
                ..self
            },
            _ => self,
        }
    }

    /// The description of the selected record, or nothing.
    pub open spec fn selected_description(self) -> Seq<char> {
        match self.selected {
            Some(i) if 0 <= i < self.todos.len() => self.todos[i].description,
            _ => Seq::empty(),
        }
    }

    /// A character is written at the end of the selected description.
    pub open spec fn push_char(self, c: char) -> AppView {
        self.with_description(self.selected_description().push(c))
    }

    /// The last character of the selected description is taken away.
    pub open spec fn pop_char(self) -> AppView {
        if self.selected_description().len() > 0 {
            self.with_description(self.selected_description().drop_last())
        } else {
            self
        }
    }

    /// What `o` does in Normal mode: a record stamped with `now` enters the
    /// list behind the selected one and is selected, and the mode is New.
    pub open spec fn open_new(self, now: Timestamp) -> AppView {
        self.insert_after_selected(blank(now)).with_mode(Mode::New)
    }

    /// What a key other than `o` does in Normal mode.
    pub open spec fn normal_step(self, key: KeyCode) -> AppView {
        match key {
            KeyCode::Char(c) => if c == 'i' {
                self.with_mode(Mode::Insert)
            } else if c == ':' {
                self.with_command(Mode::Command, Seq::empty())
            } else if c == 'j' {
                self.select_next()
            } else if c == 'k' {
                self.select_previous()
            } else if c == 'g' {
                self.select_first()
            } else if c == 'G' {
                self.select_last()
            } else if c == ' ' {
                self.remove_selected()
            } else {
                self
            },
            KeyCode::Enter => self.remove_selected(),
            _ => self,
        }
    }

    /// What a key does in Insert and in New mode.
    pub open spec fn edit_step(self, key: KeyCode) -> AppView {
        match key {
            KeyCode::Esc => if self.mode == Mode::New {
                self.remove_selected().with_mode(Mode::Normal)
            } else {
                self.with_mode(Mode::Normal)
            },
            KeyCode::Char(c) => self.push_char(c),
            KeyCode::Backspace => self.pop_char(),
            KeyCode::Enter => self.with_mode(Mode::Normal),
            KeyCode::Other => self,
        }
    }

    /// What a key does in Command mode, and what the session has to do.
    pub open spec fn command_step(self, key: KeyCode) -> (AppView, Action) {
        match key {
            KeyCode::Esc => (self.with_command(Mode::Normal, Seq::empty()), Action::Continue),
            KeyCode::Backspace => if self.command.len() > 0 {
                (self.with_command(self.mode, self.command.drop_last()), Action::Continue)
            } else {
                (self, Action::Continue)
            },
            KeyCode::Char(c) => (
                self.with_command(self.mode, self.command.push(c)),
                Action::Continue,
            ),
            KeyCode::Enter => {
                let action = interpret(self.command);
                if action.quits() {
                    (self, action)
                } else {
                    (self.with_command(Mode::Normal, Seq::empty()), action)
                }
            },
            KeyCode::Other => (self, Action::Continue),
        }
    }

    /// The key adds a record, which takes a time from the clock: it is `o`
    /// in Normal mode.
    pub open spec fn stamps(self, key: KeyCode) -> bool {
        self.mode == Mode::Normal && key == KeyCode::Char('o')
    }

    /// The editor after a key that adds no record, and what the session has
    /// to do.
    pub open spec fn plain_step(self, key: KeyCode) -> (AppView, Action) {
        match self.mode {
            Mode::Normal => (self.normal_step(key), Action::Continue),
            Mode::Insert => (self.edit_step(key), Action::Continue),
            Mode::New => (self.edit_step(key), Action::Continue),
            Mode::Command => self.command_step(key),
        }
    }

    /// The editor after a key, and what the session has to do. `now` is the
    /// time that a record added by this key is stamped with.
    pub open spec fn step(self, key: KeyCode, now: Timestamp) -> (AppView, Action) {
        if self.stamps(key) {
            (self.open_new(now), Action::Continue)
        } else {
            self.plain_step(key)
        }
    }
}

impl View for App {
    type V = AppView;

    closed spec fn view(&self) -> AppView {
        AppView {
            todos: views(self.todos@),
            selected: match self.selected {
                Some(i) => Some(i as int),
                None => None,
            },
            mode: self.mode,
            command: self.command@,
        }
    }
}

impl App {
    /// The editor holds what [`AppView::wf`] asks for.
    pub open spec fn wf(&self) -> bool {
        self@.wf()
    }

    /// The editor at the start of a session: Normal mode, the first record
    /// selected if there is one, no command typed.
    pub fn new(todos: Vec<TodoItem>) -> (app: App)
        ensures
            app.wf(),
            app@.todos == views(todos@),
            app@.selected == clamp(todos@.len(), 0),
            app@.mode == Mode::Normal,
            app@.command == Seq::<char>::empty(),
    {
        let selected = if todos.len() > 0 {
            Some(0)
        } else {
            None
        };
        App { todos, selected, mode: Mode::Normal, command: String::new() }
    }

    /// The records, in the order of the todo file.
    pub fn todos(&self) -> (r: &Vec<TodoItem>)
        ensures
            views(r@) == self@.todos,
    {
        &self.todos
    }

    /// The index of the selected record.
    pub fn selected(&self) -> (r: Option<usize>)
        ensures
            r is Some <==> self@.selected is Some,
            r matches Some(i) ==> self@.selected == Some(i as int),
    {
        self.selected
    }

    /// The mode that the next key is read in.
    pub fn mode(&self) -> (r: Mode)
        ensures
            r == self@.mode,
    {
        self.mode
    }

    /// The command typed so far.
    pub fn command(&self) -> (r: &str)
        ensures
            r@ == self@.command,
    {
        self.command.as_str()
    }

    /// Moves the selection one record down; on the last record it stays.
    pub fn select_next(&mut self)
        requires
            old(self).wf(),
        ensures
            final(self)@ == old(self)@.select_next(),
            final(self).wf(),
    {
        if let Some(i) = self.selected {
            let n = self.todos.len();
            assert(i < n);
            if i + 1 < n {
                self.selected = Some(i + 1);
            }
        }
    }

    /// Moves the selection one record up; on the first record it stays.
    pub fn select_previous(&mut self)
        requires
            old(self).wf(),
        ensures
            final(self)@ == old(self)@.select_previous(),
            final(self).wf(),
    {
        if let Some(i) = self.selected {
            if i > 0 {
                self.selected = Some(i - 1);
            }
        }
    }

    /// Moves the selection to the first record.
    pub fn select_first(&mut self)
        requires
            old(self).wf(),
        ensures
            final(self)@ == old(self)@.select_first(),
            final(self).wf(),
    {
        if self.todos.len() > 0 {
            self.selected = Some(0);
        }
    }

    /// Moves the selection to the last record.
    pub fn select_last(&mut self)
        requires
            old(self).wf(),
        ensures
            final(self)@ == old(self)@.select_last(),
            final(self).wf(),
    {
        if self.todos.len() > 0 {
            self.selected = Some(self.todos.len() - 1);
        }
    }

    /// Resolves the selected record: it leaves the list. The selection stays
    /// at its index, or moves to the last record where none is left there.
    pub fn toggle_status(&mut self)
        requires
            old(self).wf(),
        ensures
            final(self)@ == old(self)@.remove_selected(),
            final(self).wf(),
    {
        if let Some(i) = self.selected {
            self.todos.remove(i);
            let n = self.todos.len();
            if n == 0 {
                self.selected = None;
            } else if i >= n {
                self.selected = Some(n - 1);
            }
            assert(views(self.todos@) == views(old(self).todos@).remove(i as int));
        }
    }

    /// Puts a record behind the selected one, or first into an empty list,
    /// and selects it.
    pub fn insert_record(&mut self, record: TodoItem)
        requires
            old(self).wf(),
        ensures
            final(self)@ == old(self)@.insert_after_selected(record@),
            final(self).wf(),
    {
        match self.selected {
            Some(i) => {
                let n = self.todos.len();
                assert(i < n);
                self.todos.insert(i + 1, record);
                self.selected = Some(i + 1);
                assert(views(self.todos@) == views(old(self).todos@).insert(i + 1, record@));
            },
            None => {
                self.todos.insert(0, record);
                self.selected = Some(0);
                assert(views(self.todos@) == views(old(self).todos@).insert(0, record@));
            },
        }
    }

    /// Adds a record that is stamped with the current time and has nothing
    /// written in it yet, behind the selected one, and selects it.
    pub fn insert_new(&mut self)
        requires
            old(self).wf(),
        ensures
            exists|now: Timestamp|
                now.wf() && final(self)@ == old(self)@.insert_after_selected(#[trigger] blank(now)),
            final(self).wf(),
    {
        let now = Timestamp::now();
        let record = TodoItem { timestamp: now, description: String::new() };
        assert(record@ == blank(now));
        self.insert_record(record);
    }

    /// Writes a character at the end of the selected record's description.
    pub fn push_char(&mut self, c: char)
        requires
            old(self).wf(),
        ensures
            final(self)@ == old(self)@.push_char(c),
            final(self).wf(),
    {
        if let Some(i) = self.selected {
            self.todos[i].description.push(c);
            assert(views(self.todos@) == old(self)@.push_char(c).todos);
        }
    }

    /// Takes the last character of the selected record's description away.
    pub fn pop_char(&mut self)
        requires
            old(self).wf(),
        ensures
            final(self)@ == old(self)@.pop_char(),
            final(self).wf(),
    {
        if let Some(i) = self.selected {
            self.todos[i].description.pop();
            assert(views(self.todos@) == old(self)@.pop_char().todos);
        }
    }

    /// Reads the command typed so far, as Enter does.
    pub fn command_action(&self) -> (r: Action)
        ensures
            r == interpret(self@.command),
    {
        let c = chars_of(self.command.as_str());
        if c.len() == 1 && c[0] == 'q' {
            assert(c@ == seq!['q']);
            Action::Quit
        } else if c.len() == 2 && c[0] == 'w' && c[1] == 'q' {
            assert(c@ == seq!['w', 'q']);
            Action::SaveAndQuit
        } else if c.len() == 1 && c[0] == 'w' {
            assert(c@ == seq!['w']);
            Action::Save
        } else {
            assert(c@ != seq!['q']) by {
                if c@ == seq!['q'] {
                    assert(c@.len() == 1 && c@[0] == 'q');
                }
            }
            assert(c@ != seq!['w']) by {
                if c@ == seq!['w'] {
                    assert(c@.len() == 1 && c@[0] == 'w');
                }
            }
            assert(c@ != seq!['w', 'q']) by {
                if c@ == seq!['w', 'q'] {
                    assert(c@.len() == 2 && c@[0] == 'w' && c@[1] == 'q');
                }
            }
            Action::Continue
        }
    }

    /// Whether the key adds a record, so that a time is to be read from the
    /// clock.
    pub fn stamps(&self, key: KeyCode) -> (r: bool)
        ensures
            r == self@.stamps(key),
    {
        match (self.mode, key) {
            (Mode::Normal, KeyCode::Char(c)) => c == 'o',
            _ => false,
        }
    }

    /// Takes a key other than `o` in Normal mode.
    fn normal_key(&mut self, key: KeyCode)
        requires
            old(self).wf(),
            old(self)@.mode == Mode::Normal,
            key != KeyCode::Char('o'),
        ensures
            final(self)@ == old(self)@.normal_step(key),
            final(self).wf(),
    {
        match key {
            KeyCode::Char(c) => {
                if c == 'i' {
                    self.mode = Mode::Insert;
                } else if c == ':' {
                    self.mode = Mode::Command;
                    self.command = String::new();
                } else if c == 'j' {
                    self.select_next();
                } else if c == 'k' {
                    self.select_previous();
                } else if c == 'g' {
                    self.select_first();
                } else if c == 'G' {
                    self.select_last();
                } else if c == ' ' {
                    self.toggle_status();
                }
            },
            KeyCode::Enter => {
                self.toggle_status();
            },
            _ => {},
        }
    }

    /// Takes a key in Insert or New mode.
    fn edit_key(&mut self, key: KeyCode)
        requires
            old(self).wf(),
            old(self)@.mode == Mode::Insert || old(self)@.mode == Mode::New,
        ensures
            final(self)@ == old(self)@.edit_step(key),
            final(self).wf(),
    {
        match key {
            KeyCode::Esc => {
                if let Mode::New = self.mode {
                    self.toggle_status();
                }
                self.mode = Mode::Normal;
            },
            KeyCode::Char(c) => {
                self.push_char(c);
            },
            KeyCode::Backspace => {
                self.pop_char();
            },
            KeyCode::Enter => {
                self.mode = Mode::Normal;
            },
            KeyCode::Other => {},
        }
    }

    /// Takes a key in Command mode.
    fn command_key(&mut self, key: KeyCode) -> (action: Action)
        requires
            old(self).wf(),
            old(self)@.mode == Mode::Command,
        ensures
            (final(self)@, action) == old(self)@.command_step(key),
            final(self).wf(),
    {
        match key {
            KeyCode::Esc => {
                self.mode = Mode::Normal;
                self.command = String::new();
                Action::Continue
            },
            KeyCode::Backspace => {
                self.command.pop();
                Action::Continue
            },
            KeyCode::Char(c) => {
                self.command.push(c);
                Action::Continue
            },
            KeyCode::Enter => {
                let action = self.command_action();
                if !action.ends_session() {
                    self.command = String::new();
                    self.mode = Mode::Normal;
                }
                action
            },
            KeyCode::Other => Action::Continue,
        }
    }

    /// Takes a key that adds no record.
    fn plain_key(&mut self, key: KeyCode) -> (action: Action)
        requires
            old(self).wf(),
            !old(self)@.stamps(key),
        ensures
            (final(self)@, action) == old(self)@.plain_step(key),
            final(self).wf(),
    {
        match self.mode {
            Mode::Normal => {
                self.normal_key(key);
                Action::Continue
            },
            Mode::Insert => {
                self.edit_key(key);
                Action::Continue
            },
            Mode::New => {
                self.edit_key(key);
                Action::Continue
            },
            Mode::Command => self.command_key(key),
        }
    }

    /// Takes one key and says what the session has to do next. A record
    /// that the key adds is stamped with `now`.
    pub fn handle_key_at(&mut self, key: KeyCode, now: Timestamp) -> (action: Action)
        requires
            old(self).wf(),
        ensures
            (final(self)@, action) == old(self)@.step(key, now),
            final(self).wf(),
    {
        if self.stamps(key) {
            let record = TodoItem { timestamp: now, description: String::new() };
            assert(record@ == blank(now));
            self.insert_record(record);
            self.mode = Mode::New;
            Action::Continue
        } else {
            self.plain_key(key)
        }
    }

    /// Takes one key and says what the session has to do next. A record
    /// that the key adds is stamped with the current time, which is read
    /// from the clock for such a key only.
    pub fn handle_key(&mut self, key: KeyCode) -> (action: Action)
        requires
            old(self).wf(),
        ensures
            old(self)@.stamps(key) ==> exists|now: Timestamp|
                now.wf() && (final(self)@, action) == #[trigger] old(self)@.step(key, now),
            !old(self)@.stamps(key) ==> (final(self)@, action) == old(self)@.plain_step(key),
            final(self).wf(),
    {
        if self.stamps(key) {
            let now = Timestamp::now();
            self.handle_key_at(key, now)
        } else {
            self.plain_key(key)
        }
    }

    /// Takes one key event. A key that comes up does nothing; a key that
    /// goes down or is held is taken as [`App::handle_key`] takes it.
    pub fn handle_event(&mut self, event: KeyEvent) -> (action: Action)
        requires
            old(self).wf(),
        ensures
            event.kind == KeyKind::Release ==> final(self)@ == old(self)@ && action
                == Action::Continue,
            event.kind != KeyKind::Release && old(self)@.stamps(event.code) ==> exists|
                now: Timestamp,
            |
                now.wf() && (final(self)@, action) == #[trigger] old(self)@.step(event.code, now),
            event.kind != KeyKind::Release && !old(self)@.stamps(event.code) ==> (
                final(self)@,
                action,
            ) == old(self)@.plain_step(event.code),
            final(self).wf(),
    {
        match event.kind {
            KeyKind::Release => Action::Continue,
            _ => self.handle_key(event.code),
        }
    }
}

} // verus!
