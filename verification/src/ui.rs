//! What the editor shows: a title, the list with its selection, and a status
//! line, as plain values for the terminal layer to paint.

use crate::app::{App, AppView, Mode};
use crate::record::TodoView;
use vstd::prelude::*;

verus! {

/// The title that stands at the top of the screen.
pub const TITLE: &'static str = "Todo-cli Interactive mode";

/// What marks the selected line of the list.
pub const HIGHLIGHT_SYMBOL: &'static str = "> ";

/// The height of the title region, its border included.
pub const TITLE_HEIGHT: u16 = 3;

/// The least height of the list region, which takes what the others leave.
pub const LIST_MIN_HEIGHT: u16 = 1;

/// The height of the status region.
pub const STATUS_HEIGHT: u16 = 1;

/// The three regions of the screen, from top to bottom.
pub struct Screen {
    /// The text of the title region, which is `title_height` rows high.
    pub title: String,
    pub title_height: u16,
    /// The lines of the list region, one for each record, in their order.
    pub items: Vec<String>,
    /// The index of the line that is marked, if one is.
    pub selected: Option<usize>,
    /// What stands in front of the marked line.
    pub highlight_symbol: String,
    /// The list region is at least this many rows high.
    pub list_min_height: u16,
    /// The text of the status region, which is `status_height` rows high.
    pub status: String,
    pub status_height: u16,
}

/// A screen as a mathematical value.
pub struct ScreenView {
    pub title: Seq<char>,
    pub title_height: int,
    pub items: Seq<Seq<char>>,
    pub selected: Option<int>,
    pub highlight_symbol: Seq<char>,
    pub list_min_height: int,
    pub status: Seq<char>,
    pub status_height: int,
}

impl View for Screen {
    type V = ScreenView;

    open spec fn view(&self) -> ScreenView {
        ScreenView {
            title: self.title@,
            title_height: self.title_height as int,
            items: self.items@.map_values(|s: String| s@),
            selected: match self.selected {
                Some(i) => Some(i as int),
                None => None,
            },
            highlight_symbol: self.highlight_symbol@,
            list_min_height: self.list_min_height as int,
            status: self.status@,
            status_height: self.status_height as int,
        }
    }
}

/// The status line: the mark of the mode, or in Command mode a colon and the
/// command typed so far.
pub open spec fn status_of(mode: Mode, command: Seq<char>) -> Seq<char> {
    match mode {
        Mode::Normal => seq!['[', 'N', 'O', 'R', ']'],
        Mode::Insert => seq!['[', 'I', 'N', 'S', ']'],
        Mode::New => seq!['[', 'N', 'E', 'W', ']'],
        Mode::Command => seq![':'] + command,
    }
}

/// The lines of the list: the description of each record, and nothing of
/// its time.
pub open spec fn lines_of(todos: Seq<TodoView>) -> Seq<Seq<char>> {
    todos.map_values(|t: TodoView| t.description)
}

/// The screen that shows an editor.
pub open spec fn screen_of(app: AppView) -> ScreenView {
    ScreenView {
        title: TITLE@,
        title_height: TITLE_HEIGHT as int,
        items: lines_of(app.todos),
        selected: app.selected,
        highlight_symbol: HIGHLIGHT_SYMBOL@,
        list_min_height: LIST_MIN_HEIGHT as int,
        status: status_of(app.mode, app.command),
        status_height: STATUS_HEIGHT as int,
    }
}

/// The text of the status line for a mode and the command typed so far.
pub fn status_text(mode: Mode, command: &str) -> (r: String)
    ensures
        r@ == status_of(mode, command@),
{
    proof {
        reveal_strlit("[NOR]");
        reveal_strlit("[INS]");
        reveal_strlit("[NEW]");
        reveal_strlit(":");
    }
    match mode {
        Mode::Normal => {
            let r = "[NOR]".to_string();
            assert(r@ == status_of(mode, command@));
            r
        },
        Mode::Insert => {
            let r = "[INS]".to_string();
            assert(r@ == status_of(mode, command@));
            r
        },
        Mode::New => {
            let r = "[NEW]".to_string();
            assert(r@ == status_of(mode, command@));
            r
        },
        Mode::Command => {
            let mut r = ":".to_string();
            assert(r@ == seq![':']);
            r.append(command);
            r
        },
    }
}

/// Lays out the screen for the editor as it stands. Nothing of the editor
/// changes.
pub fn ui(app: &App) -> (screen: Screen)
    ensures
        screen@ == screen_of(app@),
{
    let todos = app.todos();
    let mut items: Vec<String> = Vec::new();
    let mut i: usize = 0;
    while i < todos.len()
        invariant
            i <= todos.len(),
            items@.len() == i,
            forall|j: int| 0 <= j < i ==> items@[j]@ == todos@[j]@.description,
        decreases todos.len() - i,
    {
        items.push(todos[i].description.clone());
        i += 1;
    }
    let screen = Screen {
        title: TITLE.to_string(),
        title_height: TITLE_HEIGHT,
        items,
        selected: app.selected(),
        highlight_symbol: HIGHLIGHT_SYMBOL.to_string(),
        list_min_height: LIST_MIN_HEIGHT,
        status: status_text(app.mode(), app.command()),
        status_height: STATUS_HEIGHT,
    };
    assert(screen@.items == lines_of(app@.todos));
    screen
}

} // verus!
