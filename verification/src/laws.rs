//! What holds of the editor whatever keys it is given.

use crate::app::{blank, clamp, interpret, AppView, Mode};
use crate::keys::{Action, KeyCode};
use crate::record::TodoView;
use crate::timestamp::Timestamp;
use vstd::prelude::*;

verus! {

/// One of the four ways to move the selection.
pub enum Move {
    Next,
    Previous,
    First,
    Last,
}

/// The editor after one move of the selection.
pub open spec fn moved(app: AppView, m: Move) -> AppView {
    match m {
        Move::Next => app.select_next(),
        Move::Previous => app.select_previous(),
        Move::First => app.select_first(),
        Move::Last => app.select_last(),
    }
}

/// The editor after a row of moves of the selection.
pub open spec fn moved_all(app: AppView, moves: Seq<Move>) -> AppView
    decreases moves.len(),
{
    if moves.len() == 0 {
        app
    } else {
        moved(moved_all(app, moves.drop_last()), moves.last())
    }
}

/// The editor after a row of keys, each stamped with `now` where it adds a
/// record.
pub open spec fn after(app: AppView, keys: Seq<KeyCode>, now: Timestamp) -> AppView
    decreases keys.len(),
{
    if keys.len() == 0 {
        app
    } else {
        after(app, keys.drop_last(), now).step(keys.last(), now).0
    }
}

/// The key writes or rubs out a character.
pub open spec fn types(key: KeyCode) -> bool {
    key is Char || key is Backspace
}

/// Whatever key is taken, the editor stays well formed.
pub proof fn lemma_step_keeps_wf(app: AppView, key: KeyCode, now: Timestamp)
    requires
        app.wf(),
    ensures
        app.step(key, now).0.wf(),
{
}

/// After any row of moves the list is as it was, and the selection is an
/// index of the list, or there is none and the list is empty.
pub proof fn lemma_moves_keep_selection_valid(app: AppView, moves: Seq<Move>)
    requires
        app.wf(),
    ensures
        moved_all(app, moves).wf(),
        moved_all(app, moves).todos == app.todos,
        moved_all(app, moves).selected is None <==> app.todos.len() == 0,
        moved_all(app, moves).selected matches Some(i) ==> 0 <= i < app.todos.len(),
    decreases moves.len(),
{
    if moves.len() > 0 {
        lemma_moves_keep_selection_valid(app, moves.drop_last());
    }
}

/// Enter and Space in Normal mode remove the selected record and no
/// other: the list is shorter by one, the records before the selected one
/// stay where they are, and those behind it move up by one place.
pub proof fn lemma_resolve_removes_selected(app: AppView, key: KeyCode, now: Timestamp, i: int)
    requires
        app.wf(),
        app.mode == Mode::Normal,
        key == KeyCode::Enter || key == KeyCode::Char(' '),
        app.selected == Some(i),
    ensures
        app.step(key, now).1 == Action::Continue,
        app.step(key, now).0.todos == app.todos.remove(i),
        app.step(key, now).0.todos.len() == app.todos.len() - 1,
        forall|j: int| 0 <= j < i ==> app.step(key, now).0.todos[j] == app.todos[j],
        forall|j: int|
            i <= j < app.todos.len() - 1 ==> app.step(key, now).0.todos[j] == app.todos[j + 1],
        app.step(key, now).0.selected == clamp((app.todos.len() - 1) as nat, i),
        app.step(key, now).0.mode == Mode::Normal,
{
}

/// The command `q` ends the session and writes nothing, whatever the list
/// holds: Enter on it asks to quit, not to save, and changes nothing.
pub proof fn lemma_quit_saves_nothing(app: AppView, now: Timestamp)
    requires
        app.mode == Mode::Command,
        app.command == seq!['q'],
    ensures
        app.step(KeyCode::Enter, now) == (app, Action::Quit),
        Action::Quit.quits(),
        !Action::Quit.saves(),
{
    assert(interpret(app.command) == Action::Quit);
}

/// Typing `:`, `q` and Enter in Normal mode ends the session with nothing
/// saved on the way and the list as it was.
pub proof fn lemma_colon_q_quits(app: AppView, now: Timestamp)
    requires
        app.wf(),
        app.mode == Mode::Normal,
    ensures
        ({
            let a = app.step(KeyCode::Char(':'), now);
            let b = a.0.step(KeyCode::Char('q'), now);
            let c = b.0.step(KeyCode::Enter, now);
            &&& !a.1.saves() && !a.1.quits()
            &&& !b.1.saves() && !b.1.quits()
            &&& c.1 == Action::Quit
            &&& c.0.todos == app.todos
        }),
{
    let a = app.step(KeyCode::Char(':'), now);
    let b = a.0.step(KeyCode::Char('q'), now);
    assert(a.0.command == Seq::<char>::empty());
    assert(b.0.command == seq!['q']);
    lemma_quit_saves_nothing(b.0, now);
}

/// Only Enter in Command mode on `w` or `wq` asks to save.
pub proof fn lemma_saves_only_on_command(app: AppView, key: KeyCode, now: Timestamp)
    requires
        app.step(key, now).1.saves(),
    ensures
        app.mode == Mode::Command,
        key == KeyCode::Enter,
        app.command == seq!['w'] || app.command == seq!['w', 'q'],
        app.step(key, now).0.todos == app.todos,
{
}

/// While a new record is being typed, the list is the old one with one
/// record put in behind the place that was selected, and that record is
/// the selected one.
proof fn lemma_typing_keeps_shape(
    app: AppView,
    opened: AppView,
    keys: Seq<KeyCode>,
    now: Timestamp,
    at: int,
)
    requires
        0 <= at <= app.todos.len(),
        opened.mode == Mode::New,
        opened.selected == Some(at),
        opened.command == app.command,
        exists|record: TodoView| opened.todos == app.todos.insert(at, record),
        forall|j: int| 0 <= j < keys.len() ==> types(#[trigger] keys[j]),
    ensures
        after(opened, keys, now).mode == Mode::New,
        after(opened, keys, now).selected == Some(at),
        after(opened, keys, now).command == app.command,
        exists|record: TodoView| after(opened, keys, now).todos == app.todos.insert(at, record),
    decreases keys.len(),
{
    if keys.len() > 0 {
        lemma_typing_keeps_shape(app, opened, keys.drop_last(), now, at);
        let s = after(opened, keys.drop_last(), now);
        let key = keys.last();
        assert(types(key));
        let record = choose|record: TodoView| s.todos == app.todos.insert(at, record);
        let t = s.step(key, now).0;
        assert(t.mode == Mode::New);
        assert(t.selected == Some(at));
        let changed = t.todos[at];
        assert(t.todos == app.todos.insert(at, changed));
    }
}

/// A new record that is given up leaves no trace: after `o` in Normal
/// mode, any typing, and Esc, the list is what it was before `o`, and the
/// mode is Normal again.
pub proof fn lemma_new_then_esc_restores(app: AppView, keys: Seq<KeyCode>, now: Timestamp)
    requires
        app.wf(),
        app.mode == Mode::Normal,
        forall|j: int| 0 <= j < keys.len() ==> types(#[trigger] keys[j]),
    ensures
        ({
            let opened = app.step(KeyCode::Char('o'), now).0;
            let closed = after(opened, keys, now).step(KeyCode::Esc, now).0;
            &&& closed.todos == app.todos
            &&& closed.mode == Mode::Normal
            &&& closed.wf()
        }),
{
    let opened = app.step(KeyCode::Char('o'), now).0;
    let at = match app.selected {
        Some(i) => i + 1,
        None => 0,
    };
    assert(opened.todos == app.todos.insert(at, blank(now)));
    lemma_typing_keeps_shape(app, opened, keys, now, at);
    let typed = after(opened, keys, now);
    let record = choose|record: TodoView| typed.todos == app.todos.insert(at, record);
    assert(app.todos.insert(at, record).remove(at) == app.todos);
    let closed = typed.step(KeyCode::Esc, now).0;
    assert(closed.todos == app.todos);
    assert(closed.mode == Mode::Normal);
}

} // verus!
