use todo_cli::app::{App, Mode};
use todo_cli::keys::{Action, KeyCode, KeyEvent, KeyKind};
use todo_cli::record::TodoItem;
use todo_cli::store::{render_todos, split_lines};
use todo_cli::timestamp::Timestamp;
use todo_cli::ui::{status_text, ui};

fn item(secs: i64, description: &str) -> TodoItem {
    TodoItem {
        timestamp: Timestamp::new(secs, 0, 0).unwrap(),
        description: description.to_string(),
    }
}

fn three() -> App {
    App::new(vec![item(1, "one"), item(2, "two"), item(3, "three")])
}

fn descriptions(app: &App) -> Vec<String> {
    app.todos().iter().map(|t| t.description.clone()).collect()
}

fn press(app: &mut App, keys: &str) -> Action {
    let mut last = Action::Continue;
    for c in keys.chars() {
        last = app.handle_key(KeyCode::Char(c));
    }
    last
}

#[test]
fn new_selects_first_record() {
    let app = three();
    assert_eq!(app.selected(), Some(0));
    assert_eq!(app.mode(), Mode::Normal);
    assert_eq!(app.command(), "");
    assert_eq!(descriptions(&app), vec!["one", "two", "three"]);
}

#[test]
fn new_on_empty_list_selects_nothing() {
    let app = App::new(Vec::new());
    assert_eq!(app.selected(), None);
    assert_eq!(app.mode(), Mode::Normal);
    assert!(app.todos().is_empty());
}

#[test]
fn selection_moves_and_stops_at_the_ends() {
    let mut app = three();
    app.select_previous();
    assert_eq!(app.selected(), Some(0));
    app.select_next();
    assert_eq!(app.selected(), Some(1));
    app.select_next();
    assert_eq!(app.selected(), Some(2));
    app.select_next();
    assert_eq!(app.selected(), Some(2));
    app.select_first();
    assert_eq!(app.selected(), Some(0));
    app.select_last();
    assert_eq!(app.selected(), Some(2));
    app.select_previous();
    assert_eq!(app.selected(), Some(1));
}

#[test]
fn selection_stays_valid_under_any_moves() {
    for n in 0..4usize {
        let todos: Vec<TodoItem> = (0..n).map(|i| item(i as i64, "x")).collect();
        let mut app = App::new(todos);
        let mut seed: u32 = 12345;
        for _ in 0..200 {
            seed = seed.wrapping_mul(1_103_515_245).wrapping_add(12_345);
            match (seed >> 16) % 4 {
                0 => app.select_next(),
                1 => app.select_previous(),
                2 => app.select_first(),
                _ => app.select_last(),
            }
            match app.selected() {
                Some(i) => assert!(i < n),
                None => assert_eq!(n, 0),
            }
            assert_eq!(app.todos().len(), n);
        }
    }
}

#[test]
fn moves_on_empty_list_do_nothing() {
    let mut app = App::new(Vec::new());
    app.select_next();
    app.select_previous();
    app.select_first();
    app.select_last();
    app.toggle_status();
    app.push_char('x');
    app.pop_char();
    assert_eq!(app.selected(), None);
    assert!(app.todos().is_empty());
}

#[test]
fn toggle_status_removes_selected_record() {
    let mut app = three();
    app.select_next();
    app.toggle_status();
    assert_eq!(descriptions(&app), vec!["one", "three"]);
    assert_eq!(app.selected(), Some(1));
    app.toggle_status();
    assert_eq!(descriptions(&app), vec!["one"]);
    assert_eq!(app.selected(), Some(0));
    app.toggle_status();
    assert!(app.todos().is_empty());
    assert_eq!(app.selected(), None);
}

#[test]
fn enter_and_space_remove_exactly_the_selected_record() {
    for key in [KeyCode::Enter, KeyCode::Char(' ')] {
        for selected in 0..3 {
            let mut app = three();
            for _ in 0..selected {
                app.handle_key(KeyCode::Char('j'));
            }
            let before = descriptions(&app);
            assert_eq!(app.handle_key(key), Action::Continue);
            let mut expected = before.clone();
            expected.remove(selected);
            assert_eq!(descriptions(&app), expected);
            assert_eq!(app.todos().len(), 2);
            assert_eq!(app.mode(), Mode::Normal);
        }
    }
}

#[test]
fn insert_record_goes_behind_selection() {
    let mut app = three();
    app.insert_record(item(9, "new"));
    assert_eq!(descriptions(&app), vec!["one", "new", "two", "three"]);
    assert_eq!(app.selected(), Some(1));
    app.select_last();
    app.insert_record(item(10, "last"));
    assert_eq!(descriptions(&app), vec!["one", "new", "two", "three", "last"]);
    assert_eq!(app.selected(), Some(4));
}

#[test]
fn insert_new_into_empty_list_becomes_first() {
    let mut app = App::new(Vec::new());
    app.insert_new();
    assert_eq!(app.todos().len(), 1);
    assert_eq!(app.selected(), Some(0));
    assert_eq!(app.todos()[0].description, "");
    assert!(app.todos()[0].timestamp.secs() > 1_600_000_000);
}

#[test]
fn handle_key_at_stamps_new_record_with_given_time() {
    let now = Timestamp::new(1_431_648_000, 0, 3600).unwrap();
    let mut app = three();
    assert_eq!(app.handle_key_at(KeyCode::Char('o'), now), Action::Continue);
    assert_eq!(app.mode(), Mode::New);
    assert_eq!(app.selected(), Some(1));
    assert_eq!(app.todos()[1].timestamp, now);
    assert_eq!(app.todos()[1].description, "");
    assert_eq!(app.todos()[0].timestamp, Timestamp::new(1, 0, 0).unwrap());
}

#[test]
fn insert_mode_edits_selected_description() {
    let mut app = three();
    press(&mut app, "ji");
    assert_eq!(app.mode(), Mode::Insert);
    press(&mut app, "!?");
    app.handle_key(KeyCode::Backspace);
    assert_eq!(descriptions(&app), vec!["one", "two!", "three"]);
    app.handle_key(KeyCode::Other);
    assert_eq!(app.mode(), Mode::Insert);
    app.handle_key(KeyCode::Esc);
    assert_eq!(app.mode(), Mode::Normal);
    assert_eq!(descriptions(&app), vec!["one", "two!", "three"]);
    press(&mut app, "i");
    app.handle_key(KeyCode::Enter);
    assert_eq!(app.mode(), Mode::Normal);
    assert_eq!(app.todos().len(), 3);
}

#[test]
fn backspace_on_empty_description_does_nothing() {
    let mut app = App::new(vec![item(1, "a")]);
    press(&mut app, "i");
    app.handle_key(KeyCode::Backspace);
    app.handle_key(KeyCode::Backspace);
    assert_eq!(descriptions(&app), vec![""]);
    assert_eq!(app.mode(), Mode::Insert);
}

#[test]
fn normal_mode_keys_move_selection() {
    let mut app = three();
    press(&mut app, "j");
    assert_eq!(app.selected(), Some(1));
    press(&mut app, "G");
    assert_eq!(app.selected(), Some(2));
    press(&mut app, "k");
    assert_eq!(app.selected(), Some(1));
    press(&mut app, "g");
    assert_eq!(app.selected(), Some(0));
    press(&mut app, "xyz");
    app.handle_key(KeyCode::Esc);
    app.handle_key(KeyCode::Backspace);
    app.handle_key(KeyCode::Other);
    assert_eq!(app.selected(), Some(0));
    assert_eq!(app.mode(), Mode::Normal);
    assert_eq!(descriptions(&app), vec!["one", "two", "three"]);
}

#[test]
fn new_then_esc_discards_the_record() {
    let mut app = three();
    let before = descriptions(&app);
    press(&mut app, "o");
    assert_eq!(app.mode(), Mode::New);
    assert_eq!(app.todos().len(), 4);
    press(&mut app, "buy milk");
    assert_eq!(app.todos()[1].description, "buy milk");
    app.handle_key(KeyCode::Esc);
    assert_eq!(app.mode(), Mode::Normal);
    assert_eq!(app.todos().len(), 3);
    assert_eq!(descriptions(&app), before);
}

#[test]
fn new_then_esc_on_empty_list_leaves_it_empty() {
    let mut app = App::new(Vec::new());
    press(&mut app, "obuy milk");
    assert_eq!(descriptions(&app), vec!["buy milk"]);
    app.handle_key(KeyCode::Esc);
    assert!(app.todos().is_empty());
    assert_eq!(app.selected(), None);
}

#[test]
fn new_enter_then_wq_persists_the_record_last() {
    let mut app = three();
    press(&mut app, "Go");
    press(&mut app, "buy milk");
    assert_eq!(app.handle_key(KeyCode::Enter), Action::Continue);
    assert_eq!(app.mode(), Mode::Normal);
    assert_eq!(press(&mut app, ":wq"), Action::Continue);
    let action = app.handle_key(KeyCode::Enter);
    assert_eq!(action, Action::SaveAndQuit);
    assert!(action.writes_file());
    assert!(action.ends_session());
    let file = render_todos(app.todos());
    let lines = split_lines(&file);
    assert_eq!(lines.len(), 4);
    let last = TodoItem::from_line(lines.last().unwrap()).unwrap();
    assert_eq!(last.description, "buy milk");
}

#[test]
fn command_q_quits_without_saving() {
    let mut app = three();
    press(&mut app, "i!");
    app.handle_key(KeyCode::Esc);
    assert_eq!(press(&mut app, ":q"), Action::Continue);
    let action = app.handle_key(KeyCode::Enter);
    assert_eq!(action, Action::Quit);
    assert!(!action.writes_file());
    assert!(action.ends_session());
    assert_eq!(descriptions(&app), vec!["one!", "two", "three"]);
}

#[test]
fn command_w_saves_and_stays() {
    let mut app = three();
    press(&mut app, ":w");
    assert_eq!(app.mode(), Mode::Command);
    assert_eq!(app.command(), "w");
    let action = app.handle_key(KeyCode::Enter);
    assert_eq!(action, Action::Save);
    assert!(action.writes_file());
    assert!(!action.ends_session());
    assert_eq!(app.mode(), Mode::Normal);
    assert_eq!(app.command(), "");
}

#[test]
fn unknown_command_is_discarded() {
    for command in ["", "x", "qw", "q ", " q", "wq!", "W", "remove 1"] {
        let mut app = three();
        press(&mut app, ":");
        press(&mut app, command);
        assert_eq!(app.command(), command);
        assert_eq!(app.handle_key(KeyCode::Enter), Action::Continue);
        assert_eq!(app.mode(), Mode::Normal);
        assert_eq!(app.command(), "");
        assert_eq!(descriptions(&app), vec!["one", "two", "three"]);
    }
}

#[test]
fn command_buffer_edits() {
    let mut app = three();
    press(&mut app, ":wx");
    app.handle_key(KeyCode::Backspace);
    assert_eq!(app.command(), "w");
    app.handle_key(KeyCode::Backspace);
    app.handle_key(KeyCode::Backspace);
    assert_eq!(app.command(), "");
    assert_eq!(app.mode(), Mode::Command);
    press(&mut app, "q");
    app.handle_key(KeyCode::Other);
    assert_eq!(app.command(), "q");
    app.handle_key(KeyCode::Esc);
    assert_eq!(app.mode(), Mode::Normal);
    assert_eq!(app.command(), "");
}

#[test]
fn command_action_reads_the_buffer() {
    let mut app = three();
    assert_eq!(app.command_action(), Action::Continue);
    press(&mut app, ":w");
    assert_eq!(app.command_action(), Action::Save);
    press(&mut app, "q");
    assert_eq!(app.command_action(), Action::SaveAndQuit);
}

#[test]
fn key_release_is_ignored() {
    let mut app = three();
    let release = KeyEvent { code: KeyCode::Enter, kind: KeyKind::Release };
    assert_eq!(app.handle_event(release), Action::Continue);
    assert_eq!(app.todos().len(), 3);
    let press = KeyEvent { code: KeyCode::Enter, kind: KeyKind::Press };
    assert_eq!(app.handle_event(press), Action::Continue);
    assert_eq!(app.todos().len(), 2);
    let repeat = KeyEvent { code: KeyCode::Char(' '), kind: KeyKind::Repeat };
    app.handle_event(repeat);
    assert_eq!(app.todos().len(), 1);
}

#[test]
fn stamps_only_for_o_in_normal_mode() {
    let mut app = three();
    assert!(app.stamps(KeyCode::Char('o')));
    assert!(!app.stamps(KeyCode::Char('i')));
    assert!(!app.stamps(KeyCode::Enter));
    press(&mut app, "i");
    assert!(!app.stamps(KeyCode::Char('o')));
}

#[test]
fn status_text_shows_mode_or_command() {
    assert_eq!(status_text(Mode::Normal, ""), "[NOR]");
    assert_eq!(status_text(Mode::Insert, "ignored"), "[INS]");
    assert_eq!(status_text(Mode::New, ""), "[NEW]");
    assert_eq!(status_text(Mode::Command, ""), ":");
    assert_eq!(status_text(Mode::Command, "wq"), ":wq");
}

#[test]
fn ui_shows_descriptions_selection_and_status() {
    let mut app = three();
    press(&mut app, "j");
    let screen = ui(&app);
    assert_eq!(screen.title, "Todo-cli Interactive mode");
    assert_eq!(screen.title_height, 3);
    assert_eq!(screen.items, vec!["one", "two", "three"]);
    assert_eq!(screen.selected, Some(1));
    assert_eq!(screen.highlight_symbol, "> ");
    assert_eq!(screen.list_min_height, 1);
    assert_eq!(screen.status, "[NOR]");
    assert_eq!(screen.status_height, 1);
    press(&mut app, ":w");
    assert_eq!(ui(&app).status, ":w");
    assert_eq!(descriptions(&app), vec!["one", "two", "three"]);
}

#[test]
fn ui_of_empty_list_has_no_lines() {
    let app = App::new(Vec::new());
    let screen = ui(&app);
    assert!(screen.items.is_empty());
    assert_eq!(screen.selected, None);
    assert_eq!(screen.status, "[NOR]");
}
