use todo_list::machine::{App, Key, Mode};
use todo_list::todo::Todo;

fn app_with(messages: &[&str]) -> App {
    let mut todos: Vec<Todo> = Vec::new();
    for m in messages {
        todos.push(Todo::new(String::from(*m), false));
    }
    App::new(todos)
}

#[test]
fn browse_down_then_enter_toggles_only_the_selected_item() {
    let mut app = app_with(&["a", "b"]);
    assert_eq!(app.selector.selected(), Some(0));
    let quit = app.handle_key(Key::Down);
    assert!(!quit);
    assert_eq!(app.selector.selected(), Some(1));
    let quit = app.handle_key(Key::Enter);
    assert!(!quit);
    assert!(app.todos[1].is_finished());
    assert!(!app.todos[0].is_finished());
}

#[test]
fn add_mode_types_and_commits_a_new_item() {
    let mut app = app_with(&[]);
    let quit = app.handle_key(Key::Char('a'));
    assert!(!quit);
    assert_eq!(app.mode, Mode::Add);
    assert_eq!(app.input.input, "");
    app.handle_key(Key::Char('H'));
    app.handle_key(Key::Char('i'));
    assert_eq!(app.input.input, "Hi");
    assert_eq!(app.input.char_index, 2);
    let quit = app.handle_key(Key::Enter);
    assert!(!quit);
    assert_eq!(app.todos.len(), 1);
    assert_eq!(app.todos[0].get_message(), "Hi");
    assert!(!app.todos[0].is_finished());
    assert_eq!(app.mode, Mode::Browse);
    assert_eq!(app.input.input, "");
    assert_eq!(app.input.char_index, 0);
}

#[test]
fn add_mode_backspace_deletes_before_cursor_and_saturates() {
    let mut app = app_with(&[]);
    app.handle_key(Key::Char('a'));
    app.handle_key(Key::Char('a'));
    app.handle_key(Key::Char('b'));
    app.handle_key(Key::Char('c'));
    app.input.move_cursor_left();
    app.input.move_cursor_left();
    assert_eq!(app.input.input, "abc");
    assert_eq!(app.input.char_index, 1);
    app.handle_key(Key::Backspace);
    assert_eq!(app.input.input, "bc");
    assert_eq!(app.input.char_index, 0);
    app.handle_key(Key::Backspace);
    assert_eq!(app.input.input, "bc");
    assert_eq!(app.input.char_index, 0);
}

#[test]
fn remove_on_empty_collection_is_a_noop() {
    let mut app = app_with(&[]);
    let quit = app.handle_key(Key::Char('d'));
    assert!(!quit);
    assert_eq!(app.selector.selected(), None);
    assert_eq!(app.todos.len(), 0);
    assert_eq!(app.mode, Mode::Browse);
}

#[test]
fn remove_takes_out_the_selected_position() {
    let mut app = app_with(&["a", "b", "c"]);
    app.handle_key(Key::Down);
    assert_eq!(app.selector.selected(), Some(1));
    let quit = app.handle_key(Key::Char('d'));
    assert!(!quit);
    assert_eq!(app.todos.len(), 2);
    assert_eq!(app.todos[0].get_message(), "a");
    assert_eq!(app.todos[1].get_message(), "c");
    assert_eq!(app.selector.selected(), Some(1));
    assert_eq!(app.mode, Mode::Browse);
}

#[test]
fn removing_the_last_item_reclamps_the_selection() {
    let mut app = app_with(&["a", "b"]);
    app.handle_key(Key::Down);
    assert_eq!(app.selector.selected(), Some(1));
    app.handle_key(Key::Char('d'));
    assert_eq!(app.todos.len(), 1);
    assert_eq!(app.selector.selected(), Some(0));
    app.handle_key(Key::Char('d'));
    assert_eq!(app.todos.len(), 0);
    assert_eq!(app.selector.selected(), None);
}

#[test]
fn toggle_with_no_selection_is_a_noop() {
    let mut app = app_with(&[]);
    let quit = app.handle_key(Key::Enter);
    assert!(!quit);
    assert_eq!(app.todos.len(), 0);
    assert_eq!(app.mode, Mode::Browse);
}

#[test]
fn browse_arrows_clamp_to_the_list() {
    let mut app = app_with(&["a", "b"]);
    app.handle_key(Key::Up);
    assert_eq!(app.selector.selected(), Some(0));
    app.handle_key(Key::Down);
    app.handle_key(Key::Down);
    app.handle_key(Key::Down);
    assert_eq!(app.selector.selected(), Some(1));
}

#[test]
fn browse_esc_changes_nothing() {
    let mut app = app_with(&["a"]);
    let quit = app.handle_key(Key::Esc);
    assert!(!quit);
    assert_eq!(app.mode, Mode::Browse);
    assert_eq!(app.todos.len(), 1);
    assert_eq!(app.selector.selected(), Some(0));
}

#[test]
fn browse_unmapped_keys_end_the_session() {
    let mut app = app_with(&["a"]);
    assert!(app.handle_key(Key::Char('q')));
    let mut app = app_with(&["a"]);
    assert!(app.handle_key(Key::Char('x')));
    let mut app = app_with(&["a"]);
    assert!(app.handle_key(Key::Backspace));
    let mut app = app_with(&["a"]);
    assert!(app.handle_key(Key::Other));
}

#[test]
fn add_esc_discards_the_buffer() {
    let mut app = app_with(&[]);
    app.handle_key(Key::Char('a'));
    app.handle_key(Key::Char('x'));
    let quit = app.handle_key(Key::Esc);
    assert!(!quit);
    assert_eq!(app.mode, Mode::Browse);
    assert_eq!(app.input.input, "");
    assert_eq!(app.todos.len(), 0);
}

#[test]
fn add_unrecognized_key_cancels_to_browse_keeping_the_buffer() {
    let mut app = app_with(&[]);
    app.handle_key(Key::Char('a'));
    app.handle_key(Key::Char('x'));
    let quit = app.handle_key(Key::Up);
    assert!(!quit);
    assert_eq!(app.mode, Mode::Browse);
    assert_eq!(app.input.input, "x");
    assert_eq!(app.todos.len(), 0);
}

#[test]
fn committing_into_an_empty_list_selects_the_new_item() {
    let mut app = app_with(&[]);
    assert_eq!(app.selector.selected(), None);
    app.handle_key(Key::Char('a'));
    app.handle_key(Key::Char('z'));
    app.handle_key(Key::Enter);
    assert_eq!(app.todos.len(), 1);
    assert_eq!(app.selector.selected(), Some(0));
}

#[test]
fn committing_an_empty_buffer_appends_an_empty_message() {
    let mut app = app_with(&["a"]);
    app.handle_key(Key::Char('a'));
    app.handle_key(Key::Enter);
    assert_eq!(app.todos.len(), 2);
    assert_eq!(app.todos[1].get_message(), "");
    assert!(!app.todos[1].is_finished());
}

#[test]
fn a_session_resting_in_remove_mode_removes_on_the_next_key() {
    let mut app = app_with(&["a", "b"]);
    app.mode = Mode::Remove;
    let quit = app.handle_key(Key::Other);
    assert!(!quit);
    assert_eq!(app.todos.len(), 1);
    assert_eq!(app.todos[0].get_message(), "b");
    assert_eq!(app.mode, Mode::Browse);
}
