use kanban_board::board::Kanban;
use kanban_board::dashboard::App;
use kanban_board::data::{Column, KanbanProject, Popup};
use kanban_board::input::{Action, Command, Key, KeyPress, Modifier};

fn ha_project(name: &str, todo: &[&str], in_progress: &[&str], done: &[&str]) -> KanbanProject {
    let mut p = KanbanProject::new(name.to_string());
    p.todo = todo.iter().map(|s| s.to_string()).collect();
    p.in_progress = in_progress.iter().map(|s| s.to_string()).collect();
    p.done = done.iter().map(|s| s.to_string()).collect();
    p
}

fn ha_app() -> App {
    let mut app = App::default();
    app.load_projects(Some(vec![
        ha_project("A", &["a1", "a2"], &["a3"], &[]),
        ha_project("B", &[], &[], &["b1"]),
    ]));
    app
}

fn ha_key(code: Key, modifiers: Modifier) -> KeyPress {
    KeyPress { code, modifiers }
}

fn ha_holds_together(app: &App) -> bool {
    let k = &app.kanban;
    let project_ok =
        if k.projects.is_empty() { k.project_index == 0 } else { k.project_index < k.projects.len() };
    let focus = app.focus.column_focus;
    project_ok
        && k.todo_index.is_some() == (focus == Column::Todo)
        && k.in_progress_index.is_some() == (focus == Column::InProgress)
        && k.done_index.is_some() == (focus == Column::Done)
        && (app.popup != Popup::Disabled || (app.input.is_empty() && !app.can_input))
}

#[test]
fn popup_functions_set_text_and_editability() {
    let mut app = ha_app();
    app.open_edit_popup(Popup::EditTodo, "seed".to_string());
    assert_eq!((app.popup, app.input.as_str(), app.can_input), (Popup::EditTodo, "seed", true));
    app.open_popup(Popup::AddDone);
    assert_eq!((app.popup, app.input.as_str(), app.can_input), (Popup::AddDone, "", true));
    app.open_delete_popup(Popup::DeleteProject, "A".to_string());
    assert_eq!((app.popup, app.input.as_str(), app.can_input), (Popup::DeleteProject, "A", false));
    app.close_popup();
    assert_eq!((app.popup, app.input.as_str(), app.can_input), (Popup::Disabled, "", false));
}

#[test]
fn adjust_indexes_resets_focus_and_selection() {
    let mut app = ha_app();
    app.focus_right();
    app.focus_right();
    assert_eq!(app.focus.column_focus, Column::Done);
    app.adjust_kanban_indexes_upon_project_change();
    assert_eq!(app.focus.column_focus, Column::Todo);
    assert_eq!(app.kanban.todo_index, Some(0));
    assert_eq!(app.kanban.in_progress_index, None);
    assert_eq!(app.kanban.done_index, None);
    assert_eq!(app.kanban.project_index, 0);
}

#[test]
fn n_key_by_modifier_and_state() {
    let mut app = ha_app();
    assert_eq!(app.handle_n_key(ha_key(Key::Char('n'), Modifier::Plain)), Action::Continue);
    assert_eq!(app.popup, Popup::AddTodo);
    app.handle_n_key(ha_key(Key::Char('n'), Modifier::WithShift));
    assert_eq!(app.input, "n");
    app.handle_n_key(ha_key(Key::Char('n'), Modifier::WithControl));
    assert_eq!(app.popup, Popup::AddTodo);
    assert_eq!(app.input, "n");
    app.close_popup();
    app.handle_n_key(ha_key(Key::Char('n'), Modifier::WithControl));
    assert_eq!(app.popup, Popup::AddProject);
    assert!(app.can_input);
}

#[test]
fn e_key_by_modifier_and_state() {
    let mut app = ha_app();
    app.handle_e_key(ha_key(Key::Char('e'), Modifier::Plain));
    assert_eq!(app.popup, Popup::EditTodo);
    assert_eq!(app.input, "a1");
    app.handle_e_key(ha_key(Key::Char('e'), Modifier::Plain));
    assert_eq!(app.input, "a1e");
    app.close_popup();
    app.handle_e_key(ha_key(Key::Char('e'), Modifier::WithControl));
    assert_eq!(app.popup, Popup::EditProject);
    assert_eq!(app.input, "A");
}

#[test]
fn input_handler_takes_characters_only() {
    let mut app = ha_app();
    let before = app.clone();
    assert_eq!(app.handle_input(ha_key(Key::Char('x'), Modifier::Plain)), Action::Continue);
    assert_eq!(app.handle_input(ha_key(Key::Enter, Modifier::Plain)), Action::Continue);
    assert_eq!(app.handle_input(ha_key(Key::Esc, Modifier::Plain)), Action::Continue);
    assert_eq!(app, before);
    app.handle_input(ha_key(Key::Char('n'), Modifier::Plain));
    app.handle_input(ha_key(Key::Char('x'), Modifier::WithControl));
    assert_eq!(app.input, "x");
}

#[test]
fn keyboard_handler_takes_arrows_and_characters() {
    let mut app = ha_app();
    app.handle_keyboard(ha_key(Key::Down, Modifier::Plain));
    assert_eq!(app.kanban.todo_index, Some(1));
    assert_eq!(app.handle_keyboard(ha_key(Key::Right, Modifier::WithShift)), Action::Save);
    assert_eq!(app.kanban.projects[0].todo, vec!["a1".to_string()]);
    assert_eq!(app.kanban.projects[0].in_progress, vec!["a3".to_string(), "a2".to_string()]);
    assert_eq!(app.kanban.todo_index, Some(0));
    app.handle_keyboard(ha_key(Key::Up, Modifier::WithControl));
    assert_eq!(app.kanban.project_index, 1);
    let before = app.clone();
    assert_eq!(app.handle_keyboard(ha_key(Key::Esc, Modifier::Plain)), Action::Continue);
    assert_eq!(app.handle_keyboard(ha_key(Key::Enter, Modifier::Plain)), Action::Continue);
    assert_eq!(app, before);
}

#[test]
fn navigate_reports_whether_to_store() {
    let mut app = ha_app();
    assert_eq!(app.navigate(Command::MoveDown(Modifier::Plain)), Action::Continue);
    assert_eq!(app.navigate(Command::MoveLeft(Modifier::WithShift)), Action::Continue);
    assert_eq!(app.navigate(Command::MoveRight(Modifier::WithShift)), Action::Save);
    assert_eq!(app.navigate(Command::Confirm), Action::Continue);
    assert!(app.shift_item(true));
    assert!(!app.shift_item(false));
    app.switch_project(true);
    assert_eq!(app.kanban.project_index, 1);
    assert!(!app.shift_item(true));
}

#[test]
fn state_holds_together_through_a_session() {
    let mut app = App::default();
    assert!(ha_holds_together(&app));
    let keys = [
        ha_key(Key::Char('n'), Modifier::WithControl),
        ha_key(Key::Char('A'), Modifier::WithShift),
        ha_key(Key::Enter, Modifier::Plain),
        ha_key(Key::Char('n'), Modifier::Plain),
        ha_key(Key::Char('1'), Modifier::Plain),
        ha_key(Key::Enter, Modifier::Plain),
        ha_key(Key::Char('n'), Modifier::Plain),
        ha_key(Key::Char('2'), Modifier::Plain),
        ha_key(Key::Enter, Modifier::Plain),
        ha_key(Key::Down, Modifier::Plain),
        ha_key(Key::Right, Modifier::WithShift),
        ha_key(Key::Right, Modifier::Plain),
        ha_key(Key::Delete, Modifier::Plain),
        ha_key(Key::Enter, Modifier::Plain),
        ha_key(Key::Right, Modifier::Plain),
        ha_key(Key::Char('n'), Modifier::WithControl),
        ha_key(Key::Char('B'), Modifier::Plain),
        ha_key(Key::Enter, Modifier::Plain),
        ha_key(Key::Up, Modifier::WithControl),
        ha_key(Key::Delete, Modifier::WithControl),
        ha_key(Key::Enter, Modifier::Plain),
        ha_key(Key::Char('e'), Modifier::Plain),
        ha_key(Key::Backspace, Modifier::Plain),
        ha_key(Key::Enter, Modifier::Plain),
        ha_key(Key::Delete, Modifier::WithControl),
        ha_key(Key::Esc, Modifier::Plain),
    ];
    for k in keys {
        app.handle_key(k);
        assert!(ha_holds_together(&app));
    }
    assert_eq!(app.kanban.projects, vec![ha_project("A", &["1"], &[], &[])]);
    assert_eq!(app.kanban.project_index, 0);
    assert_eq!(app.popup, Popup::Disabled);
}

#[test]
fn board_operations_by_column() {
    let mut k = Kanban::default();
    k.load(vec![ha_project("A", &["a1", "a2"], &["a3"], &[]), ha_project("B", &[], &[], &[])]);
    assert_eq!(k.index(Column::Todo), Some(0));
    assert_eq!(k.index(Column::Done), None);
    k.set_index(Column::InProgress, Some(0));
    k.edit_item(Column::InProgress, "a3!".to_string());
    k.edit_item(Column::Done, "lost".to_string());
    assert_eq!(k.projects[0], ha_project("A", &["a1", "a2"], &["a3!"], &[]));
    assert!(k.move_item(Column::InProgress, Column::Done));
    assert!(!k.move_item(Column::InProgress, Column::Done));
    assert_eq!(k.projects[0], ha_project("A", &["a1", "a2"], &[], &["a3!"]));
    assert_eq!(k.in_progress_index, Some(0));
    k.rename_project("A2".to_string());
    assert_eq!(k.projects[0].name, "A2");
    assert!(k.step_project(true));
    assert_eq!(k.project_index, 1);
    assert!(k.step_project(true));
    assert_eq!(k.project_index, 1);
    k.add_item(Column::Done, "b1");
    assert_eq!(k.projects[1], ha_project("B", &[], &[], &["b1"]));
    assert!(k.step_project(false));
    assert!(k.step_project(false));
    assert_eq!(k.project_index, 0);
    k.reset_indexes();
    assert_eq!((k.todo_index, k.in_progress_index, k.done_index), (Some(0), None, None));
    let mut none = Kanban::default();
    assert!(!none.step_project(true));
    none.rename_project("x".to_string());
    none.add_item(Column::Todo, "x");
    assert_eq!(none, Kanban::default());
}
