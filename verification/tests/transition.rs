use kanban_board::board::{delete_with_reindex, Kanban};
use kanban_board::dashboard::App;
use kanban_board::data::{Column, KanbanProject};
use kanban_board::input::{Action, Command, Modifier};

fn tr_strings(items: &[&str]) -> Vec<String> {
    items.iter().map(|s| s.to_string()).collect()
}

fn tr_project(name: &str, todo: &[&str], in_progress: &[&str], done: &[&str]) -> KanbanProject {
    let mut p = KanbanProject::new(name.to_string());
    p.todo = tr_strings(todo);
    p.in_progress = tr_strings(in_progress);
    p.done = tr_strings(done);
    p
}

fn tr_app(projects: Vec<KanbanProject>) -> App {
    let mut app = App::default();
    app.load_projects(Some(projects));
    app
}

#[test]
fn deleting_last_of_several_selects_new_last() {
    let mut list = tr_strings(&["a", "b", "c", "d"]);
    let r = delete_with_reindex(&mut list, Some(3));
    assert_eq!(r, Some(2));
    assert_eq!(list, tr_strings(&["a", "b", "c"]));
}

#[test]
fn deleting_sole_item_gives_index_zero_and_empty_column() {
    let mut list = tr_strings(&["a"]);
    let r = delete_with_reindex(&mut list, Some(0));
    assert_eq!(r, Some(0));
    assert!(list.is_empty());
}

#[test]
fn deleting_inner_item_keeps_index() {
    let mut list = tr_strings(&["a", "b", "c"]);
    let r = delete_with_reindex(&mut list, Some(1));
    assert_eq!(r, Some(1));
    assert_eq!(list, tr_strings(&["a", "c"]));
    let r = delete_with_reindex(&mut list, Some(0));
    assert_eq!(r, Some(0));
    assert_eq!(list, tr_strings(&["c"]));
}

#[test]
fn deleting_without_selection_does_nothing() {
    let mut list = tr_strings(&["a", "b"]);
    assert_eq!(delete_with_reindex(&mut list, None), None);
    assert_eq!(delete_with_reindex(&mut list, Some(2)), Some(2));
    assert_eq!(list, tr_strings(&["a", "b"]));
    let mut none: Vec<String> = Vec::new();
    assert_eq!(delete_with_reindex(&mut none, Some(0)), Some(0));
    assert!(none.is_empty());
}

#[test]
fn delete_in_each_column() {
    let mut k = Kanban::default();
    k.add_project(tr_project("P", &["a", "b"], &["c", "d"], &["e"]));
    k.todo_index = Some(1);
    k.in_progress_index = Some(0);
    k.done_index = Some(0);
    k.delete_todo();
    k.delete_in_progress();
    k.delete_done();
    assert_eq!(k.projects[0].todo, tr_strings(&["a"]));
    assert_eq!(k.projects[0].in_progress, tr_strings(&["d"]));
    assert!(k.projects[0].done.is_empty());
    assert_eq!(k.todo_index, Some(0));
    assert_eq!(k.in_progress_index, Some(0));
    assert_eq!(k.done_index, Some(0));
    k.done_index = None;
    k.delete_item(Column::Done);
    assert_eq!(k.done_index, None);
}

#[test]
fn move_todo_to_in_progress() {
    let mut app = tr_app(vec![tr_project("P", &["a", "b"], &["x"], &[])]);
    assert_eq!(app.apply(Command::MoveRight(Modifier::WithShift)), Action::Save);
    assert_eq!(app.kanban.projects[0].todo, tr_strings(&["b"]));
    assert_eq!(app.kanban.todo_index, Some(0));
    assert_eq!(app.kanban.projects[0].in_progress, tr_strings(&["x", "a"]));
    assert_eq!(app.kanban.in_progress_index, None);
    assert_eq!(app.focus.column_focus, Column::Todo);
}

#[test]
fn move_through_all_columns_and_back() {
    let mut app = tr_app(vec![tr_project("P", &["a"], &[], &["z"])]);
    app.apply(Command::MoveRight(Modifier::WithShift));
    assert!(app.kanban.projects[0].todo.is_empty());
    assert_eq!(app.kanban.todo_index, Some(0));
    app.apply(Command::MoveRight(Modifier::Plain));
    assert_eq!(app.apply(Command::MoveRight(Modifier::WithShift)), Action::Save);
    assert!(app.kanban.projects[0].in_progress.is_empty());
    assert_eq!(app.kanban.projects[0].done, tr_strings(&["z", "a"]));
    app.apply(Command::MoveRight(Modifier::Plain));
    assert_eq!(app.apply(Command::MoveRight(Modifier::WithShift)), Action::Continue);
    app.apply(Command::MoveDown(Modifier::Plain));
    assert_eq!(app.kanban.done_index, Some(1));
    assert_eq!(app.apply(Command::MoveLeft(Modifier::WithShift)), Action::Save);
    assert_eq!(app.kanban.projects[0].done, tr_strings(&["z"]));
    assert_eq!(app.kanban.done_index, Some(0));
    assert_eq!(app.kanban.projects[0].in_progress, tr_strings(&["a"]));
    app.apply(Command::MoveLeft(Modifier::Plain));
    assert_eq!(app.apply(Command::MoveLeft(Modifier::WithShift)), Action::Save);
    assert_eq!(app.kanban.projects[0].todo, tr_strings(&["a"]));
    assert!(app.kanban.projects[0].in_progress.is_empty());
}

#[test]
fn move_from_empty_column_does_nothing() {
    let mut app = tr_app(vec![tr_project("P", &[], &["x"], &[])]);
    let before = app.clone();
    assert_eq!(app.apply(Command::MoveRight(Modifier::WithShift)), Action::Continue);
    assert_eq!(app.apply(Command::MoveLeft(Modifier::WithShift)), Action::Continue);
    assert_eq!(app, before);
}

#[test]
fn add_to_a_given_project() {
    let mut k = Kanban::default();
    k.add_project(KanbanProject::new("A".to_string()));
    k.add_project(KanbanProject::new("B".to_string()));
    k.add_todo(1, "t");
    k.add_in_progress(1, "i");
    k.add_done(0, "d");
    k.add_todo(2, "lost");
    assert_eq!(k.projects[0], tr_project("A", &[], &[], &["d"]));
    assert_eq!(k.projects[1], tr_project("B", &["t"], &["i"], &[]));
    assert_eq!(k.projects.len(), 2);
}

#[test]
fn delete_project_repairs_index() {
    let mut k = Kanban::default();
    for n in ["A", "B", "C"] {
        k.add_project(KanbanProject::new(n.to_string()));
    }
    k.project_index = 2;
    k.delete_project();
    assert_eq!(k.project_index, 1);
    assert_eq!(k.projects.len(), 2);
    k.project_index = 0;
    k.delete_project();
    assert_eq!(k.project_index, 0);
    assert_eq!(k.projects[0].name, "B");
    k.delete_project();
    assert_eq!(k.project_index, 0);
    assert!(k.projects.is_empty());
    k.delete_project();
    assert_eq!(k.project_index, 0);
    assert!(k.projects.is_empty());
}

#[test]
fn selected_text_and_project_name() {
    let mut k = Kanban::default();
    assert_eq!(k.project_name(), None);
    assert_eq!(k.selected_text(Column::Todo), None);
    k.add_project(tr_project("P", &["a", "b"], &["c"], &[]));
    assert_eq!(k.project_name(), Some("P".to_string()));
    assert_eq!(k.selected_text(Column::Todo), Some("a".to_string()));
    assert_eq!(k.selected_text(Column::InProgress), None);
    k.in_progress_index = Some(0);
    assert_eq!(k.selected_text(Column::InProgress), Some("c".to_string()));
    k.done_index = Some(0);
    assert_eq!(k.selected_text(Column::Done), None);
    assert_eq!(k.column_len(Column::Todo), 2);
    assert_eq!(k.column_len(Column::Done), 0);
}
