use std::time::Duration;

use kanban_board::board::Kanban;
use kanban_board::dashboard::App;
use kanban_board::data::{Column, DailyTask, Focus, KanbanProject, Message, Popup, Tab, Task, TaskStep};
use kanban_board::input::{Action, Command, Modifier};

fn sc_project(name: &str, todo: &[&str]) -> KanbanProject {
    let mut p = KanbanProject::new(name.to_string());
    p.todo = todo.iter().map(|s| s.to_string()).collect();
    p
}

#[test]
fn deleting_the_only_project_empties_the_board() {
    let mut app = App::default();
    app.load_projects(Some(vec![sc_project("P", &["t1"])]));
    assert_eq!(app.apply(Command::OpenDeleteProject), Action::Continue);
    assert_eq!(app.popup, Popup::DeleteProject);
    assert_eq!(app.input, "P");
    assert_eq!(app.apply(Command::Confirm), Action::Save);
    assert!(app.kanban.projects.is_empty());
    assert_eq!(app.kanban.project_index, 0);

    let before = app.clone();
    for c in [
        Command::MoveUp(Modifier::Plain),
        Command::MoveDown(Modifier::Plain),
        Command::MoveUp(Modifier::WithControl),
        Command::MoveDown(Modifier::WithControl),
        Command::MoveRight(Modifier::WithShift),
        Command::MoveLeft(Modifier::WithShift),
        Command::OpenNew,
        Command::OpenEdit,
        Command::OpenDeleteItem,
        Command::OpenDeleteProject,
        Command::OpenEditProject,
        Command::Confirm,
    ] {
        assert_eq!(app.apply(c), Action::Continue);
        assert_eq!(app, before);
    }

    app.apply(Command::OpenNewProject);
    app.apply(Command::TextChar('Q'));
    assert_eq!(app.apply(Command::Confirm), Action::Save);
    assert_eq!(app.kanban.projects, vec![KanbanProject::new("Q".to_string())]);
    app.apply(Command::OpenNew);
    assert_eq!(app.popup, Popup::AddTodo);
}

#[test]
fn new_item_on_empty_todo_column() {
    let mut app = App::default();
    app.load_projects(Some(vec![sc_project("P", &[])]));
    app.apply(Command::OpenNew);
    for c in "buy milk".chars() {
        app.apply(Command::TextChar(c));
    }
    assert_eq!(app.apply(Command::Confirm), Action::Save);
    assert_eq!(app.kanban.projects[0].todo, vec!["buy milk".to_string()]);
    assert_eq!(app.kanban.todo_index, Some(0));
    assert_eq!(app.popup, Popup::Disabled);
}

#[test]
fn shift_right_moves_first_todo_item() {
    let mut app = App::default();
    app.load_projects(Some(vec![sc_project("P", &["a", "b"])]));
    assert_eq!(app.apply(Command::MoveRight(Modifier::WithShift)), Action::Save);
    assert_eq!(app.kanban.projects[0].todo, vec!["b".to_string()]);
    assert_eq!(app.kanban.todo_index, Some(0));
    assert_eq!(app.kanban.projects[0].in_progress, vec!["a".to_string()]);
}

#[test]
fn defaults() {
    let app = App::default();
    assert_eq!(app.tab.len(), 1);
    assert_eq!(app.tab.get(&3), Some(&" Kanban ".to_string()));
    assert_eq!(app.popup, Popup::Disabled);
    assert_eq!(app.input, "");
    assert!(!app.can_input);
    assert_eq!(app.focus, Focus::default());
    assert_eq!(app.focus.tab_focus, Tab::Kanban);
    assert_eq!(app.focus.column_focus, Column::Todo);
    assert_eq!(app.messages, Message::default());
    assert_eq!(app.messages.quit, "ESC to exit");
    assert_eq!(app.messages.tab_change, "Ctrl + arrows ot change tabs");
    assert_eq!(app.kanban, Kanban::default());
    assert!(app.kanban.projects.is_empty());
    assert_eq!(app.kanban.project_index, 0);
    assert_eq!(app.kanban.todo_index, Some(0));
    assert_eq!(app.kanban.in_progress_index, None);
    assert_eq!(app.kanban.done_index, None);
    assert_eq!(app.daily_task, DailyTask::default());
    assert!(app.daily_task.tasks.is_empty());
    assert_eq!(app.daily_task.selected_task_index, 0);
    assert_eq!(app.daily_task.selected_step_index, None);
}

#[test]
fn new_project_is_empty() {
    let p = KanbanProject::new("Plan".to_string());
    assert_eq!(p.name, "Plan");
    assert!(p.todo.is_empty());
    assert!(p.in_progress.is_empty());
    assert!(p.done.is_empty());
}

#[test]
fn tasks_and_steps() {
    let mut t = Task::new("write");
    assert_eq!(t.task_name, "write");
    assert!(t.steps.is_empty());
    assert_eq!(t.task_duration, Duration::from_secs(0));
    assert_eq!(t.task_duration.as_secs(), 0);
    let mut s = TaskStep::new("draft", Duration::from_secs(90));
    assert_eq!(s.step_name, "draft");
    assert_eq!(s.step_duration, Duration::from_secs(90));
    t.add_step(s.clone());
    s._update_step("review".to_string(), Duration::from_secs(30));
    assert_eq!(
        s,
        TaskStep { step_name: "review".to_string(), step_duration: Duration::from_secs(30) }
    );
    t.add_step(s);
    assert_eq!(t.steps.len(), 2);
    assert_eq!(t.steps[0].step_name, "draft");
    assert_eq!(t.steps[1].step_name, "review");
    assert_eq!(t.task_duration, Duration::from_secs(0));
    let mut d = DailyTask::default();
    d.add_task(t.clone());
    assert_eq!(d.tasks, vec![t]);
}

#[test]
fn loading_appends_in_order() {
    let mut app = App::default();
    app.load_projects(Some(vec![sc_project("A", &["1"]), sc_project("B", &[])]));
    app.load_projects(Some(vec![sc_project("C", &["2", "3"])]));
    let names: Vec<&str> = app.kanban.projects.iter().map(|p| p.name.as_str()).collect();
    assert_eq!(names, vec!["A", "B", "C"]);
    assert_eq!(app.kanban.project_index, 0);
    assert_eq!(app.kanban.projects[2].todo, vec!["2".to_string(), "3".to_string()]);
}

#[test]
fn unreadable_store_loads_nothing() {
    let mut app = App::default();
    app.load_projects(Some(vec![sc_project("A", &["1"])]));
    let before = app.clone();
    app.load_projects(None);
    assert_eq!(app, before);
    app.load_projects(Some(Vec::new()));
    assert_eq!(app, before);
}
