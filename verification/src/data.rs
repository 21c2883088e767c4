//! The state of the dashboard: projects, selection, focus and popup.

use std::time::Duration;
use vstd::prelude::*;
use crate::text::texts;

verus! {

/// One of the three lists of a project.
#[derive(Clone, Copy, Debug, PartialEq, Eq, Structural)]
pub enum Column {
    Todo,
    InProgress,
    Done,
}

/// The tabs of the dashboard. Only the kanban tab has behaviour.
#[derive(Clone, Copy, Debug, PartialEq, Eq, Structural)]
pub enum Tab {
    DailyTasks,
    Events,
    Kanban,
}

/// The modal popup that is open, if any.
#[derive(Clone, Copy, Debug, PartialEq, Eq, Structural)]
pub enum Popup {
    AddTask,
    EditTask,
    DeleteTask,
    AddProject,
    EditProject,
    DeleteProject,
    AddTodo,
    EditTodo,
    DeleteTodo,
    AddInProgress,
    EditInProgress,
    DeleteInProgress,
    AddDone,
    EditDone,
    DeleteDone,
    Disabled,
}

/// How a popup is set off from the board: by whether it concerns a project
/// or an item, and whether it deletes.
#[derive(Clone, Copy, Debug, PartialEq, Eq, Structural)]
pub enum Tone {
    Project,
    Item,
    Danger,
}

impl Popup {
    /// The tone of a popup that is drawn: `Danger` for a deletion, otherwise
    /// by what the popup adds or edits.
    pub open spec fn shown_tone(self) -> Tone {
        match self {
            Popup::AddProject | Popup::EditProject => Tone::Project,
            Popup::DeleteTodo | Popup::DeleteInProgress | Popup::DeleteDone
            | Popup::DeleteProject => Tone::Danger,
            _ => Tone::Item,
        }
    }

    /// The popup that adds an item to a column.
    pub open spec fn adding(c: Column) -> Popup {
        match c {
            Column::Todo => Popup::AddTodo,
            Column::InProgress => Popup::AddInProgress,
            Column::Done => Popup::AddDone,
        }
    }

    /// The popup that edits the highlighted item of a column.
    pub open spec fn editing(c: Column) -> Popup {
        match c {
            Column::Todo => Popup::EditTodo,
            Column::InProgress => Popup::EditInProgress,
            Column::Done => Popup::EditDone,
        }
    }

    /// The popup that asks whether to delete the highlighted item of a column.
    pub open spec fn deleting(c: Column) -> Popup {
        match c {
            Column::Todo => Popup::DeleteTodo,
            Column::InProgress => Popup::DeleteInProgress,
            Column::Done => Popup::DeleteDone,
        }
    }

    /// The heading of a popup; the empty text where none is open.
    pub open spec fn heading(self) -> Seq<char> {
        match self {
            Popup::AddProject => "Add a New Project"@,
            Popup::AddTodo => "Add a New Todo Task"@,
            Popup::AddInProgress => "Add a new In Progress Task"@,
            Popup::AddDone => "Add a New Done Task"@,
            Popup::EditProject => "Edit Project Name"@,
            Popup::EditTodo => "Edit Todo Task's Name"@,
            Popup::EditInProgress => "Edit Todo Task's Name"@,
            Popup::EditDone => "Edit Done Task's Name"@,
            Popup::DeleteTodo => "Delete Todo?"@,
            Popup::DeleteInProgress => "Delete In Progress?"@,
            Popup::DeleteDone => "Delete Done?"@,
            Popup::DeleteProject => "Delete Current Project?"@,
            _ => ""@,
        }
    }

    /// Whether a popup is drawn for this state.
    pub open spec fn is_shown(self) -> bool {
        match self {
            Popup::AddTask | Popup::EditTask | Popup::DeleteTask | Popup::Disabled => false,
            _ => true,
        }
    }

    pub fn add_for(c: Column) -> (p: Popup)
        ensures
            p == Popup::adding(c),
    {
        match c {
            Column::Todo => Popup::AddTodo,
            Column::InProgress => Popup::AddInProgress,
            Column::Done => Popup::AddDone,
        }
    }

    pub fn edit_for(c: Column) -> (p: Popup)
        ensures
            p == Popup::editing(c),
    {
        match c {
            Column::Todo => Popup::EditTodo,
            Column::InProgress => Popup::EditInProgress,
            Column::Done => Popup::EditDone,
        }
    }

    pub fn delete_for(c: Column) -> (p: Popup)
        ensures
            p == Popup::deleting(c),
    {
        match c {
            Column::Todo => Popup::DeleteTodo,
            Column::InProgress => Popup::DeleteInProgress,
            Column::Done => Popup::DeleteDone,
        }
    }

    /// The tone in which to draw the popup, or `None` where no popup is
    /// drawn.
    pub fn tone(&self) -> (t: Option<Tone>)
        ensures
            t == if self.is_shown() {
                Some(self.shown_tone())
            } else {
                None
            },
    {
        match self {
            Popup::AddProject | Popup::EditProject => Some(Tone::Project),
            Popup::AddTodo | Popup::AddInProgress | Popup::AddDone | Popup::EditTodo
            | Popup::EditInProgress | Popup::EditDone => Some(Tone::Item),
            Popup::DeleteTodo | Popup::DeleteInProgress | Popup::DeleteDone
            | Popup::DeleteProject => Some(Tone::Danger),
            _ => None,
        }
    }

    /// The heading to draw above the popup's text, or `None` where no popup
    /// is drawn.
    pub fn title(&self) -> (t: Option<&'static str>)
        ensures
            match t {
                Some(s) => self.is_shown() && s@ == self.heading(),
                None => !self.is_shown(),
            },
    {
        match self {
            Popup::AddProject => Some("Add a New Project"),
            Popup::AddTodo => Some("Add a New Todo Task"),
            Popup::AddInProgress => Some("Add a new In Progress Task"),
            Popup::AddDone => Some("Add a New Done Task"),
            Popup::EditProject => Some("Edit Project Name"),
            Popup::EditTodo => Some("Edit Todo Task's Name"),
            Popup::EditInProgress => Some("Edit Todo Task's Name"),
            Popup::EditDone => Some("Edit Done Task's Name"),
            Popup::DeleteTodo => Some("Delete Todo?"),
            Popup::DeleteInProgress => Some("Delete In Progress?"),
            Popup::DeleteDone => Some("Delete Done?"),
            Popup::DeleteProject => Some("Delete Current Project?"),
            _ => None,
        }
    }
}

/// The hints shown to the user.
#[derive(Clone, Debug, PartialEq, Eq)]
pub struct Message {
    pub quit: String,
    pub tab_change: String,
}

impl Message {
    pub fn default() -> (m: Message)
        ensures
            m.quit@ == "ESC to exit"@,
            m.tab_change@ == "Ctrl + arrows ot change tabs"@,
    {
        Message {
            quit: "ESC to exit".to_owned(),
            tab_change: "Ctrl + arrows ot change tabs".to_owned(),
        }
    }
}

/// Which tab is shown and which column of the board takes the arrow keys.
#[derive(Clone, Debug, PartialEq, Eq)]
pub struct Focus {
    pub tab_focus: Tab,
    pub column_focus: Column,
}

impl Focus {
    pub fn default() -> (f: Focus)
        ensures
            f.tab_focus == Tab::Kanban,
            f.column_focus == Column::Todo,
    {
        Focus { tab_focus: Tab::Kanban, column_focus: Column::Todo }
    }
}

/// The length of time that `Duration::from_secs` gives for a number of whole
/// seconds.
pub uninterp spec fn duration_from_secs(secs: u64) -> Duration;

/// `Duration::from_secs` makes the duration of that many whole seconds; the
/// same number gives the same duration.
pub assume_specification[ Duration::from_secs ](secs: u64) -> (d: Duration)
    ensures
        d == duration_from_secs(secs),
;

/// `Clone::clone` on a `Duration`, which is `Copy`, gives the same duration.
pub assume_specification[ <Duration as Clone>::clone ](d: &Duration) -> (r: Duration)
    ensures
        r == *d,
;

/// One step of a daily task and how long it takes.
#[derive(Clone, Debug, PartialEq, Eq)]
pub struct TaskStep {
    pub step_name: String,
    pub step_duration: Duration,
}

impl TaskStep {
    pub fn new(name: &str, step_duration: Duration) -> (s: TaskStep)
        ensures
            s.step_name@ == name@,
            s.step_duration == step_duration,
    {
        TaskStep { step_name: name.to_owned(), step_duration }
    }

    pub fn _update_step(&mut self, step_name: String, step_duration: Duration)
        ensures
            final(self).step_name == step_name,
            final(self).step_duration == step_duration,
    {
        self.step_name = step_name;
        self.step_duration = step_duration;
    }
}

/// A daily task: a name, its steps in order, and how long it takes; a new
/// task takes no time.
#[derive(Clone, Debug, PartialEq, Eq)]
pub struct Task {
    pub task_name: String,
    pub steps: Vec<TaskStep>,
    pub task_duration: Duration,
}

impl Task {
    pub fn new(name: &str) -> (t: Task)
        ensures
            t.task_name@ == name@,
            t.steps@ == Seq::<TaskStep>::empty(),
            t.task_duration == duration_from_secs(0),
    {
        Task { task_name: name.to_owned(), steps: Vec::new(), task_duration: Duration::from_secs(0) }
    }

    pub fn add_step(&mut self, step: TaskStep)
        ensures
            final(self).steps@ == old(self).steps@.push(step),
            final(self).task_name == old(self).task_name,
            final(self).task_duration == old(self).task_duration,
    {
        self.steps.push(step);
    }
}

/// The daily tasks and what is selected among them. `None` stands for a list
/// in which nothing is highlighted.
#[derive(Clone, Debug, PartialEq, Eq)]
pub struct DailyTask {
    pub tasks: Vec<Task>,
    pub selected_task_index: usize,
    pub selected_step_index: Option<usize>,
}

impl DailyTask {
    pub fn default() -> (d: DailyTask)
        ensures
            d.tasks@ == Seq::<Task>::empty(),
            d.selected_task_index == 0,
            d.selected_step_index.is_none(),
    {
        DailyTask { tasks: Vec::new(), selected_task_index: 0, selected_step_index: None }
    }

    pub fn add_task(&mut self, task: Task)
        ensures
            final(self).tasks@ == old(self).tasks@.push(task),
            final(self).selected_task_index == old(self).selected_task_index,
            final(self).selected_step_index == old(self).selected_step_index,
    {
        self.tasks.push(task);
    }
}

/// A project as the contracts see it: its name and its three lists of texts.
pub struct ProjectView {
    pub name: Seq<char>,
    pub todo: Seq<Seq<char>>,
    pub in_progress: Seq<Seq<char>>,
    pub done: Seq<Seq<char>>,
}

impl ProjectView {
    /// The items of one column.
    pub open spec fn column(self, c: Column) -> Seq<Seq<char>> {
        match c {
            Column::Todo => self.todo,
            Column::InProgress => self.in_progress,
            Column::Done => self.done,
        }
    }

    /// The project with one column replaced.
    pub open spec fn with_column(self, c: Column, items: Seq<Seq<char>>) -> ProjectView {
        match c {
            Column::Todo => ProjectView { todo: items, ..self },
            Column::InProgress => ProjectView { in_progress: items, ..self },
            Column::Done => ProjectView { done: items, ..self },
        }
    }

    /// A project of that name with three empty columns.
    pub open spec fn empty(name: Seq<char>) -> ProjectView {
        ProjectView { name, todo: Seq::empty(), in_progress: Seq::empty(), done: Seq::empty() }
    }
}

/// A kanban project: a name and three ordered lists of item texts.
#[derive(Clone, Debug, PartialEq, Eq)]
pub struct KanbanProject {
    pub name: String,
    pub todo: Vec<String>,
    pub in_progress: Vec<String>,
    pub done: Vec<String>,
}

impl View for KanbanProject {
    type V = ProjectView;

    open spec fn view(&self) -> ProjectView {
        ProjectView {
            name: self.name@,
            todo: texts(self.todo@),
            in_progress: texts(self.in_progress@),
            done: texts(self.done@),
        }
    }
}

impl KanbanProject {
    pub fn new(name: String) -> (p: KanbanProject)
        ensures
            p@ == ProjectView::empty(name@),
    {
        let p = KanbanProject { name, todo: Vec::new(), in_progress: Vec::new(), done: Vec::new() };
        assert(texts(p.todo@) =~= Seq::empty());
        assert(texts(p.in_progress@) =~= Seq::empty());
        assert(texts(p.done@) =~= Seq::empty());
        p
    }
}

} // verus!
