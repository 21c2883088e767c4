//! The dashboard: the board together with focus, popup and text buffer, and
//! the state machine that commands drive.

use std::collections::BTreeMap;
use vstd::prelude::*;
use crate::board::{Kanban, KanbanView};
use crate::data::{Column, DailyTask, Focus, KanbanProject, Message, Popup, ProjectView, Tab};
use crate::input::{
    e_key_command, input_command, key_command, keyboard_command, n_key_command, Action, Command,
    Key, KeyPress, Modifier,
};
use crate::laws::law_step_keeps_wf;
use crate::text::texts;

verus! {

/// The dashboard as the contracts see it.
pub struct AppView {
    pub tab: Map<i32, Seq<char>>,
    pub daily_task: DailyTask,
    pub kanban: KanbanView,
    pub tab_focus: Tab,
    pub column_focus: Column,
    pub messages: Message,
    pub popup: Popup,
    pub input: Seq<char>,
    pub can_input: bool,
}

impl AppView {
    /// Arrow keys and the keys that open a popup act only on the kanban tab
    /// and only while no popup is open.
    pub open spec fn navigating(self) -> bool {
        self.popup == Popup::Disabled && self.tab_focus == Tab::Kanban
    }

    /// A popup opened with its text.
    pub open spec fn open(self, popup: Popup, seed: Seq<char>, editable: bool) -> AppView {
        AppView { popup, input: seed, can_input: editable, ..self }
    }

    /// The popup closed and its text discarded.
    pub open spec fn close(self) -> AppView {
        AppView { popup: Popup::Disabled, input: Seq::empty(), can_input: false, ..self }
    }

    /// Focus moved from `from` to the neighbouring column `to`: the first item
    /// of `to` is highlighted and nothing in `from`.
    pub open spec fn focus_to(self, from: Column, to: Column) -> AppView {
        AppView {
            column_focus: to,
            kanban: self.kanban.with_index(to, Some(0nat)).with_index(from, None),
            ..self
        }
    }

    /// Focus one column to the right; it stays on the last column.
    pub open spec fn focus_right(self) -> AppView {
        match self.column_focus {
            Column::Todo => self.focus_to(Column::Todo, Column::InProgress),
            Column::InProgress => self.focus_to(Column::InProgress, Column::Done),
            Column::Done => self,
        }
    }

    /// Focus one column to the left; it stays on the first column.
    pub open spec fn focus_left(self) -> AppView {
        match self.column_focus {
            Column::Todo => self,
            Column::InProgress => self.focus_to(Column::InProgress, Column::Todo),
            Column::Done => self.focus_to(Column::Done, Column::InProgress),
        }
    }

    /// Focus and indices as they stand on entering a project.
    pub open spec fn reset_selection(self) -> AppView {
        AppView { column_focus: Column::Todo, kanban: self.kanban.reset_indexes(), ..self }
    }

    /// The next or the previous project selected, and focus and indices
    /// reset; unchanged on an empty board.
    pub open spec fn switch_project(self, forward: bool) -> AppView {
        if self.kanban.projects.len() > 0 {
            AppView { kanban: self.kanban.step_project(forward), ..self }.reset_selection()
        } else {
            self
        }
    }

    /// The column that takes the highlighted item of the focused column when
    /// it is moved to the right.
    pub open spec fn right_of(c: Column) -> Option<Column> {
        match c {
            Column::Todo => Some(Column::InProgress),
            Column::InProgress => Some(Column::Done),
            Column::Done => None,
        }
    }

    /// The column that takes it when it is moved to the left.
    pub open spec fn left_of(c: Column) -> Option<Column> {
        match c {
            Column::Todo => None,
            Column::InProgress => Some(Column::Todo),
            Column::Done => Some(Column::InProgress),
        }
    }

    /// The highlighted item of the focused column moved to `to`, if there is
    /// such a column.
    pub open spec fn shift(self, to: Option<Column>) -> AppView {
        match to {
            Some(t) => AppView { kanban: self.kanban.move_item(self.column_focus, t), ..self },
            None => self,
        }
    }

    /// Whether such a move takes an item along.
    pub open spec fn shifts(self, to: Option<Column>) -> bool {
        to.is_some() && self.kanban.selected_text(self.column_focus).is_some()
    }

    pub open spec fn with_kanban(self, kanban: KanbanView) -> AppView {
        AppView { kanban, ..self }
    }

    /// The board after the open popup is confirmed with non-empty text, or
    /// after a deletion is confirmed.
    pub open spec fn confirmed_board(self) -> KanbanView {
        match self.popup {
            Popup::AddProject => self.kanban.add_project(ProjectView::empty(self.input)),
            Popup::AddTodo => self.kanban.add_item(Column::Todo, self.input),
            Popup::AddInProgress => self.kanban.add_item(Column::InProgress, self.input),
            Popup::AddDone => self.kanban.add_item(Column::Done, self.input),
            Popup::EditProject => self.kanban.rename_project(self.input),
            Popup::EditTodo => self.kanban.edit_item(Column::Todo, self.input),
            Popup::EditInProgress => self.kanban.edit_item(Column::InProgress, self.input),
            Popup::EditDone => self.kanban.edit_item(Column::Done, self.input),
            Popup::DeleteTodo => self.kanban.delete_item(Column::Todo),
            Popup::DeleteInProgress => self.kanban.delete_item(Column::InProgress),
            Popup::DeleteDone => self.kanban.delete_item(Column::Done),
            Popup::DeleteProject => self.kanban.delete_project(),
            _ => self.kanban,
        }
    }

    /// Whether the popup asks for a text, which must not be empty.
    pub open spec fn takes_text(p: Popup) -> bool {
        match p {
            Popup::AddProject | Popup::AddTodo | Popup::AddInProgress | Popup::AddDone
            | Popup::EditProject | Popup::EditTodo | Popup::EditInProgress | Popup::EditDone
            => true,
            _ => false,
        }
    }

    /// Whether the popup asks to confirm a deletion.
    pub open spec fn asks_deletion(p: Popup) -> bool {
        match p {
            Popup::DeleteTodo | Popup::DeleteInProgress | Popup::DeleteDone
            | Popup::DeleteProject => true,
            _ => false,
        }
    }

    /// Whether confirming the open popup changes the board.
    pub open spec fn confirm_applies(self) -> bool {
        (Self::takes_text(self.popup) && self.input.len() > 0) || Self::asks_deletion(self.popup)
    }

    /// The state after the open popup is confirmed. An empty text cancels;
    /// where no popup of the board is open, nothing happens.
    pub open spec fn confirm(self) -> AppView {
        if self.confirm_applies() {
            self.with_kanban(self.confirmed_board()).close()
        } else if Self::takes_text(self.popup) {
            self.close()
        } else {
            self
        }
    }

    /// A popup on the highlighted item of the focused column, which must
    /// exist.
    pub open spec fn open_on_item(self, popup: Popup, editable: bool) -> AppView {
        match self.kanban.selected_text(self.column_focus) {
            Some(t) => self.open(popup, t, editable),
            None => self,
        }
    }

    /// A popup on the selected project, which must exist.
    pub open spec fn open_on_project(self, popup: Popup, editable: bool) -> AppView {
        match self.kanban.project_name() {
            Some(t) => self.open(popup, t, editable),
            None => self,
        }
    }

    /// One character appended to the text, while a popup takes text.
    pub open spec fn type_char(self, c: char) -> AppView {
        if self.can_input {
            AppView { input: self.input.push(c), ..self }
        } else {
            self
        }
    }

    /// The state after a command issued while nothing is open on the kanban
    /// tab.
    pub open spec fn navigate(self, cmd: Command) -> AppView {
        match cmd {
            Command::MoveUp(m) => if m == Modifier::WithControl {
                self.switch_project(true)
            } else {
                self.with_kanban(self.kanban.select_up(self.column_focus))
            },
            Command::MoveDown(m) => if m == Modifier::WithControl {
                self.switch_project(false)
            } else {
                self.with_kanban(self.kanban.select_down(self.column_focus))
            },
            Command::MoveLeft(m) => match m {
                Modifier::WithControl => self,
                Modifier::WithShift => self.shift(Self::left_of(self.column_focus)),
                Modifier::Plain => self.focus_left(),
            },
            Command::MoveRight(m) => match m {
                Modifier::WithControl => self,
                Modifier::WithShift => self.shift(Self::right_of(self.column_focus)),
                Modifier::Plain => self.focus_right(),
            },
            Command::OpenNew => if self.kanban.has_project() {
                self.open(Popup::adding(self.column_focus), Seq::empty(), true)
            } else {
                self
            },
            Command::OpenEdit => self.open_on_item(Popup::editing(self.column_focus), true),
            Command::OpenDeleteItem => self.open_on_item(
                Popup::deleting(self.column_focus),
                false,
            ),
            Command::OpenDeleteProject => self.open_on_project(Popup::DeleteProject, false),
            Command::OpenNewProject => self.open(Popup::AddProject, Seq::empty(), true),
            Command::OpenEditProject => self.open_on_project(Popup::EditProject, true),
            _ => self,
        }
    }

    /// Whether the command is one of those that act only while nothing is
    /// open on the kanban tab.
    pub open spec fn is_navigation(cmd: Command) -> bool {
        match cmd {
            Command::MoveUp(_) | Command::MoveDown(_) | Command::MoveLeft(_)
            | Command::MoveRight(_) | Command::OpenNew | Command::OpenEdit
            | Command::OpenDeleteItem | Command::OpenDeleteProject | Command::OpenNewProject
            | Command::OpenEditProject => true,
            _ => false,
        }
    }

    /// The state after one command.
    pub open spec fn step(self, cmd: Command) -> AppView {
        match cmd {
            Command::Quit => if self.popup == Popup::Disabled {
                self
            } else {
                self.close()
            },
            Command::Cancel => self.close(),
            Command::Confirm => self.confirm(),
            Command::Backspace => if self.can_input && self.input.len() > 0 {
                AppView { input: self.input.drop_last(), ..self }
            } else {
                self
            },
            Command::NewlineInsert => self.type_char('\n'),
            Command::TextChar(c) => self.type_char(c),
            _ => if self.navigating() {
                self.navigate(cmd)
            } else {
                self
            },
        }
    }

    /// What the caller has to do after a command issued while nothing is open
    /// on the kanban tab: store the projects if an item moved to another
    /// column, otherwise go on.
    pub open spec fn navigate_action(self, cmd: Command) -> Action {
        match cmd {
            Command::MoveLeft(Modifier::WithShift) => if self.shifts(
                Self::left_of(self.column_focus),
            ) {
                Action::Save
            } else {
                Action::Continue
            },
            Command::MoveRight(Modifier::WithShift) => if self.shifts(
                Self::right_of(self.column_focus),
            ) {
                Action::Save
            } else {
                Action::Continue
            },
            _ => Action::Continue,
        }
    }

    /// What the caller has to do after that command: leave on `Quit` while no
    /// popup is open; store the projects after a confirmed change and after
    /// an item moved to another column; otherwise go on.
    pub open spec fn action(self, cmd: Command) -> Action {
        match cmd {
            Command::Quit => if self.popup == Popup::Disabled {
                Action::Quit
            } else {
                Action::Continue
            },
            Command::Confirm => if self.confirm_applies() {
                Action::Save
            } else {
                Action::Continue
            },
            _ => if self.navigating() {
                self.navigate_action(cmd)
            } else {
                Action::Continue
            },
        }
    }

    /// The state after a sequence of commands, carried out in order.
    pub open spec fn run(self, cmds: Seq<Command>) -> AppView
        decreases cmds.len(),
    {
        if cmds.len() == 0 {
            self
        } else {
            self.run(cmds.drop_last()).step(cmds.last())
        }
    }

    /// The state after one key press: that of the command that the key stands
    /// for, or the same state where it stands for none.
    pub open spec fn press(self, key: KeyPress) -> AppView {
        self.step_opt(key_command(self.can_input, key))
    }

    /// The state after a sequence of key presses, handled in order.
    pub open spec fn run_keys(self, keys: Seq<KeyPress>) -> AppView
        decreases keys.len(),
    {
        if keys.len() == 0 {
            self
        } else {
            self.run_keys(keys.drop_last()).press(keys.last())
        }
    }

    /// The state holds together: the selected project exists unless the board
    /// is empty; the text can be edited exactly while a popup asks for a
    /// text; no text is kept while no popup is open; and an item is
    /// highlighted in the focused column and in no other.
    pub open spec fn wf(self) -> bool {
        &&& self.kanban.wf()
        &&& self.can_input == Self::takes_text(self.popup)
        &&& (self.popup == Popup::Disabled ==> self.input.len() == 0)
        &&& forall|c: Column| (#[trigger] self.kanban.index(c)).is_some() == (c == self.column_focus)
    }

    /// The state after a command, or the same state where there is none.
    pub open spec fn step_opt(self, cmd: Option<Command>) -> AppView {
        match cmd {
            Some(c) => self.step(c),
            None => self,
        }
    }

    /// What to do after a command, or `Continue` where there is none.
    pub open spec fn action_opt(self, cmd: Option<Command>) -> Action {
        match cmd {
            Some(c) => self.action(c),
            None => Action::Continue,
        }
    }
}

/// The whole state of the dashboard.
#[derive(Clone, Debug, PartialEq, Eq)]
pub struct App {
    pub tab: BTreeMap<i32, String>,
    pub daily_task: DailyTask,
    pub kanban: Kanban,
    pub focus: Focus,
    pub messages: Message,
    pub popup: Popup,
    pub input: String,
    pub can_input: bool,
}

impl View for App {
    type V = AppView;

    open spec fn view(&self) -> AppView {
        AppView {
            tab: self.tab@.map_values(|t: String| t@),
            daily_task: self.daily_task,
            kanban: self.kanban@,
            tab_focus: self.focus.tab_focus,
            column_focus: self.focus.column_focus,
            messages: self.messages,
            popup: self.popup,
            input: self.input@,
            can_input: self.can_input,
        }
    }
}

impl App {
    pub fn default() -> (a: App)
        ensures
            a@.tab == Map::<i32, Seq<char>>::empty().insert(3i32, " Kanban "@),
            a.daily_task.tasks@.len() == 0,
            a.daily_task.selected_task_index == 0,
            a.daily_task.selected_step_index.is_none(),
            a@.kanban == KanbanView::initial(),
            a@.tab_focus == Tab::Kanban,
            a@.column_focus == Column::Todo,
            a.messages.quit@ == "ESC to exit"@,
            a.messages.tab_change@ == "Ctrl + arrows ot change tabs"@,
            a@.popup == Popup::Disabled,
            a@.input == Seq::<char>::empty(),
            !a@.can_input,
            a@.wf(),
    {
        broadcast use vstd::std_specs::btree::group_btree_axioms;
        broadcast use vstd::laws_cmp::group_laws_cmp;

        let mut tab: BTreeMap<i32, String> = BTreeMap::new();
        tab.insert(3, " Kanban ".to_owned());
        let a = App {
            tab,
            daily_task: DailyTask::default(),
            kanban: Kanban::default(),
            focus: Focus::default(),
            messages: Message::default(),
            popup: Popup::Disabled,
            input: String::new(),
            can_input: false,
        };
        assert(a@.tab =~= Map::<i32, Seq<char>>::empty().insert(3i32, " Kanban "@));
        a
    }

    /// Appends the stored projects to the board, in their order. A store
    /// that could not be read (`None`) counts as one without projects.
    pub fn load_projects(&mut self, stored: Option<Vec<KanbanProject>>)
        ensures
            final(self)@ == old(self)@.with_kanban(
                KanbanView {
                    projects: old(self)@.kanban.projects + match stored {
                        Some(projects) => crate::board::project_views(projects@),
                        None => Seq::empty(),
                    },
                    ..old(self)@.kanban
                },
            ),
            old(self)@.wf() ==> final(self)@.wf(),
    {
        match stored {
            Some(projects) => {
                self.kanban.load(projects);
            },
            None => {
                assert(self@.kanban.projects =~= old(self)@.kanban.projects + Seq::empty());
            },
        }
        assert forall|c: Column| (#[trigger] self@.kanban.index(c)) == old(self)@.kanban.index(
            c,
        ) by {}
    }

    /// Opens a popup with an empty text that can be edited.
    pub fn open_popup(&mut self, popup: Popup)
        ensures
            final(self)@ == old(self)@.open(popup, Seq::empty(), true),
    {
        self.input = String::new();
        self.popup = popup;
        self.can_input = true;
    }

    /// Closes the popup and discards its text.
    pub fn close_popup(&mut self)
        ensures
            final(self)@ == old(self)@.close(),
    {
        self.input = String::new();
        self.popup = Popup::Disabled;
        self.can_input = false;
    }

    /// Opens a popup on a text that can be edited.
    pub fn open_edit_popup(&mut self, popup: Popup, to_edit: String)
        ensures
            final(self)@ == old(self)@.open(popup, to_edit@, true),
    {
        self.input = to_edit;
        self.popup = popup;
        self.can_input = true;
    }

    /// Opens a popup that shows what is about to be deleted; the text cannot
    /// be edited.
    pub fn open_delete_popup(&mut self, popup: Popup, to_del: String)
        ensures
            final(self)@ == old(self)@.open(popup, to_del@, false),
    {
        self.input = to_del;
        self.popup = popup;
        self.can_input = false;
    }

    /// Resets focus and indices as on entering a project.
    pub fn adjust_kanban_indexes_upon_project_change(&mut self)
        ensures
            final(self)@ == old(self)@.reset_selection(),
    {
        self.focus.column_focus = Column::Todo;
        self.kanban.reset_indexes();
    }

    /// Moves focus one column to the right.
    pub fn focus_right(&mut self)
        ensures
            final(self)@ == old(self)@.focus_right(),
    {
        match self.focus.column_focus {
            Column::Todo => {
                self.kanban.set_index(Column::InProgress, Some(0));
                self.kanban.set_index(Column::Todo, None);
                self.focus.column_focus = Column::InProgress;
            },
            Column::InProgress => {
                self.kanban.set_index(Column::Done, Some(0));
                self.kanban.set_index(Column::InProgress, None);
                self.focus.column_focus = Column::Done;
            },
            Column::Done => {},
        }
    }

    /// Moves focus one column to the left.
    pub fn focus_left(&mut self)
        ensures
            final(self)@ == old(self)@.focus_left(),
    {
        match self.focus.column_focus {
            Column::Todo => {},
            Column::InProgress => {
                self.kanban.set_index(Column::Todo, Some(0));
                self.kanban.set_index(Column::InProgress, None);
                self.focus.column_focus = Column::Todo;
            },
            Column::Done => {
                self.kanban.set_index(Column::InProgress, Some(0));
                self.kanban.set_index(Column::Done, None);
                self.focus.column_focus = Column::InProgress;
            },
        }
    }

    /// Selects the next or the previous project and resets focus and indices.
    pub fn switch_project(&mut self, forward: bool)
        ensures
            final(self)@ == old(self)@.switch_project(forward),
    {
        if self.kanban.step_project(forward) {
            self.adjust_kanban_indexes_upon_project_change();
        }
    }

    /// Moves the highlighted item of the focused column to the column on its
    /// right, or on its left. Returns whether an item moved.
    pub fn shift_item(&mut self, to_right: bool) -> (moved: bool)
        ensures
            final(self)@ == old(self)@.shift(
                if to_right {
                    AppView::right_of(old(self)@.column_focus)
                } else {
                    AppView::left_of(old(self)@.column_focus)
                },
            ),
            moved == old(self)@.shifts(
                if to_right {
                    AppView::right_of(old(self)@.column_focus)
                } else {
                    AppView::left_of(old(self)@.column_focus)
                },
            ),
    {
        let from = self.focus.column_focus;
        let to = if to_right {
            match from {
                Column::Todo => Some(Column::InProgress),
                Column::InProgress => Some(Column::Done),
                Column::Done => None,
            }
        } else {
            match from {
                Column::Todo => None,
                Column::InProgress => Some(Column::Todo),
                Column::Done => Some(Column::InProgress),
            }
        };
        match to {
            Some(t) => self.kanban.move_item(from, t),
            None => false,
        }
    }

    /// Confirms the open popup.
    pub fn confirm(&mut self) -> (a: Action)
        ensures
            final(self)@ == old(self)@.confirm(),
            a == if old(self)@.confirm_applies() {
                Action::Save
            } else {
                Action::Continue
            },
    {
        let filled: bool = !self.input.as_str().is_empty();
        match self.popup {
            Popup::AddProject => {
                if filled {
                    let name = self.input.clone();
                    self.kanban.add_project(KanbanProject::new(name));
                }
            },
            Popup::AddTodo => {
                if filled {
                    self.kanban.add_item(Column::Todo, self.input.as_str());
                }
            },
            Popup::AddInProgress => {
                if filled {
                    self.kanban.add_item(Column::InProgress, self.input.as_str());
                }
            },
            Popup::AddDone => {
                if filled {
                    self.kanban.add_item(Column::Done, self.input.as_str());
                }
            },
            Popup::EditProject => {
                if filled {
                    let name = self.input.clone();
                    self.kanban.rename_project(name);
                }
            },
            Popup::EditTodo => {
                if filled {
                    let text = self.input.clone();
                    self.kanban.edit_item(Column::Todo, text);
                }
            },
            Popup::EditInProgress => {
                if filled {
                    let text = self.input.clone();
                    self.kanban.edit_item(Column::InProgress, text);
                }
            },
            Popup::EditDone => {
                if filled {
                    let text = self.input.clone();
                    self.kanban.edit_item(Column::Done, text);
                }
            },
            Popup::DeleteTodo => {
                self.kanban.delete_todo();
            },
            Popup::DeleteInProgress => {
                self.kanban.delete_in_progress();
            },
            Popup::DeleteDone => {
                self.kanban.delete_done();
            },
            Popup::DeleteProject => {
                self.kanban.delete_project();
            },
            _ => {
                return Action::Continue;
            },
        }
        let applies: bool = filled || match self.popup {
            Popup::DeleteTodo | Popup::DeleteInProgress | Popup::DeleteDone
            | Popup::DeleteProject => true,
            _ => false,
        };
        self.close_popup();
        if applies {
            Action::Save
        } else {
            Action::Continue
        }
    }

    /// Appends a character to the text while a popup takes text.
    pub fn type_char(&mut self, c: char)
        ensures
            final(self)@ == old(self)@.type_char(c),
    {
        if self.can_input {
            self.input.push(c);
        }
    }

    /// Carries out a command that acts while nothing is open on the kanban
    /// tab.
    pub fn navigate(&mut self, cmd: Command) -> (a: Action)
        ensures
            final(self)@ == old(self)@.navigate(cmd),
            a == old(self)@.navigate_action(cmd),
    {
        let focus = self.focus.column_focus;
        match cmd {
            Command::MoveUp(m) => {
                if m == Modifier::WithControl {
                    self.switch_project(true);
                } else {
                    self.kanban.select_up(focus);
                }
                Action::Continue
            },
            Command::MoveDown(m) => {
                if m == Modifier::WithControl {
                    self.switch_project(false);
                } else {
                    self.kanban.select_down(focus);
                }
                Action::Continue
            },
            Command::MoveLeft(m) => match m {
                Modifier::WithControl => Action::Continue,
                Modifier::WithShift => if self.shift_item(false) {
                    Action::Save
                } else {
                    Action::Continue
                },
                Modifier::Plain => {
                    self.focus_left();
                    Action::Continue
                },
            },
            Command::MoveRight(m) => match m {
                Modifier::WithControl => Action::Continue,
                Modifier::WithShift => if self.shift_item(true) {
                    Action::Save
                } else {
                    Action::Continue
                },
                Modifier::Plain => {
                    self.focus_right();
                    Action::Continue
                },
            },
            Command::OpenNew => {
                if self.kanban.project_index < self.kanban.projects.len() {
                    self.open_popup(Popup::add_for(focus));
                }
                Action::Continue
            },
            Command::OpenEdit => {
                match self.kanban.selected_text(focus) {
                    Some(t) => self.open_edit_popup(Popup::edit_for(focus), t),
                    None => {},
                }
                Action::Continue
            },
            Command::OpenDeleteItem => {
                match self.kanban.selected_text(focus) {
                    Some(t) => self.open_delete_popup(Popup::delete_for(focus), t),
                    None => {},
                }
                Action::Continue
            },
            Command::OpenDeleteProject => {
                match self.kanban.project_name() {
                    Some(t) => self.open_delete_popup(Popup::DeleteProject, t),
                    None => {},
                }
                Action::Continue
            },
            Command::OpenNewProject => {
                self.open_popup(Popup::AddProject);
                Action::Continue
            },
            Command::OpenEditProject => {
                match self.kanban.project_name() {
                    Some(t) => self.open_edit_popup(Popup::EditProject, t),
                    None => {},
                }
                Action::Continue
            },
            _ => Action::Continue,
        }
    }

    /// Carries out one command and says what the caller has to do next.
    pub fn apply(&mut self, cmd: Command) -> (a: Action)
        ensures
            final(self)@ == old(self)@.step(cmd),
            a == old(self)@.action(cmd),
            old(self)@.wf() ==> final(self)@.wf(),
    {
        proof {
            if old(self)@.wf() {
                law_step_keeps_wf(old(self)@, cmd);
            }
        }
        match cmd {
            Command::Quit => {
                if self.popup == Popup::Disabled {
                    Action::Quit
                } else {
                    self.close_popup();
                    Action::Continue
                }
            },
            Command::Cancel => {
                self.close_popup();
                Action::Continue
            },
            Command::Confirm => self.confirm(),
            Command::Backspace => {
                if self.can_input && !self.input.as_str().is_empty() {
                    self.input.pop();
                }
                Action::Continue
            },
            Command::NewlineInsert => {
                self.type_char('\n');
                Action::Continue
            },
            Command::TextChar(c) => {
                self.type_char(c);
                Action::Continue
            },
            _ => {
                if self.popup == Popup::Disabled && self.focus.tab_focus == Tab::Kanban {
                    self.navigate(cmd)
                } else {
                    Action::Continue
                }
            },
        }
    }

    /// Handles the letter `n`, by the modifier held with it.
    pub fn handle_n_key(&mut self, key: KeyPress) -> (a: Action)
        ensures
            final(self)@ == old(self)@.step(n_key_command(old(self)@.can_input, key.modifiers)),
            a == old(self)@.action(n_key_command(old(self)@.can_input, key.modifiers)),
    {
        if key.modifiers == Modifier::WithControl {
            self.apply(Command::OpenNewProject)
        } else if self.can_input {
            self.apply(Command::TextChar('n'))
        } else {
            self.apply(Command::OpenNew)
        }
    }

    /// Handles the letter `e`, by the modifier held with it.
    pub fn handle_e_key(&mut self, key: KeyPress) -> (a: Action)
        ensures
            final(self)@ == old(self)@.step(e_key_command(old(self)@.can_input, key.modifiers)),
            a == old(self)@.action(e_key_command(old(self)@.can_input, key.modifiers)),
    {
        if key.modifiers == Modifier::WithControl {
            self.apply(Command::OpenEditProject)
        } else if self.can_input {
            self.apply(Command::TextChar('e'))
        } else {
            self.apply(Command::OpenEdit)
        }
    }

    /// Handles a character key; any other key is ignored.
    pub fn handle_input(&mut self, key: KeyPress) -> (a: Action)
        ensures
            final(self)@ == old(self)@.step_opt(input_command(old(self)@.can_input, key)),
            a == old(self)@.action_opt(input_command(old(self)@.can_input, key)),
    {
        match key.code {
            Key::Char(c) => {
                if c == 'n' {
                    self.handle_n_key(key)
                } else if c == 'e' {
                    self.handle_e_key(key)
                } else {
                    self.apply(Command::TextChar(c))
                }
            },
            _ => Action::Continue,
        }
    }

    /// Handles an arrow key, and hands any other key on as a character key.
    pub fn handle_keyboard(&mut self, key: KeyPress) -> (a: Action)
        ensures
            final(self)@ == old(self)@.step_opt(keyboard_command(old(self)@.can_input, key)),
            a == old(self)@.action_opt(keyboard_command(old(self)@.can_input, key)),
    {
        match key.code {
            Key::Left => self.apply(Command::MoveLeft(key.modifiers)),
            Key::Right => self.apply(Command::MoveRight(key.modifiers)),
            Key::Up => self.apply(Command::MoveUp(key.modifiers)),
            Key::Down => self.apply(Command::MoveDown(key.modifiers)),
            _ => self.handle_input(key),
        }
    }

    /// Handles one key press: the state changes as by the command that the
    /// key stands for, and the result says what the caller has to do next.
    pub fn handle_key(&mut self, key: KeyPress) -> (a: Action)
        ensures
            final(self)@ == old(self)@.step_opt(key_command(old(self)@.can_input, key)),
            a == old(self)@.action_opt(key_command(old(self)@.can_input, key)),
            old(self)@.wf() ==> final(self)@.wf(),
    {
        let with_control: bool = key.modifiers == Modifier::WithControl;
        match key.code {
            Key::Esc => self.apply(Command::Quit),
            Key::Backspace => self.apply(Command::Backspace),
            Key::Delete => if with_control {
                self.apply(Command::OpenDeleteProject)
            } else {
                self.apply(Command::OpenDeleteItem)
            },
            Key::Enter => if with_control {
                self.apply(Command::NewlineInsert)
            } else {
                self.apply(Command::Confirm)
            },
            _ => self.handle_keyboard(key),
        }
    }
}

} // verus!
