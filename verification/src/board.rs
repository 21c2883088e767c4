//! The board: the projects, the selected project and the selection of each
//! column, with the rules for moving the selection, adding, editing, moving
//! and deleting items.

use vstd::prelude::*;
use crate::data::{Column, KanbanProject, ProjectView};
use crate::text::texts;

verus! {

/// A selection index as a natural number; `None` is the column in which
/// nothing is highlighted.
pub open spec fn opt_nat(i: Option<usize>) -> Option<nat> {
    match i {
        Some(v) => Some(v as nat),
        None => None,
    }
}

/// The projects of a list, each by its view.
pub open spec fn project_views(v: Seq<KanbanProject>) -> Seq<ProjectView> {
    Seq::new(v.len(), |i: int| v[i]@)
}

/// Where the selection of a column stands after the item at `i` left a column
/// that held `len` items: on the new last item if the last one left, at 0 if
/// nothing is left, and otherwise where it was.
pub open spec fn index_after_delete(len: nat, i: nat) -> nat {
    if len <= 1 {
        0
    } else if i + 1 == len {
        (len - 2) as nat
    } else {
        i
    }
}

/// The board as the contracts see it.
pub struct KanbanView {
    pub projects: Seq<ProjectView>,
    pub project_index: nat,
    pub todo_index: Option<nat>,
    pub in_progress_index: Option<nat>,
    pub done_index: Option<nat>,
}

impl KanbanView {
    /// The empty board: no project, the first to-do item highlighted and
    /// nothing in the other two columns.
    pub open spec fn initial() -> KanbanView {
        KanbanView {
            projects: Seq::empty(),
            project_index: 0,
            todo_index: Some(0nat),
            in_progress_index: None,
            done_index: None,
        }
    }

    /// The selected project exists, or the board is empty and the index is 0.
    pub open spec fn wf(self) -> bool {
        if self.projects.len() == 0 {
            self.project_index == 0
        } else {
            self.project_index < self.projects.len()
        }
    }

    pub open spec fn has_project(self) -> bool {
        self.project_index < self.projects.len()
    }

    /// The selection index of a column.
    pub open spec fn index(self, c: Column) -> Option<nat> {
        match c {
            Column::Todo => self.todo_index,
            Column::InProgress => self.in_progress_index,
            Column::Done => self.done_index,
        }
    }

    pub open spec fn with_index(self, c: Column, i: Option<nat>) -> KanbanView {
        match c {
            Column::Todo => KanbanView { todo_index: i, ..self },
            Column::InProgress => KanbanView { in_progress_index: i, ..self },
            Column::Done => KanbanView { done_index: i, ..self },
        }
    }

    /// The items of a column of the selected project; none without a project.
    pub open spec fn items(self, c: Column) -> Seq<Seq<char>> {
        if self.has_project() {
            self.projects[self.project_index as int].column(c)
        } else {
            Seq::empty()
        }
    }

    /// The board with one column of project `p` replaced; unchanged where
    /// there is no such project.
    pub open spec fn with_items_at(self, p: nat, c: Column, items: Seq<Seq<char>>) -> KanbanView {
        if p < self.projects.len() {
            KanbanView {
                projects: self.projects.update(p as int, self.projects[p as int].with_column(c, items)),
                ..self
            }
        } else {
            self
        }
    }

    pub open spec fn with_items(self, c: Column, items: Seq<Seq<char>>) -> KanbanView {
        self.with_items_at(self.project_index, c, items)
    }

    /// The position of the highlighted item of a column, where the column's
    /// index points at an item.
    pub open spec fn selection(self, c: Column) -> Option<nat> {
        match self.index(c) {
            Some(i) => if i < self.items(c).len() { Some(i) } else { None },
            None => None,
        }
    }

    /// The text of the highlighted item of a column.
    pub open spec fn selected_text(self, c: Column) -> Option<Seq<char>> {
        match self.selection(c) {
            Some(i) => Some(self.items(c)[i as int]),
            None => None,
        }
    }

    /// The name of the selected project.
    pub open spec fn project_name(self) -> Option<Seq<char>> {
        if self.has_project() {
            Some(self.projects[self.project_index as int].name)
        } else {
            None
        }
    }

    pub open spec fn add_project(self, p: ProjectView) -> KanbanView {
        KanbanView { projects: self.projects.push(p), ..self }
    }

    /// `text` appended to column `c` of project `p`.
    pub open spec fn add_item_at(self, p: nat, c: Column, text: Seq<char>) -> KanbanView {
        if p < self.projects.len() {
            self.with_items_at(p, c, self.projects[p as int].column(c).push(text))
        } else {
            self
        }
    }

    pub open spec fn add_item(self, c: Column, text: Seq<char>) -> KanbanView {
        self.add_item_at(self.project_index, c, text)
    }

    /// The highlighted item of `c` overwritten with `text`.
    pub open spec fn edit_item(self, c: Column, text: Seq<char>) -> KanbanView {
        match self.selection(c) {
            Some(i) => self.with_items(c, self.items(c).update(i as int, text)),
            None => self,
        }
    }

    /// The highlighted item of `c` removed and the column's index repaired.
    pub open spec fn delete_item(self, c: Column) -> KanbanView {
        match self.selection(c) {
            Some(i) => self.with_items(c, self.items(c).remove(i as int)).with_index(
                c,
                Some(index_after_delete(self.items(c).len(), i)),
            ),
            None => self,
        }
    }

    /// The highlighted item of `from` appended to `to` and deleted from `from`.
    pub open spec fn move_item(self, from: Column, to: Column) -> KanbanView {
        match self.selected_text(from) {
            Some(t) => self.add_item(to, t).delete_item(from),
            None => self,
        }
    }

    /// The selection of `c` one item up, kept inside the column.
    pub open spec fn select_up(self, c: Column) -> KanbanView {
        let len = self.items(c).len();
        if len == 0 {
            self
        } else {
            match self.index(c) {
                Some(i) => if i == 0 {
                    self.with_index(c, Some(0))
                } else if i - 1 < len {
                    self.with_index(c, Some((i - 1) as nat))
                } else {
                    self.with_index(c, Some((len - 1) as nat))
                },
                None => self.with_index(c, Some((len - 1) as nat)),
            }
        }
    }

    /// The selection of `c` one item down, kept inside the column.
    pub open spec fn select_down(self, c: Column) -> KanbanView {
        let len = self.items(c).len();
        if len == 0 {
            self
        } else {
            match self.index(c) {
                Some(i) => if i + 1 < len {
                    self.with_index(c, Some(i + 1))
                } else {
                    self.with_index(c, Some((len - 1) as nat))
                },
                None => self.with_index(c, Some((len - 1) as nat)),
            }
        }
    }

    /// The selected project one further (`forward`) or one back, kept inside
    /// the list; unchanged on an empty board.
    pub open spec fn step_project(self, forward: bool) -> KanbanView {
        let len = self.projects.len();
        if len == 0 {
            self
        } else if forward {
            if self.project_index + 1 < len {
                KanbanView { project_index: self.project_index + 1, ..self }
            } else {
                KanbanView { project_index: (len - 1) as nat, ..self }
            }
        } else {
            if self.project_index == 0 {
                self
            } else if self.project_index - 1 < len {
                KanbanView { project_index: (self.project_index - 1) as nat, ..self }
            } else {
                KanbanView { project_index: (len - 1) as nat, ..self }
            }
        }
    }

    /// The indices as they stand on entering a project: the first to-do item
    /// highlighted, nothing in the other two columns.
    pub open spec fn reset_indexes(self) -> KanbanView {
        KanbanView {
            todo_index: Some(0nat),
            in_progress_index: None,
            done_index: None,
            ..self
        }
    }

    pub open spec fn rename_project(self, name: Seq<char>) -> KanbanView {
        if self.has_project() {
            KanbanView {
                projects: self.projects.update(
                    self.project_index as int,
                    ProjectView { name, ..self.projects[self.project_index as int] },
                ),
                ..self
            }
        } else {
            self
        }
    }

    /// The selected project removed. If it was the last of the list, the
    /// project before it is selected (0 on an empty board); otherwise the
    /// index stays and names the project that followed.
    pub open spec fn delete_project(self) -> KanbanView {
        if self.has_project() {
            let rest = self.projects.remove(self.project_index as int);
            KanbanView {
                projects: rest,
                project_index: if self.project_index + 1 == self.projects.len() {
                    if rest.len() == 0 {
                        0
                    } else {
                        (rest.len() - 1) as nat
                    }
                } else {
                    self.project_index
                },
                ..self
            }
        } else {
            self
        }
    }
}

/// The projects in display order, the selected project, and the selection of
/// each column. A column index of `None` highlights nothing.
#[derive(Clone, Debug, PartialEq, Eq)]
pub struct Kanban {
    pub projects: Vec<KanbanProject>,
    pub project_index: usize,
    pub todo_index: Option<usize>,
    pub in_progress_index: Option<usize>,
    pub done_index: Option<usize>,
}

impl View for Kanban {
    type V = KanbanView;

    open spec fn view(&self) -> KanbanView {
        KanbanView {
            projects: project_views(self.projects@),
            project_index: self.project_index as nat,
            todo_index: opt_nat(self.todo_index),
            in_progress_index: opt_nat(self.in_progress_index),
            done_index: opt_nat(self.done_index),
        }
    }
}

/// Removes the item at `index` from `list`, if there is one, and returns the
/// repaired index.
pub fn delete_with_reindex(list: &mut Vec<String>, index: Option<usize>) -> (r: Option<usize>)
    ensures
        match opt_nat(index) {
            Some(i) => if i < old(list)@.len() {
                &&& texts(final(list)@) == texts(old(list)@).remove(i as int)
                &&& opt_nat(r) == Some(index_after_delete(old(list)@.len(), i))
            } else {
                final(list)@ == old(list)@ && r == index
            },
            None => final(list)@ == old(list)@ && r == index,
        },
{
    match index {
        Some(i) => {
            let len: usize = list.len();
            if i < len {
                list.remove(i);
                assert(texts(list@) =~= texts(old(list)@).remove(i as int));
                if len == 1 {
                    Some(0)
                } else if i == len - 1 {
                    Some(len - 2)
                } else {
                    Some(i)
                }
            } else {
                index
            }
        },
        None => index,
    }
}

impl Kanban {
    pub fn default() -> (k: Kanban)
        ensures
            k@ == KanbanView::initial(),
    {
        let k = Kanban {
            projects: Vec::new(),
            project_index: 0,
            todo_index: Some(0),
            in_progress_index: None,
            done_index: None,
        };
        assert(k@.projects =~= Seq::empty());
        k
    }

    pub fn add_project(&mut self, project: KanbanProject)
        ensures
            final(self)@ == old(self)@.add_project(project@),
    {
        self.projects.push(project);
        assert(self@.projects =~= old(self)@.projects.push(project@));
    }

    pub fn add_todo(&mut self, index: usize, todo_name: &str)
        ensures
            final(self)@ == old(self)@.add_item_at(index as nat, Column::Todo, todo_name@),
    {
        if index < self.projects.len() {
            self.projects[index].todo.push(todo_name.to_owned());
            assert(texts(self.projects@[index as int].todo@) =~= texts(
                old(self).projects@[index as int].todo@,
            ).push(todo_name@));
            assert(self@.projects =~= old(self)@.add_item_at(
                index as nat,
                Column::Todo,
                todo_name@,
            ).projects);
        }
    }

    pub fn add_in_progress(&mut self, index: usize, in_progress_name: &str)
        ensures
            final(self)@ == old(self)@.add_item_at(
                index as nat,
                Column::InProgress,
                in_progress_name@,
            ),
    {
        if index < self.projects.len() {
            self.projects[index].in_progress.push(in_progress_name.to_owned());
            assert(texts(self.projects@[index as int].in_progress@) =~= texts(
                old(self).projects@[index as int].in_progress@,
            ).push(in_progress_name@));
            assert(self@.projects =~= old(self)@.add_item_at(
                index as nat,
                Column::InProgress,
                in_progress_name@,
            ).projects);
        }
    }

    pub fn add_done(&mut self, index: usize, done_name: &str)
        ensures
            final(self)@ == old(self)@.add_item_at(index as nat, Column::Done, done_name@),
    {
        if index < self.projects.len() {
            self.projects[index].done.push(done_name.to_owned());
            assert(texts(self.projects@[index as int].done@) =~= texts(
                old(self).projects@[index as int].done@,
            ).push(done_name@));
            assert(self@.projects =~= old(self)@.add_item_at(
                index as nat,
                Column::Done,
                done_name@,
            ).projects);
        }
    }

    /// Deletes the highlighted to-do item and repairs the column's index.
    pub fn delete_todo(&mut self)
        ensures
            final(self)@ == old(self)@.delete_item(Column::Todo),
    {
        let p: usize = self.project_index;
        if p < self.projects.len() {
            let r = delete_with_reindex(&mut self.projects[p].todo, self.todo_index);
            self.todo_index = r;
            assert(self@.projects =~= old(self)@.delete_item(Column::Todo).projects);
        }
    }

    /// Deletes the highlighted item in progress and repairs the column's index.
    pub fn delete_in_progress(&mut self)
        ensures
            final(self)@ == old(self)@.delete_item(Column::InProgress),
    {
        let p: usize = self.project_index;
        if p < self.projects.len() {
            let r = delete_with_reindex(&mut self.projects[p].in_progress, self.in_progress_index);
            self.in_progress_index = r;
            assert(self@.projects =~= old(self)@.delete_item(Column::InProgress).projects);
        }
    }

    /// Deletes the highlighted done item and repairs the column's index.
    pub fn delete_done(&mut self)
        ensures
            final(self)@ == old(self)@.delete_item(Column::Done),
    {
        let p: usize = self.project_index;
        if p < self.projects.len() {
            let r = delete_with_reindex(&mut self.projects[p].done, self.done_index);
            self.done_index = r;
            assert(self@.projects =~= old(self)@.delete_item(Column::Done).projects);
        }
    }

    /// The selection index of a column.
    pub fn index(&self, c: Column) -> (r: Option<usize>)
        ensures
            opt_nat(r) == self@.index(c),
    {
        match c {
            Column::Todo => self.todo_index,
            Column::InProgress => self.in_progress_index,
            Column::Done => self.done_index,
        }
    }

    /// Sets the selection index of a column.
    pub fn set_index(&mut self, c: Column, i: Option<usize>)
        ensures
            final(self)@ == old(self)@.with_index(c, opt_nat(i)),
    {
        match c {
            Column::Todo => {
                self.todo_index = i;
            },
            Column::InProgress => {
                self.in_progress_index = i;
            },
            Column::Done => {
                self.done_index = i;
            },
        }
    }

    /// How many items a column of the selected project holds; 0 without a
    /// project.
    pub fn column_len(&self, c: Column) -> (n: usize)
        ensures
            n == self@.items(c).len(),
    {
        let p: usize = self.project_index;
        if p < self.projects.len() {
            match c {
                Column::Todo => self.projects[p].todo.len(),
                Column::InProgress => self.projects[p].in_progress.len(),
                Column::Done => self.projects[p].done.len(),
            }
        } else {
            0
        }
    }

    /// The text of the highlighted item of a column, if the column's index
    /// points at an item.
    pub fn selected_text(&self, c: Column) -> (r: Option<String>)
        ensures
            match r {
                Some(t) => self@.selected_text(c) == Some(t@),
                None => self@.selected_text(c).is_none(),
            },
    {
        let p: usize = self.project_index;
        if p < self.projects.len() {
            match self.index(c) {
                Some(i) => {
                    match c {
                        Column::Todo => if i < self.projects[p].todo.len() {
                            Some(self.projects[p].todo[i].clone())
                        } else {
                            None
                        },
                        Column::InProgress => if i < self.projects[p].in_progress.len() {
                            Some(self.projects[p].in_progress[i].clone())
                        } else {
                            None
                        },
                        Column::Done => if i < self.projects[p].done.len() {
                            Some(self.projects[p].done[i].clone())
                        } else {
                            None
                        },
                    }
                },
                None => None,
            }
        } else {
            None
        }
    }

    /// The name of the selected project, if there is one.
    pub fn project_name(&self) -> (r: Option<String>)
        ensures
            match r {
                Some(t) => self@.project_name() == Some(t@),
                None => self@.project_name().is_none(),
            },
    {
        let p: usize = self.project_index;
        if p < self.projects.len() {
            Some(self.projects[p].name.clone())
        } else {
            None
        }
    }

    /// Appends `text` to a column of the selected project.
    pub fn add_item(&mut self, c: Column, text: &str)
        ensures
            final(self)@ == old(self)@.add_item(c, text@),
    {
        let p: usize = self.project_index;
        match c {
            Column::Todo => self.add_todo(p, text),
            Column::InProgress => self.add_in_progress(p, text),
            Column::Done => self.add_done(p, text),
        }
    }

    /// Overwrites the highlighted item of a column with `text`.
    pub fn edit_item(&mut self, c: Column, text: String)
        ensures
            final(self)@ == old(self)@.edit_item(c, text@),
    {
        let p: usize = self.project_index;
        if p < self.projects.len() {
            match self.index(c) {
                Some(i) => {
                    match c {
                        Column::Todo => if i < self.projects[p].todo.len() {
                            self.projects[p].todo[i] = text;
                            assert(texts(self.projects@[p as int].todo@) =~= texts(
                                old(self).projects@[p as int].todo@,
                            ).update(i as int, text@));
                        },
                        Column::InProgress => if i < self.projects[p].in_progress.len() {
                            self.projects[p].in_progress[i] = text;
                            assert(texts(self.projects@[p as int].in_progress@) =~= texts(
                                old(self).projects@[p as int].in_progress@,
                            ).update(i as int, text@));
                        },
                        Column::Done => if i < self.projects[p].done.len() {
                            self.projects[p].done[i] = text;
                            assert(texts(self.projects@[p as int].done@) =~= texts(
                                old(self).projects@[p as int].done@,
                            ).update(i as int, text@));
                        },
                    }
                    assert(self@.projects =~= old(self)@.edit_item(c, text@).projects);
                },
                None => {},
            }
        }
    }

    /// Deletes the highlighted item of a column and repairs the column's index.
    pub fn delete_item(&mut self, c: Column)
        ensures
            final(self)@ == old(self)@.delete_item(c),
    {
        match c {
            Column::Todo => self.delete_todo(),
            Column::InProgress => self.delete_in_progress(),
            Column::Done => self.delete_done(),
        }
    }

    /// Moves the highlighted item of `from` to the end of `to`, and repairs the
    /// index of `from` as a deletion does. Returns whether an item moved.
    pub fn move_item(&mut self, from: Column, to: Column) -> (moved: bool)
        ensures
            final(self)@ == old(self)@.move_item(from, to),
            moved == old(self)@.selected_text(from).is_some(),
    {
        match self.selected_text(from) {
            Some(t) => {
                self.add_item(to, t.as_str());
                self.delete_item(from);
                true
            },
            None => false,
        }
    }

    /// Moves the selection of a column one item up, kept inside the column.
    pub fn select_up(&mut self, c: Column)
        ensures
            final(self)@ == old(self)@.select_up(c),
    {
        let len: usize = self.column_len(c);
        if len > 0 {
            let next: usize = match self.index(c) {
                Some(i) => if i == 0 {
                    0
                } else if i - 1 < len {
                    i - 1
                } else {
                    len - 1
                },
                None => len - 1,
            };
            self.set_index(c, Some(next));
        }
    }

    /// Moves the selection of a column one item down, kept inside the column.
    pub fn select_down(&mut self, c: Column)
        ensures
            final(self)@ == old(self)@.select_down(c),
    {
        let len: usize = self.column_len(c);
        if len > 0 {
            let next: usize = match self.index(c) {
                Some(i) => if i < len - 1 {
                    i + 1
                } else {
                    len - 1
                },
                None => len - 1,
            };
            self.set_index(c, Some(next));
        }
    }

    /// Selects the next project (`forward`) or the one before, without leaving
    /// the list. Returns whether the board holds a project at all.
    pub fn step_project(&mut self, forward: bool) -> (any: bool)
        ensures
            final(self)@ == old(self)@.step_project(forward),
            any == (old(self)@.projects.len() > 0),
    {
        let len: usize = self.projects.len();
        if len == 0 {
            false
        } else {
            if forward {
                if self.project_index < len - 1 {
                    self.project_index = self.project_index + 1;
                } else {
                    self.project_index = len - 1;
                }
            } else if self.project_index > len {
                self.project_index = len - 1;
            } else if self.project_index > 0 {
                self.project_index = self.project_index - 1;
            }
            true
        }
    }

    /// Highlights the first to-do item and nothing in the other two columns.
    pub fn reset_indexes(&mut self)
        ensures
            final(self)@ == old(self)@.reset_indexes(),
    {
        self.todo_index = Some(0);
        self.in_progress_index = None;
        self.done_index = None;
    }

    /// Gives the selected project a new name.
    pub fn rename_project(&mut self, name: String)
        ensures
            final(self)@ == old(self)@.rename_project(name@),
    {
        let p: usize = self.project_index;
        if p < self.projects.len() {
            self.projects[p].name = name;
            assert(self@.projects =~= old(self)@.rename_project(name@).projects);
        }
    }

    /// Removes the selected project and repairs the project index.
    pub fn delete_project(&mut self)
        ensures
            final(self)@ == old(self)@.delete_project(),
    {
        let p: usize = self.project_index;
        let len: usize = self.projects.len();
        if p < len {
            self.projects.remove(p);
            if p == len - 1 && p > 0 {
                self.project_index = len - 2;
            }
            assert(self@.projects =~= old(self)@.delete_project().projects);
        }
    }

    /// Appends stored projects to the board, in their order.
    pub fn load(&mut self, projects: Vec<KanbanProject>)
        ensures
            final(self)@ == (KanbanView {
                projects: old(self)@.projects + project_views(projects@),
                ..old(self)@
            }),
    {
        let mut rest = projects;
        self.projects.append(&mut rest);
        assert(self@.projects =~= old(self)@.projects + project_views(projects@));
    }
}

} // verus!
