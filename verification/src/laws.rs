//! What holds of the board and of the dashboard's state machine in general.

use vstd::prelude::*;
use crate::board::KanbanView;
use crate::dashboard::AppView;
use crate::data::{Column, Popup, ProjectView};
use crate::input::{key_command, Action, Command, KeyPress, Modifier};

verus! {

/// Moving the selection up or down in a column that holds items leaves the
/// index on an item of that column, wherever it stood before, and changes
/// nothing else on the board.
pub proof fn law_vertical_move_stays_inside(k: KanbanView, c: Column)
    requires
        k.items(c).len() > 0,
    ensures
        k.select_up(c).selection(c).is_some(),
        k.select_down(c).selection(c).is_some(),
        k.select_up(c) == k.with_index(c, k.select_up(c).index(c)),
        k.select_down(c) == k.with_index(c, k.select_down(c).index(c)),
        k.select_up(c).items(c) == k.items(c),
        k.select_down(c).items(c) == k.items(c),
{
}

/// A command that moves the selection up or down within the focused column.
pub open spec fn is_vertical_move(cmd: Command) -> bool {
    match cmd {
        Command::MoveUp(m) => m != Modifier::WithControl,
        Command::MoveDown(m) => m != Modifier::WithControl,
        _ => false,
    }
}

/// After any sequence of up and down commands on a focused column that holds
/// items and whose index stood on one of them, the index still stands on an
/// item of the column, and the column holds what it held.
pub proof fn law_vertical_moves_stay_inside(s: AppView, cmds: Seq<Command>)
    requires
        s.kanban.items(s.column_focus).len() > 0,
        s.kanban.selection(s.column_focus).is_some(),
        forall|i: int| 0 <= i < cmds.len() ==> is_vertical_move(#[trigger] cmds[i]),
    ensures
        s.run(cmds).column_focus == s.column_focus,
        s.run(cmds).kanban.items(s.column_focus) == s.kanban.items(s.column_focus),
        s.run(cmds).kanban.selection(s.column_focus).is_some(),
        s.run(cmds).kanban.selection(s.column_focus).unwrap() < s.kanban.items(
            s.column_focus,
        ).len(),
    decreases cmds.len(),
{
    if cmds.len() > 0 {
        let before = s.run(cmds.drop_last());
        law_vertical_moves_stay_inside(s, cmds.drop_last());
        assert(is_vertical_move(cmds.last()));
        law_vertical_move_stays_inside(before.kanban, before.column_focus);
    }
}

/// Deleting the highlighted item at `i` of a column of `n` items removes
/// exactly that item. The index then stands at `n - 2` if the last of several
/// items left, at 0 on an empty column if the only item left, and stays at `i`
/// if another item left; it never points past the end.
pub proof fn law_delete_reindex(k: KanbanView, c: Column, i: nat)
    requires
        k.selection(c) == Some(i),
    ensures
        k.delete_item(c).items(c) == k.items(c).remove(i as int),
        k.items(c).len() > 1 && i == k.items(c).len() - 1 ==> k.delete_item(c).index(c) == Some(
            (k.items(c).len() - 2) as nat,
        ),
        k.items(c).len() == 1 ==> k.delete_item(c).index(c) == Some(0nat) && k.delete_item(
            c,
        ).items(c).len() == 0,
        i + 1 < k.items(c).len() ==> k.delete_item(c).index(c) == Some(i),
        k.delete_item(c).items(c).len() > 0 ==> k.delete_item(c).selection(c).is_some(),
        k.delete_item(c).project_index == k.project_index,
        forall|d: Column| d != c ==> k.delete_item(c).items(d) == k.items(d) && k.delete_item(
            c,
        ).index(d) == k.index(d),
{
}

/// Moving the highlighted item at `i` of one column to another appends it to
/// the end of that column, removes it from the first, repairs the index of
/// the first as a deletion does, and leaves the index of the other alone.
pub proof fn law_move_appends(k: KanbanView, from: Column, to: Column, i: nat)
    requires
        k.selection(from) == Some(i),
        from != to,
    ensures
        k.move_item(from, to).items(to) == k.items(to).push(k.items(from)[i as int]),
        k.move_item(from, to).items(from) == k.items(from).remove(i as int),
        k.move_item(from, to).index(from) == k.delete_item(from).index(from),
        k.move_item(from, to).index(to) == k.index(to),
        k.move_item(from, to).projects.len() == k.projects.len(),
{
}

/// Switching the project with control and up or down, on a board that holds
/// a project, always ends with focus on the to-do column, its first item
/// highlighted, nothing highlighted in the other two columns, and an
/// existing project selected.
pub proof fn law_project_switch_resets(s: AppView, cmd: Command)
    requires
        s.navigating(),
        s.kanban.projects.len() > 0,
        cmd == Command::MoveUp(Modifier::WithControl) || cmd == Command::MoveDown(
            Modifier::WithControl,
        ),
    ensures
        s.step(cmd).column_focus == Column::Todo,
        s.step(cmd).kanban.todo_index == Some(0nat),
        s.step(cmd).kanban.in_progress_index.is_none(),
        s.step(cmd).kanban.done_index.is_none(),
        s.step(cmd).kanban.project_index < s.kanban.projects.len(),
        s.step(cmd).kanban.projects == s.kanban.projects,
        s.action(cmd) == Action::Continue,
{
}

/// Confirming a popup that asks for a text while the text is empty is the
/// same as cancelling it: the board is unchanged, the popup is closed, and
/// nothing is to be stored.
pub proof fn law_empty_text_cancels(s: AppView)
    requires
        AppView::takes_text(s.popup),
        s.input.len() == 0,
    ensures
        s.step(Command::Confirm) == s.step(Command::Cancel),
        s.step(Command::Confirm).kanban == s.kanban,
        s.step(Command::Confirm).popup == Popup::Disabled,
        s.action(Command::Confirm) == Action::Continue,
{
}

/// Leaving a popup with `Cancel`, or with `Quit` while one is open, closes it
/// and discards its text without touching the board or the focus.
pub proof fn law_cancel_discards(s: AppView, cmd: Command)
    requires
        cmd == Command::Cancel || (cmd == Command::Quit && s.popup != Popup::Disabled),
    ensures
        s.step(cmd).kanban == s.kanban,
        s.step(cmd).column_focus == s.column_focus,
        s.step(cmd).popup == Popup::Disabled,
        s.step(cmd).input.len() == 0,
        !s.step(cmd).can_input,
        s.action(cmd) == Action::Continue,
{
}

/// Moving focus with the left and right arrows never wraps around and never
/// changes a project: to the right of the last column and to the left of the
/// first nothing happens; otherwise the column entered has its first item
/// highlighted and the column left has none.
pub proof fn law_focus_moves_without_wrapping(s: AppView)
    requires
        s.navigating(),
    ensures
        s.step(Command::MoveRight(Modifier::Plain)).kanban.projects == s.kanban.projects,
        s.step(Command::MoveLeft(Modifier::Plain)).kanban.projects == s.kanban.projects,
        s.column_focus == Column::Done ==> s.step(Command::MoveRight(Modifier::Plain)) == s,
        s.column_focus == Column::Todo ==> s.step(Command::MoveLeft(Modifier::Plain)) == s,
        s.column_focus != Column::Done ==> ({
            let r = s.step(Command::MoveRight(Modifier::Plain));
            &&& Some(r.column_focus) == AppView::right_of(s.column_focus)
            &&& r.kanban.index(r.column_focus) == Some(0nat)
            &&& r.kanban.index(s.column_focus).is_none()
        }),
        s.column_focus != Column::Todo ==> ({
            let r = s.step(Command::MoveLeft(Modifier::Plain));
            &&& Some(r.column_focus) == AppView::left_of(s.column_focus)
            &&& r.kanban.index(r.column_focus) == Some(0nat)
            &&& r.kanban.index(s.column_focus).is_none()
        }),
{
}

/// While a popup is open, the commands that move the selection, move items
/// or open a popup change nothing.
pub proof fn law_popup_blocks_navigation(s: AppView, cmd: Command)
    requires
        s.popup != Popup::Disabled,
        AppView::is_navigation(cmd),
    ensures
        s.step(cmd) == s,
        s.action(cmd) == Action::Continue,
{
}

/// A command that acts on the selected project or on its items.
pub open spec fn is_project_scoped(cmd: Command) -> bool {
    match cmd {
        Command::MoveUp(_) | Command::MoveDown(_) | Command::MoveLeft(Modifier::WithShift)
        | Command::MoveRight(Modifier::WithShift) | Command::OpenNew | Command::OpenEdit
        | Command::OpenDeleteItem | Command::OpenDeleteProject | Command::OpenEditProject => true,
        _ => false,
    }
}

/// On a board without projects, the commands that act on a project or on its
/// items change nothing.
pub proof fn law_empty_board_ignores_project_commands(s: AppView, cmd: Command)
    requires
        s.kanban.projects.len() == 0,
        s.popup == Popup::Disabled,
        is_project_scoped(cmd),
    ensures
        s.step(cmd) == s,
        s.action(cmd) == Action::Continue,
{
}

/// Deleting the selected project of a board that holds together leaves a
/// board that holds together: the index names an existing project, or is 0
/// on the empty board.
pub proof fn law_delete_project_repairs(k: KanbanView)
    requires
        k.wf(),
        k.has_project(),
    ensures
        k.delete_project().wf(),
        k.delete_project().projects == k.projects.remove(k.project_index as int),
        k.project_index + 1 == k.projects.len() && k.projects.len() > 1
            ==> k.delete_project().project_index == k.projects.len() - 2,
        k.projects.len() == 1 ==> k.delete_project().project_index == 0,
        k.project_index + 1 < k.projects.len() ==> k.delete_project().project_index
            == k.project_index,
{
}

/// Every operation of the board keeps the selected project inside the list:
/// from a board that holds together it leads to one that does.
pub proof fn law_board_operations_keep_wf(
    k: KanbanView,
    c: Column,
    d: Column,
    p: nat,
    text: Seq<char>,
    project: ProjectView,
    forward: bool,
)
    requires
        k.wf(),
    ensures
        k.add_project(project).wf(),
        k.add_item_at(p, c, text).wf(),
        k.edit_item(c, text).wf(),
        k.delete_item(c).wf(),
        k.move_item(c, d).wf(),
        k.select_up(c).wf(),
        k.select_down(c).wf(),
        k.step_project(forward).wf(),
        k.reset_indexes().wf(),
        k.rename_project(text).wf(),
        k.delete_project().wf(),
{
}

/// Every command takes a state that holds together to one that does.
pub proof fn law_step_keeps_wf(s: AppView, cmd: Command)
    requires
        s.wf(),
    ensures
        s.step(cmd).wf(),
{
    let r = s.step(cmd);
    assert forall|c: Column| (#[trigger] r.kanban.index(c)).is_some() == (c == r.column_focus) by {
        assert(s.kanban.index(Column::Todo).is_some() == (Column::Todo == s.column_focus));
        assert(s.kanban.index(Column::InProgress).is_some() == (Column::InProgress
            == s.column_focus));
        assert(s.kanban.index(Column::Done).is_some() == (Column::Done == s.column_focus));
    }
}

/// Any sequence of commands takes a state that holds together to one that
/// does.
pub proof fn law_run_keeps_wf(s: AppView, cmds: Seq<Command>)
    requires
        s.wf(),
    ensures
        s.run(cmds).wf(),
    decreases cmds.len(),
{
    if cmds.len() > 0 {
        law_run_keeps_wf(s, cmds.drop_last());
        law_step_keeps_wf(s.run(cmds.drop_last()), cmds.last());
    }
}

/// Any sequence of key presses takes a state that holds together to one that
/// does.
pub proof fn law_key_presses_keep_wf(s: AppView, keys: Seq<KeyPress>)
    requires
        s.wf(),
    ensures
        s.run_keys(keys).wf(),
    decreases keys.len(),
{
    if keys.len() > 0 {
        let before = s.run_keys(keys.drop_last());
        law_key_presses_keep_wf(s, keys.drop_last());
        match key_command(before.can_input, keys.last()) {
            Some(cmd) => {
                law_step_keeps_wf(before, cmd);
            },
            None => {},
        }
    }
}

} // verus!
