//! Keys as they arrive from the keyboard, the commands they stand for, and
//! what the program around the board has to do after one.

use vstd::prelude::*;

verus! {

/// The modifier held with a key. Any combination other than control alone or
/// shift alone counts as `Plain`.
#[derive(Clone, Copy, Debug, PartialEq, Eq, Structural)]
pub enum Modifier {
    Plain,
    WithControl,
    WithShift,
}

/// The keys that the board tells apart.
#[derive(Clone, Copy, Debug, PartialEq, Eq, Structural)]
pub enum Key {
    Esc,
    Backspace,
    Delete,
    Enter,
    Left,
    Right,
    Up,
    Down,
    Char(char),
    Other,
}

/// One key press.
#[derive(Clone, Copy, Debug, PartialEq, Eq, Structural)]
pub struct KeyPress {
    pub code: Key,
    pub modifiers: Modifier,
}

/// One discrete command to the board.
#[derive(Clone, Copy, Debug, PartialEq, Eq, Structural)]
pub enum Command {
    MoveUp(Modifier),
    MoveDown(Modifier),
    MoveLeft(Modifier),
    MoveRight(Modifier),
    Confirm,
    Cancel,
    Backspace,
    NewlineInsert,
    TextChar(char),
    OpenNew,
    OpenEdit,
    OpenDeleteItem,
    OpenDeleteProject,
    OpenNewProject,
    OpenEditProject,
    Quit,
}

/// What the caller does after a command: go on, store the projects and go on,
/// or leave.
#[derive(Clone, Copy, Debug, PartialEq, Eq, Structural)]
pub enum Action {
    Continue,
    Save,
    Quit,
}

/// The command of the letter `n`: a new project with control; otherwise a
/// character of the text while a popup takes text, and a new item if not.
pub open spec fn n_key_command(can_input: bool, m: Modifier) -> Command {
    if m == Modifier::WithControl {
        Command::OpenNewProject
    } else if can_input {
        Command::TextChar('n')
    } else {
        Command::OpenNew
    }
}

/// The command of the letter `e`: edit the project's name with control;
/// otherwise a character of the text while a popup takes text, and edit the
/// highlighted item if not.
pub open spec fn e_key_command(can_input: bool, m: Modifier) -> Command {
    if m == Modifier::WithControl {
        Command::OpenEditProject
    } else if can_input {
        Command::TextChar('e')
    } else {
        Command::OpenEdit
    }
}

/// The command of a key that is neither special nor an arrow.
pub open spec fn input_command(can_input: bool, key: KeyPress) -> Option<Command> {
    match key.code {
        Key::Char(c) => if c == 'n' {
            Some(n_key_command(can_input, key.modifiers))
        } else if c == 'e' {
            Some(e_key_command(can_input, key.modifiers))
        } else {
            Some(Command::TextChar(c))
        },
        _ => None,
    }
}

/// The command of an arrow key, or of a character key.
pub open spec fn keyboard_command(can_input: bool, key: KeyPress) -> Option<Command> {
    match key.code {
        Key::Left => Some(Command::MoveLeft(key.modifiers)),
        Key::Right => Some(Command::MoveRight(key.modifiers)),
        Key::Up => Some(Command::MoveUp(key.modifiers)),
        Key::Down => Some(Command::MoveDown(key.modifiers)),
        _ => input_command(can_input, key),
    }
}

/// The command that a key stands for, given whether a popup takes text.
pub open spec fn key_command(can_input: bool, key: KeyPress) -> Option<Command> {
    match key.code {
        Key::Esc => Some(Command::Quit),
        Key::Backspace => Some(Command::Backspace),
        Key::Delete => if key.modifiers == Modifier::WithControl {
            Some(Command::OpenDeleteProject)
        } else {
            Some(Command::OpenDeleteItem)
        },
        Key::Enter => if key.modifiers == Modifier::WithControl {
            Some(Command::NewlineInsert)
        } else {
            Some(Command::Confirm)
        },
        _ => keyboard_command(can_input, key),
    }
}

/// Computes `key_command`.
pub fn command_of_key(can_input: bool, key: KeyPress) -> (r: Option<Command>)
    ensures
        r == key_command(can_input, key),
{
    let with_control: bool = key.modifiers == Modifier::WithControl;
    match key.code {
        Key::Esc => Some(Command::Quit),
        Key::Backspace => Some(Command::Backspace),
        Key::Delete => if with_control {
            Some(Command::OpenDeleteProject)
        } else {
            Some(Command::OpenDeleteItem)
        },
        Key::Enter => if with_control {
            Some(Command::NewlineInsert)
        } else {
            Some(Command::Confirm)
        },
        Key::Left => Some(Command::MoveLeft(key.modifiers)),
        Key::Right => Some(Command::MoveRight(key.modifiers)),
        Key::Up => Some(Command::MoveUp(key.modifiers)),
        Key::Down => Some(Command::MoveDown(key.modifiers)),
        Key::Char(c) => if c == 'n' {
            if with_control {
                Some(Command::OpenNewProject)
            } else if can_input {
                Some(Command::TextChar('n'))
            } else {
                Some(Command::OpenNew)
            }
        } else if c == 'e' {
            if with_control {
                Some(Command::OpenEditProject)
            } else if can_input {
                Some(Command::TextChar('e'))
            } else {
                Some(Command::OpenEdit)
            }
        } else {
            Some(Command::TextChar(c))
        },
        Key::Other => None,
    }
}

} // verus!
