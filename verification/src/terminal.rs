//! Key presses as crossterm delivers them, turned into the board's keys.

use vstd::prelude::*;
use crate::dashboard::App;
use crate::input::{key_command, Action, Key, KeyPress, Modifier};

verus! {

/// crossterm's `KeyEvent`; the board never looks inside one but through the
/// two functions that read its code and its modifier bits.
#[verifier::external_type_specification]
#[verifier::external_body]
pub struct ExTerminalKeyEvent(crossterm::event::KeyEvent);

/// The board's key code for a key press of the terminal: the variant of
/// crossterm's `KeyCode` in the field `code`, named in the board's own `Key`.
pub uninterp spec fn terminal_code_of(key: crossterm::event::KeyEvent) -> Key;

/// The modifier bits of a key press of the terminal: what `KeyModifiers::bits`
/// gives for the field `modifiers`.
pub uninterp spec fn terminal_bits_of(key: crossterm::event::KeyEvent) -> u8;

/// Reads the field `code` of a crossterm `KeyEvent` and names the variant of
/// crossterm's `KeyCode` in the board's own `Key`, taking the character
/// of `Char` along; every variant that the board does not use becomes
/// `Other`. The result depends on the key press alone, and the contract
/// claims no more than that.
#[verifier::external_body]
fn terminal_key_code(key: &crossterm::event::KeyEvent) -> (code: Key)
    ensures
        code == terminal_code_of(*key),
{
    match key.code {
        crossterm::event::KeyCode::Esc => Key::Esc,
        crossterm::event::KeyCode::Backspace => Key::Backspace,
        crossterm::event::KeyCode::Delete => Key::Delete,
        crossterm::event::KeyCode::Enter => Key::Enter,
        crossterm::event::KeyCode::Left => Key::Left,
        crossterm::event::KeyCode::Right => Key::Right,
        crossterm::event::KeyCode::Up => Key::Up,
        crossterm::event::KeyCode::Down => Key::Down,
        crossterm::event::KeyCode::Char(c) => Key::Char(c),
        _ => Key::Other,
    }
}

/// Calls `KeyModifiers::bits` on the field `modifiers` of a crossterm
/// `KeyEvent`: the set of modifiers held, one bit each. The result depends on
/// the key press alone, and the contract claims no more than that.
#[verifier::external_body]
fn terminal_modifier_bits(key: &crossterm::event::KeyEvent) -> (bits: u8)
    ensures
        bits == terminal_bits_of(*key),
{
    key.modifiers.bits()
}

/// The bit that crossterm sets for shift.
pub const SHIFT_BIT: u8 = 1;

/// The bit that crossterm sets for control.
pub const CONTROL_BIT: u8 = 2;

/// The modifier that a set of modifier bits counts as: control alone, shift
/// alone, and `Plain` for anything else, a combination of the two included.
pub open spec fn modifier_of_bits(bits: u8) -> Modifier {
    if bits == CONTROL_BIT {
        Modifier::WithControl
    } else if bits == SHIFT_BIT {
        Modifier::WithShift
    } else {
        Modifier::Plain
    }
}

/// The board's key for a key code and the set of modifier bits held with it.
pub fn key_press_of(code: Key, bits: u8) -> (k: KeyPress)
    ensures
        k == (KeyPress { code, modifiers: modifier_of_bits(bits) }),
{
    let modifiers = if bits == CONTROL_BIT {
        Modifier::WithControl
    } else if bits == SHIFT_BIT {
        Modifier::WithShift
    } else {
        Modifier::Plain
    };
    KeyPress { code, modifiers }
}

/// The board's key that a key press of the terminal stands for: its code,
/// with the modifier that its modifier bits count as.
pub open spec fn terminal_press(key: crossterm::event::KeyEvent) -> KeyPress {
    KeyPress {
        code: terminal_code_of(key),
        modifiers: modifier_of_bits(terminal_bits_of(key)),
    }
}

/// The board's key for a key press of the terminal: `key_press_of` on the
/// code and the modifier bits that crossterm reports.
pub fn key_event_from_terminal(key: &crossterm::event::KeyEvent) -> (k: KeyPress)
    ensures
        k == terminal_press(*key),
{
    let bits: u8 = terminal_modifier_bits(key);
    key_press_of(terminal_key_code(key), bits)
}

impl App {
    /// Handles one key press of the terminal: the state changes as
    /// `handle_key` changes it for the board's key that the press stands for.
    pub fn handle_terminal_key(&mut self, key: &crossterm::event::KeyEvent) -> (a: Action)
        ensures
            final(self)@ == old(self)@.step_opt(
                key_command(old(self)@.can_input, terminal_press(*key)),
            ),
            a == old(self)@.action_opt(key_command(old(self)@.can_input, terminal_press(*key))),
            old(self)@.wf() ==> final(self)@.wf(),
    {
        let k = key_event_from_terminal(key);
        self.handle_key(k)
    }
}

} // verus!
