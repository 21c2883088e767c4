//! A three-column kanban board driven from the keyboard.
//!
//! The crate holds the board's state and every rule that changes it: how the
//! selection moves, how items travel between columns, how deletion repairs the
//! selection, and how the modal popups collect text. Each operation is stated
//! over a mathematical model of the state and proved against it. Drawing,
//! reading keys and storing the board are left to the program around it.

pub mod data;
pub mod text;
pub mod board;
pub mod input;
pub mod dashboard;
pub mod laws;
pub mod terminal;
