//! The closed set of edit actions that a buffer understands.

use vstd::prelude::*;

verus! {

/// One of the four ways in which the cursor moves by a single step.
#[derive(Clone, Copy, Debug, PartialEq, Eq, Structural)]
pub enum Direction {
    Up,
    Down,
    Left,
    Right,
}

/// A single edit, applied to a buffer as a whole or not at all. Every action
/// is defined on every buffer: a target outside the text is brought back to
/// the nearest place inside it, and an edit with nothing to act on leaves
/// the text as it is.
#[derive(Clone, Copy, Debug, PartialEq, Eq, Structural)]
pub enum EditAction {
    /// Put a character at the cursor and step over it.
    InsertChar(char),
    /// Break the current line at the cursor.
    InsertNewline,
    /// Remove what stands before the cursor.
    Backspace,
    /// Remove what stands after the cursor.
    Delete,
    /// Move the cursor one step.
    MoveCursor(Direction),
    /// Move the cursor to a line and a column, both counted from zero.
    MoveCursorTo(usize, usize),
    /// Extend the selection to a line and a column, both counted from zero.
    SelectTo(usize, usize),
    /// Select the whole text.
    SelectAll,
}

} // verus!
