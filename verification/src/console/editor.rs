//! The player's editing and cursor-movement vocabulary for the Controller
//! source pane.
//!
//! Movement variants carry a `shift` flag: `true` extends the current
//! selection to the new cursor position, `false` moves the cursor and clears
//! any active selection.

use vstd::prelude::*;

verus! {

/// One editing or cursor-movement operation the player can perform.
#[derive(Debug, Clone, Copy, PartialEq, Eq, Structural)]
pub enum EditOp {
    Insert(char),
    Newline,
    Backspace,
    DeleteForward,
    MoveLeft(bool),
    MoveRight(bool),
    MoveUp(bool),
    MoveDown(bool),
    MoveLineStart(bool),
    MoveLineEnd(bool),
    PageUp(bool),
    PageDown(bool),
    MoveWordLeft(bool),
    MoveWordRight(bool),
    SelectAll,
    Undo,
    Redo,
    /// `Tab`: indents the current line, or every line touched by an active
    /// selection, by one indent unit (two spaces, never a literal tab byte).
    Indent,
    /// `Shift+Tab`: removes one indent unit from the current line, or from
    /// every line touched by an active selection.
    UnIndent,
}

} // verus!
