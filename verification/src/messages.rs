//! The commands that the update dispatcher understands.

use vstd::prelude::*;

use crate::model::Filter;

verus! {

/// One command for the update dispatcher.  Commands are produced from key
/// presses by `view::handle_key` and consumed by `model::update`.
#[derive(Clone, Copy, Debug, PartialEq, Eq, Structural)]
pub enum Message {
    /// Scroll one line toward older lines.
    MoveUp,
    /// Scroll one line toward newer lines.
    MoveDown,
    /// First press arms the two-key jump; the second completing press jumps
    /// to the oldest lines.
    MoveTop,
    /// Jump back to the newest lines.
    MoveBottom,
    /// Insert one character at the cursor of the search query.
    AddChar(char),
    /// Delete the character before the cursor of the search query.
    Delete,
    /// Move the query cursor one character to the left.
    MoveCursorLeft,
    /// Move the query cursor one character to the right.
    MoveCursorRight,
    /// Scroll one page toward older lines.
    MoveUpPage,
    /// Scroll one page toward newer lines.
    MoveDownPage,
    /// Enter search mode, or leave it and clear the query; leaving discards
    /// the query's effect on the display, which reverts to the filtered
    /// window.
    ToggleSearch,
    /// Select a category filter and re-pin the view to the newest lines.
    ApplyFilter(Filter),
    /// Stop the event loop.
    Quit,
}

} // verus!
