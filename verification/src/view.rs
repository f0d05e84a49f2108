//! The input side of the view: mapping key presses to commands, and the
//! display hint each line gets from its category keyword.
//!
//! The rendering itself (boxes, colors, cursor placement) is a collaborator
//! outside this crate; it converts its key events into [`Key`] and asks
//! [`handle_key`] what command they mean, and asks [`line_category`] how to
//! style each line.

use vstd::prelude::*;

use crate::messages::Message;
use crate::model::{Filter, Model, ModelV, SearchMode};
use crate::pipeline::{contains_seq, str_contains};

verus! {

/// A key press, reduced to what the engine distinguishes.
#[derive(Clone, Copy, Debug, PartialEq, Eq, Structural)]
pub enum Key {
    Char(char),
    Enter,
    Esc,
    Backspace,
    Left,
    Right,
    Up,
    Down,
    Other,
}

/// What a printable character means in normal mode.
pub open spec fn normal_char_spec(c: char, ctrl: bool, f: Filter) -> Option<Message> {
    if c == 'j' {
        Some(Message::MoveDown)
    } else if c == 'k' {
        Some(Message::MoveUp)
    } else if c == 'q' {
        Some(Message::Quit)
    } else if c == 'g' {
        Some(Message::MoveTop)
    } else if c == 'G' {
        Some(Message::MoveBottom)
    } else if c == 's' || c == '/' {
        Some(Message::ToggleSearch)
    } else if c == 'f' {
        if f is SELECT {
            Some(Message::ApplyFilter(Filter::NONE))
        } else {
            Some(Message::ApplyFilter(Filter::SELECT))
        }
    } else if c == 'i' {
        if f is SELECT {
            Some(Message::ApplyFilter(Filter::INFO))
        } else {
            None
        }
    } else if c == 'w' {
        if f is SELECT {
            Some(Message::ApplyFilter(Filter::WARNING))
        } else {
            None
        }
    } else if c == 'e' {
        if f is SELECT {
            Some(Message::ApplyFilter(Filter::ERROR))
        } else {
            None
        }
    } else if c == 'c' {
        if f is SELECT {
            Some(Message::ApplyFilter(Filter::CRITICAL))
        } else {
            None
        }
    } else if c == 'u' && ctrl {
        Some(Message::MoveUpPage)
    } else if c == 'd' && ctrl {
        Some(Message::MoveDownPage)
    } else if c == 'd' {
        if f is SELECT {
            Some(Message::ApplyFilter(Filter::DEBUG))
        } else {
            None
        }
    } else {
        None
    }
}

/// What a key press means given the current mode.  In search mode every
/// printable character feeds the query and only the explicit escape
/// combinations leave; in normal mode keys are navigation and filter
/// commands, and category keys act only while the picker is open.
pub open spec fn handle_key_spec(key: Key, ctrl: bool, m: ModelV) -> Option<Message> {
    if m.search_mode is Search {
        match key {
            Key::Enter => Some(Message::ToggleSearch),
            Key::Esc => Some(Message::ToggleSearch),
            Key::Char(c) => if ctrl && c == 'c' {
                Some(Message::ToggleSearch)
            } else {
                Some(Message::AddChar(c))
            },
            Key::Backspace => Some(Message::Delete),
            Key::Left => Some(Message::MoveCursorLeft),
            Key::Right => Some(Message::MoveCursorRight),
            _ => None,
        }
    } else {
        match key {
            Key::Down => Some(Message::MoveDown),
            Key::Up => Some(Message::MoveUp),
            Key::Char(c) => normal_char_spec(c, ctrl, m.log_filter),
            _ => None,
        }
    }
}

/// Maps one key press to the command it means in the current state.
pub fn handle_key(key: Key, ctrl: bool, model: &Model) -> (r: Option<Message>)
    ensures
        r == handle_key_spec(key, ctrl, model@),
{
    if model.search_mode == SearchMode::Search {
        return match key {
            Key::Enter => Some(Message::ToggleSearch),
            Key::Esc => Some(Message::ToggleSearch),
            Key::Char(c) => if ctrl && c == 'c' {
                Some(Message::ToggleSearch)
            } else {
                Some(Message::AddChar(c))
            },
            Key::Backspace => Some(Message::Delete),
            Key::Left => Some(Message::MoveCursorLeft),
            Key::Right => Some(Message::MoveCursorRight),
            _ => None,
        };
    }
    match key {
        Key::Down => Some(Message::MoveDown),
        Key::Up => Some(Message::MoveUp),
        Key::Char(c) => {
            if c == 'j' {
                Some(Message::MoveDown)
            } else if c == 'k' {
                Some(Message::MoveUp)
            } else if c == 'q' {
                Some(Message::Quit)
            } else if c == 'g' {
                Some(Message::MoveTop)
            } else if c == 'G' {
                Some(Message::MoveBottom)
            } else if c == 's' || c == '/' {
                Some(Message::ToggleSearch)
            } else if c == 'f' {
                if model.log_filter == Filter::SELECT {
                    Some(Message::ApplyFilter(Filter::NONE))
                } else {
                    Some(Message::ApplyFilter(Filter::SELECT))
                }
            } else if c == 'i' {
                if model.log_filter == Filter::SELECT {
                    Some(Message::ApplyFilter(Filter::INFO))
                } else {
                    None
                }
            } else if c == 'w' {
                if model.log_filter == Filter::SELECT {
                    Some(Message::ApplyFilter(Filter::WARNING))
                } else {
                    None
                }
            } else if c == 'e' {
                if model.log_filter == Filter::SELECT {
                    Some(Message::ApplyFilter(Filter::ERROR))
                } else {
                    None
                }
            } else if c == 'c' {
                if model.log_filter == Filter::SELECT {
                    Some(Message::ApplyFilter(Filter::CRITICAL))
                } else {
                    None
                }
            } else if c == 'u' && ctrl {
                Some(Message::MoveUpPage)
            } else if c == 'd' && ctrl {
                Some(Message::MoveDownPage)
            } else if c == 'd' {
                if model.log_filter == Filter::SELECT {
                    Some(Message::ApplyFilter(Filter::DEBUG))
                } else {
                    None
                }
            } else {
                None
            }
        },
        _ => None,
    }
}

/// The display hint a line gets, in the priority order the renderer uses.
#[derive(Clone, Copy, Debug, PartialEq, Eq, Structural)]
pub enum Category {
    Info,
    Warning,
    Error,
    Critical,
    Default,
}

/// The category of a line: the first severity keyword it contains, in the
/// renderer's priority order.
pub open spec fn category_spec(line: Seq<char>) -> Category {
    if contains_seq(line, "INFO"@) {
        Category::Info
    } else if contains_seq(line, "WARNING"@) {
        Category::Warning
    } else if contains_seq(line, "ERROR"@) {
        Category::Error
    } else if contains_seq(line, "CRITICAL"@) {
        Category::Critical
    } else {
        Category::Default
    }
}

/// Classifies a line for display.
pub fn line_category(line: &str) -> (r: Category)
    ensures
        r == category_spec(line@),
{
    if str_contains(line, "INFO") {
        Category::Info
    } else if str_contains(line, "WARNING") {
        Category::Warning
    } else if str_contains(line, "ERROR") {
        Category::Error
    } else if str_contains(line, "CRITICAL") {
        Category::Critical
    } else {
        Category::Default
    }
}

} // verus!
