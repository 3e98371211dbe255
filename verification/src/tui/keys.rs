//! The key map of browse mode (no dialog open). Dialogs read their keys
//! themselves; see the state machine.

use vstd::prelude::*;

verus! {

/// A key as the terminal reports it.
#[derive(Debug, Clone, Copy, PartialEq, Eq, Structural)]
pub enum KeyCode {
    Char(char),
    Enter,
    Esc,
    Tab,
    BackTab,
    Backspace,
    Up,
    Down,
    Left,
    Right,
    PageUp,
    PageDown,
    /// Any other key.
    Other,
}

/// A key press: the key and whether Control or Shift was held.
#[derive(Debug, Clone, Copy, PartialEq, Eq, Structural)]
pub struct KeyPress {
    pub code: KeyCode,
    pub ctrl: bool,
    pub shift: bool,
}

/// What a key does in browse mode.
#[derive(Debug, Clone, Copy, PartialEq, Eq, Structural)]
pub enum Action {
    Quit,
    Help,
    Refresh,
    Up,
    Down,
    PageUp,
    PageDown,
    Top,
    Bottom,
    FocusLeft,
    FocusRight,
    FocusNext,
    FocusPrev,
    OpenEdit,
    ToggleComplete,
    ToggleCancel,
    NewTask,
    NewProject,
    Delete,
    EmptyTrash,
    Schedule,
    Tags,
    Move,
    Search,
    ShowQuickEntry,
}

/// The browse-mode binding of a key press.
pub open spec fn binding(k: KeyPress) -> Option<Action> {
    match k.code {
        KeyCode::Char(c) => {
            if c == 'q' {
                Some(Action::Quit)
            } else if c == '?' {
                Some(Action::Help)
            } else if c == 'r' && !k.ctrl {
                Some(Action::Refresh)
            } else if c == 'j' {
                Some(Action::Down)
            } else if c == 'k' {
                Some(Action::Up)
            } else if c == 'h' {
                Some(Action::FocusLeft)
            } else if c == 'l' {
                Some(Action::FocusRight)
            } else if c == 'g' {
                Some(Action::Top)
            } else if c == 'G' {
                Some(Action::Bottom)
            } else if c == ' ' {
                Some(Action::ToggleComplete)
            } else if c == 'x' {
                Some(Action::ToggleCancel)
            } else if c == 'n' && !k.shift {
                Some(Action::NewTask)
            } else if c == 'N' {
                Some(Action::NewProject)
            } else if c == 'd' {
                Some(Action::Delete)
            } else if c == 'D' {
                Some(Action::EmptyTrash)
            } else if c == 's' {
                Some(Action::Schedule)
            } else if c == 't' {
                Some(Action::Tags)
            } else if c == 'm' {
                Some(Action::Move)
            } else if c == '/' {
                Some(Action::Search)
            } else if c == 'c' && k.ctrl {
                Some(Action::ShowQuickEntry)
            } else {
                None
            }
        },
        KeyCode::Down => Some(Action::Down),
        KeyCode::Up => Some(Action::Up),
        KeyCode::Left => Some(Action::FocusLeft),
        KeyCode::Right => Some(Action::FocusRight),
        KeyCode::Tab => Some(Action::FocusNext),
        KeyCode::BackTab => Some(Action::FocusPrev),
        KeyCode::PageUp => Some(Action::PageUp),
        KeyCode::PageDown => Some(Action::PageDown),
        KeyCode::Enter => Some(Action::OpenEdit),
        _ => None,
    }
}

/// The action a key press triggers in browse mode, if any.
pub fn browse_action(ev: &KeyPress) -> (a: Option<Action>)
    ensures
        a == binding(*ev),
{
    let ctrl = ev.ctrl;
    let shift = ev.shift;
    match ev.code {
        KeyCode::Char(c) => {
            if c == 'q' {
                Some(Action::Quit)
            } else if c == '?' {
                Some(Action::Help)
            } else if c == 'r' && !ctrl {
                Some(Action::Refresh)
            } else if c == 'j' {
                Some(Action::Down)
            } else if c == 'k' {
                Some(Action::Up)
            } else if c == 'h' {
                Some(Action::FocusLeft)
            } else if c == 'l' {
                Some(Action::FocusRight)
            } else if c == 'g' {
                Some(Action::Top)
            } else if c == 'G' {
                Some(Action::Bottom)
            } else if c == ' ' {
                Some(Action::ToggleComplete)
            } else if c == 'x' {
                Some(Action::ToggleCancel)
            } else if c == 'n' && !shift {
                Some(Action::NewTask)
            } else if c == 'N' {
                Some(Action::NewProject)
            } else if c == 'd' {
                Some(Action::Delete)
            } else if c == 'D' {
                Some(Action::EmptyTrash)
            } else if c == 's' {
                Some(Action::Schedule)
            } else if c == 't' {
                Some(Action::Tags)
            } else if c == 'm' {
                Some(Action::Move)
            } else if c == '/' {
                Some(Action::Search)
            } else if c == 'c' && ctrl {
                Some(Action::ShowQuickEntry)
            } else {
                None
            }
        },
        KeyCode::Down => Some(Action::Down),
        KeyCode::Up => Some(Action::Up),
        KeyCode::Left => Some(Action::FocusLeft),
        KeyCode::Right => Some(Action::FocusRight),
        KeyCode::Tab => Some(Action::FocusNext),
        KeyCode::BackTab => Some(Action::FocusPrev),
        KeyCode::PageUp => Some(Action::PageUp),
        KeyCode::PageDown => Some(Action::PageDown),
        KeyCode::Enter => Some(Action::OpenEdit),
        _ => None,
    }
}

} // verus!
