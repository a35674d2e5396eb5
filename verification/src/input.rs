//! The actions a user can take, and the keys that stand for them.

use vstd::prelude::*;

verus! {

/// One thing the user asked for.
#[derive(Debug, Clone, Copy, PartialEq, Eq, Structural)]
pub enum Action {
    NextLog,
    PrevLog,
    NextPageLogs,
    PrevPageLogs,
    TopLog,
    BottomLog,
    ToggleInfo,
    ToggleNotice,
    ToggleWarning,
    ToggleError,
    IncMessageHeight,
    DecMessageHeight,
    ToggleFocus,
    Resize,
    Quit,
}

/// A key as far as the bindings tell keys apart. Modifiers are not looked at.
#[derive(Debug, Clone, Copy, PartialEq, Eq, Structural)]
pub enum Key {
    Char(char),
    Up,
    Down,
    Left,
    Right,
    Home,
    End,
    Tab,
    /// Any other key.
    Other,
}

/// What the terminal reported.
#[derive(Debug, Clone, Copy, PartialEq, Eq, Structural)]
pub enum InputEvent {
    Key(Key),
    /// The terminal now has this many columns and rows.
    Resize(u16, u16),
    /// Anything else, such as the mouse.
    Other,
}

/// The action bound to a character key.
pub open spec fn char_binding(c: char) -> Option<Action> {
    if c == 'q' {
        Some(Action::Quit)
    } else if c == 'j' {
        Some(Action::NextLog)
    } else if c == 'k' {
        Some(Action::PrevLog)
    } else if c == 'l' {
        Some(Action::NextPageLogs)
    } else if c == 'h' {
        Some(Action::PrevPageLogs)
    } else if c == '1' {
        Some(Action::ToggleInfo)
    } else if c == '2' {
        Some(Action::ToggleNotice)
    } else if c == '3' {
        Some(Action::ToggleWarning)
    } else if c == '4' {
        Some(Action::ToggleError)
    } else if c == '=' || c == '+' {
        Some(Action::IncMessageHeight)
    } else if c == '-' || c == '_' {
        Some(Action::DecMessageHeight)
    } else {
        None
    }
}

/// The action bound to an event: `None` for an event that is bound to
/// nothing. A resize is an action of its own.
pub open spec fn binding(event: InputEvent) -> Option<Action> {
    match event {
        InputEvent::Key(Key::Char(c)) => char_binding(c),
        InputEvent::Key(Key::Down) => Some(Action::NextLog),
        InputEvent::Key(Key::Up) => Some(Action::PrevLog),
        InputEvent::Key(Key::Right) => Some(Action::NextPageLogs),
        InputEvent::Key(Key::Left) => Some(Action::PrevPageLogs),
        InputEvent::Key(Key::Home) => Some(Action::TopLog),
        InputEvent::Key(Key::End) => Some(Action::BottomLog),
        InputEvent::Key(Key::Tab) => Some(Action::ToggleFocus),
        InputEvent::Key(Key::Other) => None,
        InputEvent::Resize(_, _) => Some(Action::Resize),
        InputEvent::Other => None,
    }
}

/// Looks up the action bound to `event`. The caller waits for the next event
/// when there is none.
pub fn action_for(event: InputEvent) -> (action: Option<Action>)
    ensures
        action == binding(event),
{
    match event {
        InputEvent::Key(key) => match key {
            Key::Char(c) => char_action(c),
            Key::Down => Some(Action::NextLog),
            Key::Up => Some(Action::PrevLog),
            Key::Right => Some(Action::NextPageLogs),
            Key::Left => Some(Action::PrevPageLogs),
            Key::Home => Some(Action::TopLog),
            Key::End => Some(Action::BottomLog),
            Key::Tab => Some(Action::ToggleFocus),
            Key::Other => None,
        },
        InputEvent::Resize(_, _) => Some(Action::Resize),
        InputEvent::Other => None,
    }
}

/// Looks up the action bound to the character key `c`.
fn char_action(c: char) -> (action: Option<Action>)
    ensures
        action == char_binding(c),
{
    match c {
        'q' => Some(Action::Quit),
        'j' => Some(Action::NextLog),
        'k' => Some(Action::PrevLog),
        'l' => Some(Action::NextPageLogs),
        'h' => Some(Action::PrevPageLogs),
        '1' => Some(Action::ToggleInfo),
        '2' => Some(Action::ToggleNotice),
        '3' => Some(Action::ToggleWarning),
        '4' => Some(Action::ToggleError),
        '=' | '+' => Some(Action::IncMessageHeight),
        '-' | '_' => Some(Action::DecMessageHeight),
        _ => None,
    }
}

} // verus!
