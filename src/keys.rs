use vstd::prelude::*;

verus! {

/// A key or mouse event, as the text buffer distinguishes them.
#[derive(Debug, Clone, Copy, PartialEq, Eq, Structural)]
pub enum Key {
    Char(char),
    F(u8),
    Backspace,
    Enter,
    Left,
    Right,
    Up,
    Down,
    Tab,
    Delete,
    Home,
    End,
    PageUp,
    PageDown,
    Esc,
    Copy,
    Cut,
    Paste,
    MouseScrollDown,
    MouseScrollUp,
    Null,
}

/// One input event: a key with its modifier state.
#[derive(Debug, Clone, Copy, PartialEq, Eq, Structural)]
pub struct KeyInput {
    pub key: Key,
    pub ctrl: bool,
    pub alt: bool,
    pub shift: bool,
}

/// What the event loop does with an input event.
#[derive(Debug, Clone, Copy, PartialEq, Eq, Structural)]
pub enum Command {
    Quit,
    Run,
    Switch,
    Edit,
}

/// Keys that move the cursor or scroll without changing any text.
pub open spec fn movement_key(key: Key) -> bool {
    match key {
        Key::Up | Key::Down | Key::Left | Key::Right | Key::Home | Key::End | Key::PageUp
        | Key::PageDown | Key::MouseScrollDown | Key::MouseScrollUp => true,
        _ => false,
    }
}

/// Keybindings: Esc quits, Ctrl+R runs, Ctrl+X switches focus; every other
/// event is an edit for the focused buffer.
pub open spec fn command_spec(input: KeyInput) -> Command {
    if input.key == Key::Esc {
        Command::Quit
    } else if input.ctrl && input.key == Key::Char('x') {
        Command::Switch
    } else if input.ctrl && input.key == Key::Char('r') {
        Command::Run
    } else {
        Command::Edit
    }
}

/// Whether the event only moves the cursor or scrolls.
pub fn is_movement(input: &KeyInput) -> (r: bool)
    ensures
        r == movement_key(input.key),
{
    match input.key {
        Key::Up | Key::Down | Key::Left | Key::Right | Key::Home | Key::End | Key::PageUp
        | Key::PageDown | Key::MouseScrollDown | Key::MouseScrollUp => true,
        _ => false,
    }
}

/// Classifies an input event by the keybindings.
pub fn command_of(input: &KeyInput) -> (r: Command)
    ensures
        r == command_spec(*input),
{
    match input.key {
        Key::Esc => Command::Quit,
        Key::Char(c) => {
            if input.ctrl && c == 'x' {
                Command::Switch
            } else if input.ctrl && c == 'r' {
                Command::Run
            } else {
                Command::Edit
            }
        },
        _ => Command::Edit,
    }
}

} // verus!
