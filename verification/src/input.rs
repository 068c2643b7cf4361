//! Keys and the commands they stand for.

use vstd::prelude::*;

verus! {

/// One input event, reduced to what the menu distinguishes.
///
/// Everything that is neither a character key nor the Enter key is `Other`:
/// other keys, mouse events, resizes, focus changes.
#[derive(Copy, Clone, Debug, PartialEq, Eq, Structural)]
pub enum Key {
    Char(char),
    Enter,
    Other,
}

/// What a key asks the menu to do.
#[derive(Copy, Clone, Debug, PartialEq, Eq, Structural)]
pub enum Command {
    Toggle,
    FocusDown,
    FocusUp,
    Quit,
}

/// The command bound to a key, if any.
pub open spec fn command_of(key: Key) -> Option<Command> {
    match key {
        Key::Enter => Some(Command::Toggle),
        Key::Char(c) => if c == ' ' {
            Some(Command::Toggle)
        } else if c == 'j' {
            Some(Command::FocusDown)
        } else if c == 'k' {
            Some(Command::FocusUp)
        } else if c == 'q' {
            Some(Command::Quit)
        } else {
            None
        },
        Key::Other => None,
    }
}

/// Decodes a key. Space and Enter toggle, `j` moves the focus down, `k`
/// moves it up, `q` quits. Any other input is not an error: it decodes to
/// `None` and changes nothing.
pub fn decode(key: Key) -> (command: Option<Command>)
    ensures
        command == command_of(key),
{
    match key {
        Key::Char(pressed) => match pressed {
            ' ' => Some(Command::Toggle),
            'k' => Some(Command::FocusUp),
            'j' => Some(Command::FocusDown),
            'q' => Some(Command::Quit),
            _ => None,
        },
        Key::Enter => Some(Command::Toggle),
        Key::Other => None,
    }
}

} // verus!
