//! Key presses and what they ask of the game.

use vstd::prelude::*;

verus! {

/// A key as the terminal reports it.
#[derive(Clone, Copy, Debug, PartialEq, Eq, Structural)]
pub enum KeyPress {
    Char(char),
    Up,
    Down,
    Left,
    Right,
    Esc,
    Other,
}

/// What a key asks for.
#[derive(Clone, Copy, Debug, PartialEq, Eq, Structural)]
pub enum Key {
    MoveUp,
    MoveDown,
    MoveLeft,
    MoveRight,
    Quit,
    Restart,
    Other,
}

/// The bindings: W, S, A, D and the arrows move, Q and Esc quit, R starts
/// anew; letters count in either case, and every other key asks for nothing.
pub open spec fn binding(press: KeyPress) -> Key {
    match press {
        KeyPress::Up => Key::MoveUp,
        KeyPress::Down => Key::MoveDown,
        KeyPress::Left => Key::MoveLeft,
        KeyPress::Right => Key::MoveRight,
        KeyPress::Esc => Key::Quit,
        KeyPress::Other => Key::Other,
        KeyPress::Char(c) => if c == 'w' || c == 'W' {
            Key::MoveUp
        } else if c == 's' || c == 'S' {
            Key::MoveDown
        } else if c == 'a' || c == 'A' {
            Key::MoveLeft
        } else if c == 'd' || c == 'D' {
            Key::MoveRight
        } else if c == 'q' || c == 'Q' {
            Key::Quit
        } else if c == 'r' || c == 'R' {
            Key::Restart
        } else {
            Key::Other
        },
    }
}

/// Computes `binding`.
pub fn classify(press: KeyPress) -> (key: Key)
    ensures
        key == binding(press),
{
    match press {
        KeyPress::Up => Key::MoveUp,
        KeyPress::Down => Key::MoveDown,
        KeyPress::Left => Key::MoveLeft,
        KeyPress::Right => Key::MoveRight,
        KeyPress::Esc => Key::Quit,
        KeyPress::Other => Key::Other,
        KeyPress::Char(c) => if c == 'w' || c == 'W' {
            Key::MoveUp
        } else if c == 's' || c == 'S' {
            Key::MoveDown
        } else if c == 'a' || c == 'A' {
            Key::MoveLeft
        } else if c == 'd' || c == 'D' {
            Key::MoveRight
        } else if c == 'q' || c == 'Q' {
            Key::Quit
        } else if c == 'r' || c == 'R' {
            Key::Restart
        } else {
            Key::Other
        },
    }
}

} // verus!
