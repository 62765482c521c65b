//! Input events and the keys that produce them.
use vstd::prelude::*;

use crate::game::Direction;

verus! {

/// An event delivered to the tick loop.
#[derive(Clone, Copy, Debug, PartialEq, Eq, Structural)]
pub enum Message {
    Exit,
    Restart,
    Direction(Direction),
}

/// A key press as the input layer reports it.
#[derive(Clone, Copy, Debug, PartialEq, Eq, Structural)]
pub enum Key {
    Char(char),
    Up,
    Down,
    Left,
    Right,
    Other,
}

/// The event a key press stands for: `q` exits, `r` restarts, the arrow
/// keys turn; any other key stands for none.
pub fn message_for_key(key: Key) -> (r: Option<Message>)
    ensures
        r == match key {
            Key::Char('q') => Some(Message::Exit),
            Key::Char('r') => Some(Message::Restart),
            Key::Up => Some(Message::Direction(Direction::Up)),
            Key::Down => Some(Message::Direction(Direction::Down)),
            Key::Left => Some(Message::Direction(Direction::Left)),
            Key::Right => Some(Message::Direction(Direction::Right)),
            _ => None,
        },
{
    match key {
        Key::Char(c) => {
            if c == 'q' {
                Some(Message::Exit)
            } else if c == 'r' {
                Some(Message::Restart)
            } else {
                None
            }
        },
        Key::Up => Some(Message::Direction(Direction::Up)),
        Key::Down => Some(Message::Direction(Direction::Down)),
        Key::Left => Some(Message::Direction(Direction::Left)),
        Key::Right => Some(Message::Direction(Direction::Right)),
        Key::Other => None,
    }
}

} // verus!
