//! Maps key presses to game commands.

use crate::game::Command;
use crate::grid::Direction;
use vstd::prelude::*;

verus! {

/// The keys the game distinguishes; every other key is `Other`.
#[derive(Clone, Copy, Debug, PartialEq, Eq, Structural)]
pub enum Key {
    Up,
    Down,
    Left,
    Right,
    W,
    A,
    S,
    D,
    Escape,
    Space,
    Other,
}

/// The command a press of `key` stands for.
pub open spec fn key_command(key: Key) -> Option<Command> {
    match key {
        Key::Up | Key::W => Some(Command::SetDirection(Direction::North)),
        Key::Down | Key::S => Some(Command::SetDirection(Direction::South)),
        Key::Left | Key::A => Some(Command::SetDirection(Direction::West)),
        Key::Right | Key::D => Some(Command::SetDirection(Direction::East)),
        Key::Escape => Some(Command::TogglePause),
        Key::Space => Some(Command::Reset),
        Key::Other => None,
    }
}

/// The command for a key event; releases and unknown keys give none.
pub fn command_for(key: Key, pressed: bool) -> (r: Option<Command>)
    ensures
        r == if pressed {
            key_command(key)
        } else {
            None
        },
{
    if !pressed {
        return None;
    }
    match key {
        Key::Up | Key::W => Some(Command::SetDirection(Direction::North)),
        Key::Down | Key::S => Some(Command::SetDirection(Direction::South)),
        Key::Left | Key::A => Some(Command::SetDirection(Direction::West)),
        Key::Right | Key::D => Some(Command::SetDirection(Direction::East)),
        Key::Escape => Some(Command::TogglePause),
        Key::Space => Some(Command::Reset),
        Key::Other => None,
    }
}

} // verus!
