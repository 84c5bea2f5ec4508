//! What the model is to do on each input of the render loop.

use vstd::prelude::*;
use crate::pan::{Direction, Event};

verus! {

/// The key that ends the session.
pub const QUIT_KEY: char = 'q';

/// A key press, as far as the model tells keys apart.
#[derive(Clone, Copy, Debug, PartialEq, Eq, Structural)]
pub enum Key {
    /// A key that stands for a character.
    Char(char),
    Up,
    Down,
    Left,
    Right,
    /// Any other key.
    Other,
}

/// What the render loop hands over: a key press, or the periodic tick.
#[derive(Clone, Copy, Debug, PartialEq, Eq, Structural)]
pub enum Input {
    Key(Key),
    Tick,
}

/// What an input asks for.
#[derive(Clone, Copy, Debug, PartialEq, Eq, Structural)]
pub enum Command {
    /// End the session.
    Quit,
    /// Hand the event to the viewport.
    Apply(Event),
    /// Nothing.
    Ignore,
}

/// Whether the render loop goes on after an input.
#[derive(Clone, Copy, Debug, PartialEq, Eq, Structural)]
pub enum Flow {
    Continue,
    Quit,
}

/// The command of `input`: the quit key ends the session, each arrow key is
/// one pan command towards its direction, the tick is the tick, and every
/// other key is ignored.
pub open spec fn command_of(input: Input) -> Command {
    match input {
        Input::Tick => Command::Apply(Event::Tick),
        Input::Key(Key::Up) => Command::Apply(Event::Scroll(Direction::Up)),
        Input::Key(Key::Down) => Command::Apply(Event::Scroll(Direction::Down)),
        Input::Key(Key::Left) => Command::Apply(Event::Scroll(Direction::Left)),
        Input::Key(Key::Right) => Command::Apply(Event::Scroll(Direction::Right)),
        Input::Key(Key::Char(c)) => if c == QUIT_KEY {
            Command::Quit
        } else {
            Command::Ignore
        },
        Input::Key(Key::Other) => Command::Ignore,
    }
}

/// The command of `input`.
pub fn command_for(input: Input) -> (command: Command)
    ensures
        command == command_of(input),
{
    match input {
        Input::Tick => Command::Apply(Event::Tick),
        Input::Key(key) => match key {
            Key::Up => Command::Apply(Event::Scroll(Direction::Up)),
            Key::Down => Command::Apply(Event::Scroll(Direction::Down)),
            Key::Left => Command::Apply(Event::Scroll(Direction::Left)),
            Key::Right => Command::Apply(Event::Scroll(Direction::Right)),
            Key::Char(c) => if c == QUIT_KEY {
                Command::Quit
            } else {
                Command::Ignore
            },
            Key::Other => Command::Ignore,
        },
    }
}

} // verus!
