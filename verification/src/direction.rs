//! Movement directions and the physical keys that select them.

use vstd::prelude::*;

verus! {

/// A movement direction on the grid. `Still` is the idle direction: moving
/// in it is the identity, and a paddle whose pending direction is `Still`
/// stays put on the next tick.
#[derive(Clone, Copy, Debug, PartialEq, Eq, Structural)]
pub enum Direction {
    Still,
    Up,
    Down,
    Left,
    Right,
}

/// The physical keys the game reacts to. `Other` stands for every key
/// outside the mapped set; it carries no direction and no player.
#[derive(Clone, Copy, Debug, PartialEq, Eq, Structural)]
pub enum Key {
    Up,
    Down,
    Left,
    Right,
    W,
    S,
    Other,
}

impl Direction {
    /// The opposite direction; `Still` is its own opposite.
    pub open spec fn inverse_spec(self) -> Direction {
        match self {
            Direction::Still => Direction::Still,
            Direction::Up => Direction::Down,
            Direction::Down => Direction::Up,
            Direction::Left => Direction::Right,
            Direction::Right => Direction::Left,
        }
    }

    /// Returns the opposite direction.
    pub fn inverse(self) -> (r: Direction)
        ensures
            r == self.inverse_spec(),
    {
        match self {
            Direction::Still => Direction::Still,
            Direction::Up => Direction::Down,
            Direction::Down => Direction::Up,
            Direction::Left => Direction::Right,
            Direction::Right => Direction::Left,
        }
    }

    /// The direction a key selects, if any: the arrow keys map to their own
    /// direction, `W` to `Up` and `S` to `Down`; every other key maps to
    /// nothing.
    pub open spec fn from_keycode_spec(key: Key) -> Option<Direction> {
        match key {
            Key::Up => Some(Direction::Up),
            Key::Down => Some(Direction::Down),
            Key::W => Some(Direction::Up),
            Key::S => Some(Direction::Down),
            Key::Left => Some(Direction::Left),
            Key::Right => Some(Direction::Right),
            Key::Other => None,
        }
    }

    /// Maps a key to the direction it selects, or `None` for an unmapped key.
    pub fn from_keycode(key: Key) -> (r: Option<Direction>)
        ensures
            r == Direction::from_keycode_spec(key),
    {
        match key {
            Key::Up => Some(Direction::Up),
            Key::Down => Some(Direction::Down),
            Key::W => Some(Direction::Up),
            Key::S => Some(Direction::Down),
            Key::Left => Some(Direction::Left),
            Key::Right => Some(Direction::Right),
            Key::Other => None,
        }
    }

    /// The player a key belongs to, if any: the arrow keys steer player 2,
    /// `W` and `S` steer player 1; every other key belongs to nobody.
    pub open spec fn from_keycode_player_number_spec(key: Key) -> Option<u8> {
        match key {
            Key::Up => Some(2u8),
            Key::Down => Some(2u8),
            Key::Left => Some(2u8),
            Key::Right => Some(2u8),
            Key::W => Some(1u8),
            Key::S => Some(1u8),
            Key::Other => None,
        }
    }

    /// Maps a key to the player it steers, or `None` for an unmapped key.
    pub fn from_keycode_player_number(key: Key) -> (r: Option<u8>)
        ensures
            r == Direction::from_keycode_player_number_spec(key),
    {
        match key {
            Key::Up => Some(2),
            Key::Down => Some(2),
            Key::Left => Some(2),
            Key::Right => Some(2),
            Key::W => Some(1),
            Key::S => Some(1),
            Key::Other => None,
        }
    }
}

/// Taking the inverse twice gives back the original direction, for every
/// variant, and the idle direction is a fixed point of the inverse.
pub proof fn lemma_inverse_involutive(d: Direction)
    ensures
        d.inverse_spec().inverse_spec() == d,
        Direction::Still.inverse_spec() == Direction::Still,
{
}

} // verus!
