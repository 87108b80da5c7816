//! The game grid: dimensions, positions, and wrapped movement arithmetic.

use vstd::prelude::*;

use crate::direction::Direction;
use crate::rng::rand_range;

verus! {

/// Number of grid cells along the x axis.
pub const GRID_WIDTH: i16 = 30;

/// Number of grid cells along the y axis.
pub const GRID_HEIGHT: i16 = 20;

/// Pixel width and height of one grid cell on screen.
pub const GRID_CELL_SIZE: i16 = 32;

/// A whole-cell coordinate on the game board. Positions produced by
/// movement always satisfy [`GridPosition::in_bounds`]; the wrap-around
/// arithmetic, not clamping, keeps them there.
#[derive(Clone, Copy, Debug, PartialEq, Eq, Structural)]
pub struct GridPosition {
    pub x: i16,
    pub y: i16,
}

/// The position one step away from `pos` in direction `dir`, with each
/// moved coordinate reduced by Euclidean modulo into the grid, so that a
/// step over an edge reenters from the opposite edge. The idle direction
/// leaves the position untouched.
pub open spec fn moved(pos: GridPosition, dir: Direction) -> GridPosition {
    match dir {
        Direction::Still => pos,
        Direction::Up => GridPosition { x: pos.x, y: ((pos.y - 1) % (GRID_HEIGHT as int)) as i16 },
        Direction::Down => GridPosition {
            x: pos.x,
            y: ((pos.y + 1) % (GRID_HEIGHT as int)) as i16,
        },
        Direction::Left => GridPosition { x: ((pos.x - 1) % (GRID_WIDTH as int)) as i16, y: pos.y },
        Direction::Right => GridPosition {
            x: ((pos.x + 1) % (GRID_WIDTH as int)) as i16,
            y: pos.y,
        },
    }
}

impl GridPosition {
    /// Both coordinates lie on the board.
    pub open spec fn in_bounds(self) -> bool {
        &&& 0 <= self.x < GRID_WIDTH
        &&& 0 <= self.y < GRID_HEIGHT
    }

    /// Constructs a position directly; the caller is responsible for any
    /// bounds it needs.
    pub fn new(x: i16, y: i16) -> (r: GridPosition)
        ensures
            r == (GridPosition { x, y }),
    {
        GridPosition { x, y }
    }

    /// Draws a position uniformly from `[0, max_x) x [0, max_y)`. Both
    /// upper bounds are exclusive and must be positive.
    pub fn random(rng: &mut oorandom::Rand32, max_x: i16, max_y: i16) -> (r: GridPosition)
        requires
            0 < max_x,
            0 < max_y,
        ensures
            0 <= r.x < max_x,
            0 <= r.y < max_y,
    {
        let x = rand_range(rng, 0, max_x as u32);
        let y = rand_range(rng, 0, max_y as u32);
        GridPosition { x: x as i16, y: y as i16 }
    }

    /// Moves one cell from `pos` in direction `dir` with wrap-around; the
    /// result is exactly [`moved`], and a position on the board stays on
    /// the board.
    pub fn new_from_move(pos: GridPosition, dir: Direction) -> (r: GridPosition)
        ensures
            r == moved(pos, dir),
            pos.in_bounds() ==> r.in_bounds(),
    {
        proof {
            if pos.in_bounds() {
                lemma_moved_in_bounds(pos, dir);
            }
        }
        match dir {
            Direction::Still => pos,
            Direction::Up => GridPosition { x: pos.x, y: wrap(pos.y as i32 - 1, GRID_HEIGHT) },
            Direction::Down => GridPosition { x: pos.x, y: wrap(pos.y as i32 + 1, GRID_HEIGHT) },
            Direction::Left => GridPosition { x: wrap(pos.x as i32 - 1, GRID_WIDTH), y: pos.y },
            Direction::Right => GridPosition { x: wrap(pos.x as i32 + 1, GRID_WIDTH), y: pos.y },
        }
    }
}

/// The Euclidean remainder of `v` modulo `m`, always in `[0, m)`.
fn wrap(v: i32, m: i16) -> (r: i16)
    requires
        0 < m,
    ensures
        r as int == (v as int) % (m as int),
        0 <= r < m,
{
    match v.checked_rem_euclid(m as i32) {
        Some(x) => x as i16,
        None => 0,
    }
}

/// A move never leaves the board: from a position inside
/// `[0, GRID_WIDTH) x [0, GRID_HEIGHT)`, every direction, the idle one
/// included, yields a position inside the same box.
pub proof fn lemma_moved_in_bounds(pos: GridPosition, dir: Direction)
    requires
        pos.in_bounds(),
    ensures
        moved(pos, dir).in_bounds(),
{
}

/// The pixel rectangle of one grid cell: its top-left corner in pixels and
/// its fixed width and height.
pub fn cell_rect(pos: GridPosition) -> (r: (i32, i32, i32, i32))
    ensures
        r.0 == pos.x * GRID_CELL_SIZE,
        r.1 == pos.y * GRID_CELL_SIZE,
        r.2 == GRID_CELL_SIZE,
        r.3 == GRID_CELL_SIZE,
{
    (
        pos.x as i32 * GRID_CELL_SIZE as i32,
        pos.y as i32 * GRID_CELL_SIZE as i32,
        GRID_CELL_SIZE as i32,
        GRID_CELL_SIZE as i32,
    )
}

} // verus!
