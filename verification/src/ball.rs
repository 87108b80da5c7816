//! The ball: one grid cell moving in a straight line, bouncing off
//! paddles by inverting its direction.

use vstd::prelude::*;

use crate::direction::Direction;
use crate::grid::{moved, GridPosition};
use crate::paddle::{Padle, PadleView};

verus! {

/// The ball: its cell and the direction of its next move.
#[derive(Clone, Copy, Debug, PartialEq, Eq, Structural)]
pub struct Ball {
    pub pos: GridPosition,
    pub dir: Direction,
}

/// One ball update against the two paddles: the ball first moves one cell
/// in its direction; then, if the first paddle occupies that cell, it
/// inverts its direction and moves one more cell; then the same check runs
/// against the second paddle, always in this order. If both paddles
/// occupy the ball's cell in the same tick, both inversions happen: the
/// direction is back to the original and the ball has taken an extra step.
pub open spec fn ball_step(b: Ball, p1: PadleView, p2: PadleView) -> Ball {
    let after_move = Ball { pos: moved(b.pos, b.dir), dir: b.dir };
    let after_p1 = if p1.occupies(after_move.pos) {
        let d = after_move.dir.inverse_spec();
        Ball { pos: moved(after_move.pos, d), dir: d }
    } else {
        after_move
    };
    if p2.occupies(after_p1.pos) {
        let d = after_p1.dir.inverse_spec();
        Ball { pos: moved(after_p1.pos, d), dir: d }
    } else {
        after_p1
    }
}

impl Ball {
    /// Builds a ball at `pos`; a new ball always starts moving left.
    pub fn new(pos: GridPosition) -> (b: Ball)
        ensures
            b == (Ball { pos, dir: Direction::Left }),
    {
        Ball { pos, dir: Direction::Left }
    }

    /// Applies one update step: the new ball is exactly [`ball_step`] of
    /// the old one against the two paddles, checked in argument order.
    pub fn update(&mut self, padle1: &Padle, padle2: &Padle)
        ensures
            *final(self) == ball_step(*old(self), padle1@, padle2@),
    {
        self.pos = GridPosition::new_from_move(self.pos, self.dir);

        if padle1.meats_ball(self) {
            self.dir = self.dir.inverse();
            self.pos = GridPosition::new_from_move(self.pos, self.dir);
        }
        if padle2.meats_ball(self) {
            self.dir = self.dir.inverse();
            self.pos = GridPosition::new_from_move(self.pos, self.dir);
        }
    }
}

/// Stepping left and then right from a position on the board returns to
/// that position: the two wrapped moves cancel.
pub proof fn lemma_move_left_right_cancels(pos: GridPosition)
    requires
        pos.in_bounds(),
    ensures
        moved(moved(pos, Direction::Left), Direction::Right) == pos,
{
}

/// A ball moving left that lands on a cell of the first paddle bounces:
/// its direction inverts to right and it ends one cell to the right of
/// the collision cell — back where it came from, outside the collision
/// cell — provided the second paddle does not also occupy that landing
/// cell.
pub proof fn lemma_ball_bounces_off_first_paddle(b: Ball, p1: PadleView, p2: PadleView)
    requires
        b.dir == Direction::Left,
        p1.occupies(moved(b.pos, Direction::Left)),
        !p2.occupies(moved(moved(b.pos, Direction::Left), Direction::Right)),
    ensures
        ball_step(b, p1, p2).dir == Direction::Right,
        ball_step(b, p1, p2).pos == moved(moved(b.pos, Direction::Left), Direction::Right),
        b.pos.in_bounds() ==> ball_step(b, p1, p2).pos == b.pos,
{
    if b.pos.in_bounds() {
        lemma_move_left_right_cancels(b.pos);
    }
}

} // verus!
