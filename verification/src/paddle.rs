//! Paddles: vertical bars of grid segments that shift one cell per
//! consumed key press.

use std::collections::VecDeque;

use vstd::prelude::*;

use crate::direction::Direction;
use crate::grid::{moved, GridPosition};

verus! {

/// Number of segments in a paddle's body, fixed for its whole lifetime.
pub const PADDLE_LEN: usize = 5;

/// One cell of a paddle's body.
#[derive(Clone, Copy, Debug, PartialEq, Eq, Structural)]
pub struct Segment {
    pub pos: GridPosition,
}

impl Segment {
    /// Wraps a position as a body segment.
    pub fn new(pos: GridPosition) -> (s: Segment)
        ensures
            s == (Segment { pos }),
    {
        Segment { pos }
    }
}

/// A paddle: an ordered body of segments (front first) and the pending
/// direction its next update will consume.
pub struct Padle {
    pub body: VecDeque<Segment>,
    pub dir: Direction,
}

/// The mathematical value of a paddle: the segment positions front to
/// back, and the pending direction.
#[verifier::ext_equal]
pub struct PadleView {
    pub body: Seq<GridPosition>,
    pub dir: Direction,
}

impl View for Padle {
    type V = PadleView;

    open spec fn view(&self) -> PadleView {
        PadleView { body: self.body@.map_values(|s: Segment| s.pos), dir: self.dir }
    }
}

impl PadleView {
    /// A paddle body keeps exactly [`PADDLE_LEN`] segments.
    pub open spec fn wf(self) -> bool {
        self.body.len() == PADDLE_LEN
    }

    /// Some segment of the body sits on `pos`.
    pub open spec fn occupies(self, pos: GridPosition) -> bool {
        self.body.contains(pos)
    }
}

/// The body a new paddle starts with: [`PADDLE_LEN`] cells in the column
/// of `pos`, front to back at `pos.y`, `pos.y - 1`, ..., by raw
/// subtraction without wrap-around.
pub open spec fn initial_body(pos: GridPosition) -> Seq<GridPosition> {
    Seq::new(PADDLE_LEN as nat, |i: int| GridPosition { x: pos.x, y: (pos.y - i) as i16 })
}

/// One paddle update: `Up` appends the cell above the back segment and
/// drops the front one, `Down` prepends the cell below the front segment
/// and drops the back one, and both consume the pending direction; any
/// other direction changes nothing. Either shift moves a contiguous body
/// one cell in the intended vertical direction, even though `Up` works on
/// the back end and `Down` on the front end.
pub open spec fn padle_update(v: PadleView) -> PadleView
    recommends
        v.body.len() > 0,
{
    if v.dir == Direction::Up {
        PadleView {
            body: v.body.subrange(1, v.body.len() as int).push(
                moved(v.body.last(), Direction::Up),
            ),
            dir: Direction::Still,
        }
    } else if v.dir == Direction::Down {
        PadleView {
            body: seq![moved(v.body[0], Direction::Down)] + v.body.subrange(
                0,
                v.body.len() - 1,
            ),
            dir: Direction::Still,
        }
    } else {
        v
    }
}

impl Padle {
    /// Builds a paddle at `pos`: body [`initial_body`]`(pos)`, no pending
    /// direction. The y coordinates are raw differences, so a paddle
    /// placed too close to the top edge may start with cells off the
    /// board; movement wraps them back in later.
    pub fn new(pos: GridPosition) -> (p: Padle)
        requires
            i16::MIN + PADDLE_LEN <= pos.y,
        ensures
            p@.body == initial_body(pos),
            p@.dir == Direction::Still,
            p@.wf(),
    {
        let mut body: VecDeque<Segment> = VecDeque::new();
        let mut seg_number: i16 = 0;
        while seg_number < PADDLE_LEN as i16
            invariant
                0 <= seg_number <= PADDLE_LEN,
                i16::MIN + PADDLE_LEN <= pos.y,
                body@.len() == seg_number,
                forall|i: int|
                    0 <= i < seg_number ==> body@[i] == (Segment {
                        pos: GridPosition { x: pos.x, y: (pos.y - i) as i16 },
                    }),
            decreases PADDLE_LEN - seg_number,
        {
            body.push_back(Segment::new(GridPosition::new(pos.x, pos.y - seg_number)));
            seg_number = seg_number + 1;
        }
        let p = Padle { body, dir: Direction::Still };
        proof {
            assert(p@.body =~= initial_body(pos));
        }
        p
    }

    /// Applies one update step: the new paddle is exactly
    /// [`padle_update`] of the old one, and the body length is unchanged,
    /// so a well-formed paddle stays well-formed after any number of
    /// updates.
    pub fn update(&mut self)
        requires
            old(self)@.body.len() > 0,
        ensures
            final(self)@ == padle_update(old(self)@),
            final(self)@.body.len() == old(self)@.body.len(),
    {
        if self.dir == Direction::Up {
            let back = self.body[self.body.len() - 1];
            let new_back = Segment::new(GridPosition::new_from_move(back.pos, self.dir));
            self.body.push_back(new_back);
            self.body.pop_front();
            self.dir = Direction::Still;
            proof {
                assert(self@.body =~= padle_update(old(self)@).body);
            }
        } else if self.dir == Direction::Down {
            let front = self.body[0];
            let new_front = Segment::new(GridPosition::new_from_move(front.pos, self.dir));
            self.body.push_front(new_front);
            self.body.pop_back();
            self.dir = Direction::Still;
            proof {
                assert(self@.body =~= padle_update(old(self)@).body);
            }
        }
        proof {
            assert(self@ =~= padle_update(old(self)@));
        }
    }

    /// Reports whether any body segment sits on the ball's cell: the
    /// result is exactly [`PadleView::occupies`] at that position.
    pub fn meats_ball(&self, ball: &crate::ball::Ball) -> (r: bool)
        ensures
            r == self@.occupies(ball.pos),
    {
        let mut i: usize = 0;
        while i < self.body.len()
            invariant
                0 <= i <= self.body.len(),
                forall|j: int| 0 <= j < i ==> self@.body[j] != ball.pos,
            decreases self.body.len() - i,
        {
            if self.body[i].pos == ball.pos {
                proof {
                    assert(self@.body[i as int] == ball.pos);
                }
                return true;
            }
            i = i + 1;
        }
        false
    }
}

/// `n` paddle updates in a row, whatever pending directions the steps
/// consume along the way.
pub open spec fn padle_updates(v: PadleView, n: nat) -> PadleView
    decreases n,
{
    if n == 0 {
        v
    } else {
        padle_update(padle_updates(v, (n - 1) as nat))
    }
}

/// An update never changes the body length, so a paddle that starts with
/// its fixed [`PADDLE_LEN`] segments still has exactly that many after any
/// number of updates.
pub proof fn lemma_updates_keep_length(v: PadleView, n: nat)
    requires
        v.wf(),
    ensures
        padle_updates(v, n).wf(),
        padle_updates(v, n).body.len() == PADDLE_LEN,
    decreases n,
{
    if n > 0 {
        lemma_updates_keep_length(v, (n - 1) as nat);
    }
}

/// A contiguous paddle shifts up as one bar: if the body's y coordinates
/// descend by one from the front and the back cell is not on the top row,
/// an `Up` update keeps every x and lowers every y by exactly one.
pub proof fn lemma_update_up_shifts(v: PadleView)
    requires
        v.wf(),
        v.dir == Direction::Up,
        forall|i: int| 0 <= i < v.body.len() ==> (#[trigger] v.body[i]).in_bounds(),
        forall|i: int| 0 <= i < v.body.len() ==> (#[trigger] v.body[i]).x == v.body[0].x,
        forall|i: int| 0 <= i < v.body.len() ==> (#[trigger] v.body[i]).y == v.body[0].y - i,
        v.body[v.body.len() - 1].y >= 1,
    ensures
        padle_update(v).body.len() == v.body.len(),
        forall|i: int|
            0 <= i < v.body.len() ==> (#[trigger] padle_update(v).body[i]) == (GridPosition {
                x: v.body[i].x,
                y: (v.body[i].y - 1) as i16,
            }),
{
    let w = padle_update(v).body;
    assert forall|i: int| 0 <= i < v.body.len() implies (#[trigger] w[i]) == (GridPosition {
        x: v.body[i].x,
        y: (v.body[i].y - 1) as i16,
    }) by {
        if i < v.body.len() - 1 {
            assert(w[i] == v.body[i + 1]);
        } else {
            assert(w[i] == moved(v.body[v.body.len() - 1], Direction::Up));
        }
    }
}

/// A contiguous paddle shifts down as one bar: if the body's y coordinates
/// descend by one from the front and the front cell is not on the bottom
/// row, a `Down` update keeps every x and raises every y by exactly one.
pub proof fn lemma_update_down_shifts(v: PadleView)
    requires
        v.wf(),
        v.dir == Direction::Down,
        forall|i: int| 0 <= i < v.body.len() ==> (#[trigger] v.body[i]).in_bounds(),
        forall|i: int| 0 <= i < v.body.len() ==> (#[trigger] v.body[i]).x == v.body[0].x,
        forall|i: int| 0 <= i < v.body.len() ==> (#[trigger] v.body[i]).y == v.body[0].y - i,
        v.body[0].y < crate::grid::GRID_HEIGHT - 1,
    ensures
        padle_update(v).body.len() == v.body.len(),
        forall|i: int|
            0 <= i < v.body.len() ==> (#[trigger] padle_update(v).body[i]) == (GridPosition {
                x: v.body[i].x,
                y: (v.body[i].y + 1) as i16,
            }),
{
    let w = padle_update(v).body;
    assert forall|i: int| 0 <= i < v.body.len() implies (#[trigger] w[i]) == (GridPosition {
        x: v.body[i].x,
        y: (v.body[i].y + 1) as i16,
    }) by {
        if i == 0 {
            assert(w[0] == moved(v.body[0], Direction::Down));
        } else {
            assert(w[i] == v.body[i - 1]);
        }
    }
}

} // verus!
