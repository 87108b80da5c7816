//! The root aggregate: two paddles, one ball, the per-tick update order,
//! and key routing.

use vstd::prelude::*;

use crate::ball::{ball_step, Ball};
use crate::direction::{Direction, Key};
use crate::grid::{GridPosition, GRID_HEIGHT, GRID_WIDTH};
use crate::paddle::{initial_body, padle_update, Padle, PadleView};
use crate::rng::rand32_new;

verus! {

/// Simulation rate: whole game ticks per second. The host's timer turns
/// elapsed wall time into a number of due ticks at this rate, decoupling
/// the simulation from how often frames are drawn.
pub const TICKS_PER_SECOND: u32 = 23;

/// The whole game: player 1's paddle on the left edge, player 2's on the
/// right edge, the ball, a game-over flag that is reserved for a future
/// lose condition and never set by current rules, and the generator that
/// placed the ball at construction.
pub struct GameState {
    pub padle1: Padle,
    pub padle2: Padle,
    pub ball: Ball,
    pub gameover: bool,
    pub rng: oorandom::Rand32,
}

/// The mathematical value of the game: both paddle views, the ball, and
/// the game-over flag. The generator is not part of it; after
/// construction nothing draws from it.
#[verifier::ext_equal]
pub struct GameView {
    pub padle1: PadleView,
    pub padle2: PadleView,
    pub ball: Ball,
    pub gameover: bool,
}

impl View for GameState {
    type V = GameView;

    open spec fn view(&self) -> GameView {
        GameView {
            padle1: self.padle1@,
            padle2: self.padle2@,
            ball: self.ball,
            gameover: self.gameover,
        }
    }
}

impl GameView {
    /// Both paddle bodies have their fixed length.
    pub open spec fn wf(self) -> bool {
        &&& self.padle1.wf()
        &&& self.padle2.wf()
    }
}

/// One simulation tick: if the game is over nothing happens; otherwise
/// paddle 1 updates, then paddle 2, then the ball, in this order — the
/// paddles move before the ball checks collision against them, so a
/// paddle's same-tick motion counts.
pub open spec fn game_tick(g: GameView) -> GameView {
    if g.gameover {
        g
    } else {
        let p1 = padle_update(g.padle1);
        let p2 = padle_update(g.padle2);
        GameView { padle1: p1, padle2: p2, ball: ball_step(g.ball, p1, p2), gameover: g.gameover }
    }
}

/// `n` simulation ticks in a row.
pub open spec fn game_ticks(g: GameView, n: nat) -> GameView
    decreases n,
{
    if n == 0 {
        g
    } else {
        game_tick(game_ticks(g, (n - 1) as nat))
    }
}

/// A tick never changes a paddle's body length, so well-formedness holds
/// after any number of ticks.
pub proof fn lemma_game_ticks_preserve_wf(g: GameView, n: nat)
    requires
        g.wf(),
    ensures
        game_ticks(g, n).wf(),
    decreases n,
{
    if n > 0 {
        lemma_game_ticks_preserve_wf(g, (n - 1) as nat);
    }
}

impl GameState {
    /// Sets up the initial game: paddle 1 at the left edge and paddle 2
    /// at the right edge, both vertically centred; the ball somewhere on
    /// the board, moving left; the game not over. The generator is seeded
    /// with zero, so the ball's place is the same on every run.
    pub fn new() -> (g: GameState)
        ensures
            g@.padle1 == (PadleView {
                body: initial_body(GridPosition { x: 0, y: (GRID_HEIGHT / 2) as i16 }),
                dir: Direction::Still,
            }),
            g@.padle2 == (PadleView {
                body: initial_body(
                    GridPosition { x: (GRID_WIDTH - 1) as i16, y: (GRID_HEIGHT / 2) as i16 },
                ),
                dir: Direction::Still,
            }),
            g.ball.pos.in_bounds(),
            g.ball.dir == Direction::Left,
            !g.gameover,
            g@.wf(),
    {
        let seed: u64 = 0;
        let mut rng = rand32_new(seed);
        let ball_pos = GridPosition::random(&mut rng, GRID_WIDTH, GRID_HEIGHT);

        GameState {
            padle1: Padle::new(GridPosition::new(0, GRID_HEIGHT / 2)),
            padle2: Padle::new(GridPosition::new(GRID_WIDTH - 1, GRID_HEIGHT / 2)),
            ball: Ball::new(ball_pos),
            gameover: false,
            rng,
        }
    }

    /// Sets up a game like [`GameState::new`], but with the given seed
    /// and the ball placed at `ball_pos` instead of a drawn cell, so a
    /// caller can fix the whole starting state.
    pub fn new_with_ball(seed: u64, ball_pos: GridPosition) -> (g: GameState)
        ensures
            g@.padle1 == (PadleView {
                body: initial_body(GridPosition { x: 0, y: (GRID_HEIGHT / 2) as i16 }),
                dir: Direction::Still,
            }),
            g@.padle2 == (PadleView {
                body: initial_body(
                    GridPosition { x: (GRID_WIDTH - 1) as i16, y: (GRID_HEIGHT / 2) as i16 },
                ),
                dir: Direction::Still,
            }),
            g.ball == (Ball { pos: ball_pos, dir: Direction::Left }),
            !g.gameover,
            g@.wf(),
    {
        let rng = rand32_new(seed);

        GameState {
            padle1: Padle::new(GridPosition::new(0, GRID_HEIGHT / 2)),
            padle2: Padle::new(GridPosition::new(GRID_WIDTH - 1, GRID_HEIGHT / 2)),
            ball: Ball::new(ball_pos),
            gameover: false,
            rng,
        }
    }

    /// Runs `ticks` whole simulation ticks: the resulting game value is
    /// exactly [`game_ticks`] of the old one, and the generator is left
    /// untouched.
    pub fn update(&mut self, ticks: u32)
        requires
            old(self)@.wf(),
        ensures
            final(self)@ == game_ticks(old(self)@, ticks as nat),
            final(self)@.wf(),
            final(self).rng == old(self).rng,
    {
        let mut done: u32 = 0;
        while done < ticks
            invariant
                done <= ticks,
                self@ == game_ticks(old(self)@, done as nat),
                self@.wf(),
                self.rng == old(self).rng,
            decreases ticks - done,
        {
            if !self.gameover {
                self.padle1.update();
                self.padle2.update();
                self.ball.update(&self.padle1, &self.padle2);
            }
            done = done + 1;
            proof {
                assert(self@ =~= game_ticks(old(self)@, done as nat));
            }
        }
    }

    /// Routes one key-down event: if the key names both a player and a
    /// direction, that player's paddle gets the direction as its pending
    /// one, overwriting whatever was pending; everything else — the other
    /// paddle, both bodies, the ball, the flag, the generator — is left
    /// as it was. The pending direction is consumed by the paddle's next
    /// update, so one key press moves a paddle by exactly one cell.
    pub fn on_key_down(&mut self, key: Key)
        ensures
            final(self)@.padle1.dir == (match (
                Direction::from_keycode_player_number_spec(key),
                Direction::from_keycode_spec(key),
            ) {
                (Some(1u8), Some(d)) => d,
                _ => old(self)@.padle1.dir,
            }),
            final(self)@.padle2.dir == (match (
                Direction::from_keycode_player_number_spec(key),
                Direction::from_keycode_spec(key),
            ) {
                (Some(2u8), Some(d)) => d,
                _ => old(self)@.padle2.dir,
            }),
            final(self)@.padle1.body == old(self)@.padle1.body,
            final(self)@.padle2.body == old(self)@.padle2.body,
            final(self).ball == old(self).ball,
            final(self).gameover == old(self).gameover,
            final(self).rng == old(self).rng,
    {
        if let Some(player_number) = Direction::from_keycode_player_number(key) {
            if let Some(dir) = Direction::from_keycode(key) {
                if player_number == 1 {
                    self.padle1.dir = dir;
                }
                if player_number == 2 {
                    self.padle2.dir = dir;
                }
            }
        }
    }
}

} // verus!
