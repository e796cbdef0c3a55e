//! Simulation state: the ball, both paddles and the score, advanced one tick
//! at a time.
use vstd::prelude::*;
use crate::field::{UNIT, in_field, clamp};
use vstd::math::abs;
use crate::game_input::{GameInputState, PaddleState};

verus! {

/// Largest ball speed on one axis, in units per tick: half the field.
pub const MAX_SPEED: i64 = 5000;

/// How far one tick of paddle motion moves a paddle, in units.
pub const PADDLE_STEP: i64 = 2200;

/// Ball speed on one axis that the field can hold.
pub open spec fn speed_ok(v: int) -> bool {
    -MAX_SPEED <= v <= MAX_SPEED
}

/// Whether the ball reverses on the horizontal axis: the would-be position
/// reaches the far edge or falls below zero.
pub open spec fn reflects_x(p: int, v: int) -> bool {
    p + v >= UNIT || p + v < 0
}

/// Whether the ball reverses on the vertical axis: the would-be position
/// reaches the far edge or falls to zero or below.
pub open spec fn reflects_y(p: int, v: int) -> bool {
    p + v >= UNIT || p + v <= 0
}

/// One axis after a tick, as (position, velocity): the velocity is negated
/// when `reflects` holds, and then added to the position.
pub open spec fn axis_step(p: int, v: int, reflects: bool) -> (int, int) {
    let nv = if reflects { -v } else { v };
    (p + nv, nv)
}

/// Player 1's paddle height after one tick of `intent`, kept in the field.
pub open spec fn paddle_after(y: int, intent: PaddleState) -> int {
    match intent {
        PaddleState::MovingUp => clamp(y + PADDLE_STEP, 0, UNIT as int),
        PaddleState::MovingDown => clamp(y - PADDLE_STEP, 0, UNIT as int),
        PaddleState::Stopped => y,
    }
}

/// The simulation state of one match.
///
/// `ball` is the ball's top-left corner, `p1_pos` the top-left of player 1's
/// paddle and `p2_pos` the center of player 2's paddle, all normalized.
#[derive(Debug, Clone, Copy)]
pub struct Game {
    pub score: (u8, u8),
    pub ball: (i64, i64),
    pub ball_v: (i64, i64),
    pub p1_pos: (i64, i64),
    pub p1_v: i64,
    pub p2_pos: (i64, i64),
    pub p2_v: i64,
}

/// The state in which a match starts.
pub open spec fn initial_game() -> Game {
    Game {
        score: (0, 0),
        ball: (0, 0),
        ball_v: (550, 275),
        p1_pos: (0, 5000),
        p1_v: 0,
        p2_pos: (0, 5000),
        p2_v: 0,
    }
}

impl Default for Game {
    fn default() -> (r: Game)
        ensures
            r == initial_game(),
            r.wf(),
    {
        Game {
            score: (0, 0),
            ball: (0, 0),
            ball_v: (550, 275),
            p1_pos: (0, 5000),
            p1_v: 0,
            p2_pos: (0, 5000),
            p2_v: 0,
        }
    }
}

impl Game {
    /// The ball and the paddles lie in the field, the ball moves at most half
    /// the field per tick on each axis, and never stands still.
    pub open spec fn wf(self) -> bool {
        &&& in_field(self.ball.0 as int)
        &&& in_field(self.ball.1 as int)
        &&& speed_ok(self.ball_v.0 as int)
        &&& speed_ok(self.ball_v.1 as int)
        &&& !(self.ball_v.0 == 0 && self.ball_v.1 == 0)
        &&& in_field(self.p1_pos.1 as int)
        &&& in_field(self.p2_pos.1 as int)
    }

    /// The state after the ball's border collision step.
    pub open spec fn collided(self) -> Game {
        let x = axis_step(self.ball.0 as int, self.ball_v.0 as int,
            reflects_x(self.ball.0 as int, self.ball_v.0 as int));
        let y = axis_step(self.ball.1 as int, self.ball_v.1 as int,
            reflects_y(self.ball.1 as int, self.ball_v.1 as int));
        Game { ball: (x.0 as i64, y.0 as i64), ball_v: (x.1 as i64, y.1 as i64), ..self }
    }

    /// The state after the paddle step for `input`.
    pub open spec fn moved(self, input: GameInputState) -> Game {
        Game {
            p1_pos: (self.p1_pos.0, paddle_after(self.p1_pos.1 as int, input.p1_paddle_state) as i64),
            ..self
        }
    }

    /// The state after one whole tick: ball first, then paddles.
    pub open spec fn stepped(self, input: GameInputState) -> Game {
        self.collided().moved(input)
    }

    /// Advances the match by one tick.
    pub fn update(&mut self, input: GameInputState)
        requires
            old(self).wf(),
        ensures
            *final(self) == old(self).stepped(input),
            final(self).score == old(self).score,
            final(self).wf(),
    {
        self.collide_ball_with_border();
        self.update_player_paddles(input);
    }

    /// Moves player 1's paddle by one step in the direction `input` asks for,
    /// clamped to the field in both directions. Player 2 has no controls.
    pub fn update_player_paddles(&mut self, input: GameInputState)
        requires
            old(self).wf(),
        ensures
            *final(self) == old(self).moved(input),
            final(self).wf(),
    {
        match input.p1_paddle_state {
            PaddleState::MovingUp => {
                let y = self.p1_pos.1 + PADDLE_STEP;
                self.p1_pos.1 = if y > UNIT { UNIT } else { y };
            },
            PaddleState::MovingDown => {
                let y = self.p1_pos.1 - PADDLE_STEP;
                self.p1_pos.1 = if y < 0 { 0 } else { y };
            },
            PaddleState::Stopped => {},
        }
    }

    /// Bounces the ball off the field's borders and moves it by one tick.
    ///
    /// Each axis decides from its would-be position whether to negate its
    /// velocity, and then adds the possibly negated velocity.
    pub fn collide_ball_with_border(&mut self)
        requires
            old(self).wf(),
        ensures
            *final(self) == old(self).collided(),
            final(self).wf(),
    {
        if self.ball.0 + self.ball_v.0 >= UNIT || self.ball.0 + self.ball_v.0 < 0 {
            self.ball_v.0 = -self.ball_v.0;
        }
        self.ball.0 = self.ball.0 + self.ball_v.0;

        if self.ball.1 + self.ball_v.1 >= UNIT || self.ball.1 + self.ball_v.1 <= 0 {
            self.ball_v.1 = -self.ball_v.1;
        }
        self.ball.1 = self.ball.1 + self.ball_v.1;
    }
}

/// One tick of the ball on one axis keeps it in the field whenever it started
/// in the field, its speed is at most half the field, and its would-be
/// position overshoots an edge by at most one speed: no tick needs two
/// reflections.
pub proof fn reflection_stays_in_field(p: int, v: int)
    requires
        in_field(p),
        speed_ok(v),
        -abs(v) <= p + v <= UNIT + abs(v),
    ensures
        in_field(axis_step(p, v, reflects_x(p, v)).0),
        in_field(axis_step(p, v, reflects_y(p, v)).0),
        abs(axis_step(p, v, reflects_x(p, v)).1) == abs(v),
        abs(axis_step(p, v, reflects_y(p, v)).1) == abs(v),
{
}

} // verus!
