use vstd::prelude::*;

use crate::end_game::EndGame;
use crate::geometry::{decimal, push_decimal, Rectangle, Text, TextSize, UNIT};
use crate::scene::{draws_rect, draws_text, Draw, Scene, KEY_DOWN, KEY_S, KEY_UP, KEY_W};

verus! {

/// Paddle speed, in view units per millisecond (`0.001` of the view).
pub const PADDLE_VELOCITY: i64 = 1_000;

/// Ball speed on each axis at the start of a round, per millisecond.
pub const BALL_VELOCITY: i64 = 300;

/// Largest ball speed on each axis, per millisecond.
pub const BALL_MAX_VELOCITY: i64 = 600;

/// Each bounce multiplies the ball speed by `ESCALATION_NUM / ESCALATION_DEN`.
pub const ESCALATION_NUM: i64 = 11;

/// See `ESCALATION_NUM`.
pub const ESCALATION_DEN: i64 = 10;

/// Length of the pause at the start of each round, in milliseconds.
pub const COUNTDOWN: u64 = 500;

/// Extra push that moves a colliding object just clear of the other one.
pub const NUDGE: i64 = 1_000;

/// Points that win the match.
pub const WIN_POINTS: u8 = 10;

/// Thickness of the top and bottom walls.
pub const WALL_THICKNESS: i64 = 30_000;

/// Ball width.
pub const BALL_W: i64 = 25_000;

/// Ball height.
pub const BALL_H: i64 = 32_500;

/// Paddle width.
pub const PADDLE_W: i64 = 25_000;

/// Paddle height.
pub const PADDLE_H: i64 = 150_000;

/// Distance between a paddle and its side of the view.
pub const PADDLE_MARGIN: i64 = 50_000;

/// Positions are held within `[-FAR, FAR]`: an object that far outside the
/// view stays out of every collision, as it would further away.
pub const FAR: i64 = 1_000_000_000_000_000;

/// The wall along the top edge of the view.
pub open spec fn top_wall() -> Rectangle {
    Rectangle { x: 0, y: 0, w: UNIT, h: WALL_THICKNESS }
}

/// The wall along the bottom edge of the view.
pub open spec fn bottom_wall() -> Rectangle {
    Rectangle { x: 0, y: (UNIT - WALL_THICKNESS) as i64, w: UNIT, h: WALL_THICKNESS }
}

/// One player's input direction (`-1` up, `0` still, `1` down) and points.
#[derive(Clone, Copy, Debug, PartialEq, Eq, Structural)]
pub struct Player {
    pub movement: i8,
    pub points: u8,
}

/// The moving part of a match: ball, paddles, ball velocity, players and the
/// countdown before play resumes.
#[derive(Clone, Copy, Debug, PartialEq, Eq, Structural)]
pub struct Play {
    pub ball: Rectangle,
    pub l_paddle: Rectangle,
    pub r_paddle: Rectangle,
    pub ball_x_movement: i64,
    pub ball_y_movement: i64,
    pub left: Player,
    pub right: Player,
    pub countdown: u64,
}

pub open spec fn abs(v: int) -> int {
    if v < 0 {
        -v
    } else {
        v
    }
}

/// `v` held within `[-FAR, FAR]`.
pub open spec fn bounded(v: int) -> int {
    if v < -FAR {
        -FAR as int
    } else if v > FAR {
        FAR as int
    } else {
        v
    }
}

/// A ball speed within the allowed magnitudes.
pub open spec fn speed_ok(v: int) -> bool {
    BALL_VELOCITY <= abs(v) <= BALL_MAX_VELOCITY
}

/// The speed after a bounce: magnitude scaled up (rounded down), capped at
/// the maximum, sign kept.
pub open spec fn escalate(v: int) -> int {
    let m = abs(v) * (ESCALATION_NUM as int) / (ESCALATION_DEN as int);
    let c = if m > BALL_MAX_VELOCITY {
        BALL_MAX_VELOCITY as int
    } else {
        m
    };
    if v < 0 {
        -c
    } else {
        c
    }
}

/// The ball of a new round, in the centre of the view.
pub open spec fn centered_ball() -> Rectangle {
    Rectangle { x: (UNIT / 2 - BALL_W / 2) as i64, y: (UNIT / 2 - BALL_H / 2) as i64, w: BALL_W, h: BALL_H }
}

/// The left paddle of a new round.
pub open spec fn centered_l_paddle() -> Rectangle {
    Rectangle { x: PADDLE_MARGIN, y: (UNIT / 2 - PADDLE_H / 2) as i64, w: PADDLE_W, h: PADDLE_H }
}

/// The right paddle of a new round.
pub open spec fn centered_r_paddle() -> Rectangle {
    Rectangle {
        x: (UNIT - PADDLE_W - PADDLE_MARGIN) as i64,
        y: (UNIT / 2 - PADDLE_H / 2) as i64,
        w: PADDLE_W,
        h: PADDLE_H,
    }
}

/// The paddle lies between the walls: below the top wall, above the bottom one.
pub open spec fn between_walls(r: Rectangle) -> bool {
    top_wall().y + top_wall().h <= r.y <= bottom_wall().y - r.h
}

/// A paddle put back between the walls, a nudge clear of the wall it reached:
/// one that overlaps the top wall or has passed it goes just below it, one
/// that overlaps the bottom wall or has passed it just above it. The top wall
/// is checked first.
pub open spec fn clamp_paddle(r: Rectangle) -> Rectangle {
    if r.y < top_wall().y + top_wall().h {
        Rectangle { y: (top_wall().y + top_wall().h + NUDGE) as i64, ..r }
    } else if r.y > bottom_wall().y - r.h {
        Rectangle { y: (bottom_wall().y - r.h - NUDGE) as i64, ..r }
    } else {
        r
    }
}

impl Play {
    /// The state at the start of a match.
    pub open spec fn initial() -> Play {
        Play {
            ball: centered_ball(),
            l_paddle: centered_l_paddle(),
            r_paddle: centered_r_paddle(),
            ball_x_movement: BALL_VELOCITY,
            ball_y_movement: (-BALL_VELOCITY) as i64,
            left: Player { movement: 0, points: 0 },
            right: Player { movement: 0, points: 0 },
            countdown: COUNTDOWN,
        }
    }

    /// Neither paddle overlaps a wall, the ball overlaps no wall and no paddle,
    /// and the ball lies strictly between the two goal lines.
    pub open spec fn settled(self) -> bool {
        &&& !self.l_paddle.overlaps(top_wall())
        &&& !self.l_paddle.overlaps(bottom_wall())
        &&& !self.r_paddle.overlaps(top_wall())
        &&& !self.r_paddle.overlaps(bottom_wall())
        &&& !bottom_wall().overlaps(self.ball)
        &&& !top_wall().overlaps(self.ball)
        &&& !self.l_paddle.overlaps(self.ball)
        &&& !self.r_paddle.overlaps(self.ball)
        &&& self.ball.x > 0
        &&& self.ball.x + self.ball.w < UNIT
    }

    /// Sizes are fixed, positions within `[-FAR, FAR]`, ball speeds within
    /// bounds, movements in `{-1, 0, 1}`, no winner yet, both paddles between
    /// the walls, and the state settled.
    pub open spec fn wf(self) -> bool {
        &&& self.ball.w == BALL_W && self.ball.h == BALL_H
        &&& self.l_paddle.x == PADDLE_MARGIN && self.l_paddle.w == PADDLE_W
        &&& self.l_paddle.h == PADDLE_H
        &&& self.r_paddle.x == UNIT - PADDLE_W - PADDLE_MARGIN
        &&& self.r_paddle.w == PADDLE_W && self.r_paddle.h == PADDLE_H
        &&& -FAR <= self.ball.x <= FAR && -FAR <= self.ball.y <= FAR
        &&& -FAR <= self.l_paddle.y <= FAR && -FAR <= self.r_paddle.y <= FAR
        &&& speed_ok(self.ball_x_movement as int) && speed_ok(self.ball_y_movement as int)
        &&& -1 <= self.left.movement <= 1 && -1 <= self.right.movement <= 1
        &&& self.left.points < WIN_POINTS && self.right.points < WIN_POINTS
        &&& self.countdown <= COUNTDOWN
        &&& between_walls(self.l_paddle) && between_walls(self.r_paddle)
        &&& self.settled()
    }

    /// Step 1: the countdown after `dt` milliseconds.
    pub open spec fn countdown_after(self, dt: int) -> int {
        if dt >= self.countdown {
            0
        } else {
            self.countdown - dt
        }
    }

    /// Step 2: explicit Euler integration of paddles and ball over `dt` ms.
    pub open spec fn integrated(self, dt: int) -> Play {
        Play {
            l_paddle: Rectangle {
                y: bounded(self.l_paddle.y + self.left.movement * PADDLE_VELOCITY * dt) as i64,
                ..self.l_paddle
            },
            r_paddle: Rectangle {
                y: bounded(self.r_paddle.y + self.right.movement * PADDLE_VELOCITY * dt) as i64,
                ..self.r_paddle
            },
            ball: Rectangle {
                x: bounded(self.ball.x + self.ball_x_movement * dt) as i64,
                y: bounded(self.ball.y + self.ball_y_movement * dt) as i64,
                ..self.ball
            },
            ..self
        }
    }

    /// Step 3: both paddles pushed back out of the walls.
    pub open spec fn paddles_clamped(self) -> Play {
        Play { l_paddle: clamp_paddle(self.l_paddle), r_paddle: clamp_paddle(self.r_paddle), ..self }
    }

    /// Both ball speeds escalated after a bounce.
    pub open spec fn escalated(self) -> Play {
        Play {
            ball_x_movement: escalate(self.ball_x_movement as int) as i64,
            ball_y_movement: escalate(self.ball_y_movement as int) as i64,
            ..self
        }
    }

    /// Step 4: the ball bounced off the bottom wall, or else off the top wall.
    pub open spec fn walls_bounced(self) -> Play {
        if bottom_wall().overlaps(self.ball) {
            Play {
                ball: Rectangle { y: (bottom_wall().y - self.ball.h - NUDGE) as i64, ..self.ball },
                ball_y_movement: (-self.ball_y_movement) as i64,
                ..self
            }.escalated()
        } else if top_wall().overlaps(self.ball) {
            Play {
                ball: Rectangle { y: (top_wall().y + top_wall().h + NUDGE) as i64, ..self.ball },
                ball_y_movement: (-self.ball_y_movement) as i64,
                ..self
            }.escalated()
        } else {
            self
        }
    }

    /// Step 5: the ball bounced off the left paddle, or else off the right one.
    pub open spec fn paddles_bounced(self) -> Play {
        if self.l_paddle.overlaps(self.ball) {
            Play {
                ball: Rectangle {
                    x: (self.l_paddle.x + self.l_paddle.w + NUDGE) as i64,
                    ..self.ball
                },
                ball_x_movement: (-self.ball_x_movement) as i64,
                ..self
            }.escalated()
        } else if self.r_paddle.overlaps(self.ball) {
            Play {
                ball: Rectangle { x: (self.r_paddle.x - self.ball.w - NUDGE) as i64, ..self.ball },
                ball_x_movement: (-self.ball_x_movement) as i64,
                ..self
            }.escalated()
        } else {
            self
        }
    }

    /// A new round: ball and paddles centred, countdown restarted, and the
    /// ball served right and down at the base speed.
    pub open spec fn new_round(self) -> Play {
        Play {
            ball: Rectangle {
                x: (UNIT / 2 - self.ball.w / 2) as i64,
                y: (UNIT / 2 - self.ball.h / 2) as i64,
                ..self.ball
            },
            l_paddle: Rectangle { y: (UNIT / 2 - self.l_paddle.h / 2) as i64, ..self.l_paddle },
            r_paddle: Rectangle { y: (UNIT / 2 - self.r_paddle.h / 2) as i64, ..self.r_paddle },
            countdown: COUNTDOWN,
            ball_x_movement: BALL_VELOCITY,
            ball_y_movement: BALL_VELOCITY,
            ..self
        }
    }

    /// Step 7: a ball on or past the left goal line scores for the right
    /// player, one on or past the right goal line for the left player.
    pub open spec fn goals_scored(self) -> Play {
        if self.ball.x <= 0 {
            Play {
                right: Player { points: (self.right.points + 1) as u8, ..self.right },
                ..self.new_round()
            }
        } else if self.ball.x + self.ball.w >= UNIT {
            Play {
                left: Player { points: (self.left.points + 1) as u8, ..self.left },
                ..self.new_round()
            }
        } else {
            self
        }
    }

    /// One `advance` of `dt` milliseconds: while the countdown runs only the
    /// countdown moves; once it reaches zero, a full physics step is taken.
    pub open spec fn step(self, dt: int) -> Play {
        let c = self.countdown_after(dt);
        if c != 0 {
            Play { countdown: c as u64, ..self }
        } else {
            Play { countdown: 0, ..self }.integrated(dt).paddles_clamped().walls_bounced()
                .paddles_bounced().goals_scored()
        }
    }

    /// A player has reached the winning number of points.
    pub open spec fn won(self) -> bool {
        self.left.points >= WIN_POINTS || self.right.points >= WIN_POINTS
    }
}

/// An escalated speed stays within the allowed magnitudes, and so does a negated one.
pub proof fn lemma_escalate_speed_ok(v: int)
    requires
        speed_ok(v),
    ensures
        speed_ok(escalate(v)),
        speed_ok(-v),
        escalate(v) < 0 <==> v < 0,
{
    let m = abs(v);
    assert(m * 11 / 10 >= m) by (nonlinear_arith)
        requires
            m >= 0,
    ;
}

/// `pos + v * dt`, held within `[-FAR, FAR]`.
fn moved(pos: i64, v: i64, dt: u64) -> (r: i64)
    requires
        -FAR <= pos <= FAR,
        -PADDLE_VELOCITY <= v <= PADDLE_VELOCITY,
    ensures
        r == bounded(pos + v * dt),
{
    let d = dt as i128;
    let vv = v as i128;
    assert(-1000 * d <= vv * d <= 1000 * d) by (nonlinear_arith)
        requires
            -1000 <= vv <= 1000,
            d >= 0,
    ;
    let t: i128 = pos as i128 + vv * d;
    if t < -(FAR as i128) {
        -FAR
    } else if t > FAR as i128 {
        FAR
    } else {
        t as i64
    }
}

/// The speed after a bounce, as `escalate` states it.
fn escalate_speed(v: i64) -> (r: i64)
    requires
        speed_ok(v as int),
    ensures
        r == escalate(v as int),
{
    let m: i64 = if v < 0 {
        -v
    } else {
        v
    };
    let s: i64 = m * ESCALATION_NUM / ESCALATION_DEN;
    let c: i64 = if s > BALL_MAX_VELOCITY {
        BALL_MAX_VELOCITY
    } else {
        s
    };
    if v < 0 {
        -c
    } else {
        c
    }
}

/// A paddle pushed back out of a wall, as `clamp_paddle` states it.
fn clamp_paddle_exec(r: Rectangle) -> (out: Rectangle)
    requires
        r.h == PADDLE_H,
        -FAR <= r.y <= FAR,
    ensures
        out == clamp_paddle(r),
{
    let top = Rectangle { x: 0, y: 0, w: UNIT, h: WALL_THICKNESS };
    let bottom = Rectangle { x: 0, y: UNIT - WALL_THICKNESS, w: UNIT, h: WALL_THICKNESS };
    if r.y < top.y + top.h {
        Rectangle { y: top.y + top.h + NUDGE, ..r }
    } else if r.y > bottom.y - r.h {
        Rectangle { y: bottom.y - r.h - NUDGE, ..r }
    } else {
        r
    }
}

impl Play {
    /// The state at the start of a match.
    pub fn new() -> (r: Play)
        ensures
            r == Play::initial(),
            r.wf(),
    {
        Play {
            ball: Rectangle {
                x: UNIT / 2 - BALL_W / 2,
                y: UNIT / 2 - BALL_H / 2,
                w: BALL_W,
                h: BALL_H,
            },
            l_paddle: Rectangle {
                x: PADDLE_MARGIN,
                y: UNIT / 2 - PADDLE_H / 2,
                w: PADDLE_W,
                h: PADDLE_H,
            },
            r_paddle: Rectangle {
                x: UNIT - PADDLE_W - PADDLE_MARGIN,
                y: UNIT / 2 - PADDLE_H / 2,
                w: PADDLE_W,
                h: PADDLE_H,
            },
            ball_x_movement: BALL_VELOCITY,
            ball_y_movement: -BALL_VELOCITY,
            left: Player { movement: 0, points: 0 },
            right: Player { movement: 0, points: 0 },
            countdown: COUNTDOWN,
        }
    }

    /// Integrate paddle and ball positions over `dt` milliseconds.
    fn apply_movement(&mut self, dt: u64)
        requires
            old(self).wf(),
        ensures
            *final(self) == old(self).integrated(dt as int),
    {
        let lv: i64 = self.left.movement as i64 * PADDLE_VELOCITY;
        let rv: i64 = self.right.movement as i64 * PADDLE_VELOCITY;
        self.l_paddle.y = moved(self.l_paddle.y, lv, dt);
        self.r_paddle.y = moved(self.r_paddle.y, rv, dt);
        self.ball.x = moved(self.ball.x, self.ball_x_movement, dt);
        self.ball.y = moved(self.ball.y, self.ball_y_movement, dt);
    }

    /// Scale both ball speeds up after a bounce.
    fn accelerate_ball(&mut self)
        requires
            speed_ok(old(self).ball_x_movement as int),
            speed_ok(old(self).ball_y_movement as int),
        ensures
            *final(self) == old(self).escalated(),
            speed_ok(final(self).ball_x_movement as int),
            speed_ok(final(self).ball_y_movement as int),
    {
        proof {
            lemma_escalate_speed_ok(self.ball_x_movement as int);
            lemma_escalate_speed_ok(self.ball_y_movement as int);
        }
        self.ball_x_movement = escalate_speed(self.ball_x_movement);
        self.ball_y_movement = escalate_speed(self.ball_y_movement);
    }

    /// Bounce the ball off the bottom wall, or else off the top wall.
    fn bounce_walls(&mut self)
        requires
            old(self).ball.h == BALL_H,
            speed_ok(old(self).ball_x_movement as int),
            speed_ok(old(self).ball_y_movement as int),
        ensures
            *final(self) == old(self).walls_bounced(),
    {
        let top = Rectangle { x: 0, y: 0, w: UNIT, h: WALL_THICKNESS };
        let bottom = Rectangle { x: 0, y: UNIT - WALL_THICKNESS, w: UNIT, h: WALL_THICKNESS };
        proof {
            lemma_escalate_speed_ok(self.ball_y_movement as int);
        }
        if bottom.collides(&self.ball) {
            self.ball.y = bottom.y - self.ball.h - NUDGE;
            self.ball_y_movement = -self.ball_y_movement;
            self.accelerate_ball();
        } else if top.collides(&self.ball) {
            self.ball.y = top.y + top.h + NUDGE;
            self.ball_y_movement = -self.ball_y_movement;
            self.accelerate_ball();
        }
    }

    /// Bounce the ball off the left paddle, or else off the right paddle.
    fn bounce_paddles(&mut self)
        requires
            old(self).ball.w == BALL_W,
            old(self).l_paddle.x == PADDLE_MARGIN,
            old(self).l_paddle.w == PADDLE_W,
            old(self).r_paddle.x == UNIT - PADDLE_W - PADDLE_MARGIN,
            speed_ok(old(self).ball_x_movement as int),
            speed_ok(old(self).ball_y_movement as int),
        ensures
            *final(self) == old(self).paddles_bounced(),
    {
        proof {
            lemma_escalate_speed_ok(self.ball_x_movement as int);
        }
        if self.l_paddle.collides(&self.ball) {
            self.ball.x = self.l_paddle.x + self.l_paddle.w + NUDGE;
            self.ball_x_movement = -self.ball_x_movement;
            self.accelerate_ball();
        } else if self.r_paddle.collides(&self.ball) {
            self.ball.x = self.r_paddle.x - self.ball.w - NUDGE;
            self.ball_x_movement = -self.ball_x_movement;
            self.accelerate_ball();
        }
    }

    /// Centre ball and paddles, restart the countdown and serve at base speed.
    fn clear_state(&mut self)
        requires
            old(self).ball.w == BALL_W,
            old(self).ball.h == BALL_H,
            old(self).l_paddle.h == PADDLE_H,
            old(self).r_paddle.h == PADDLE_H,
        ensures
            *final(self) == old(self).new_round(),
            abs(final(self).ball_x_movement as int) == BALL_VELOCITY,
            abs(final(self).ball_y_movement as int) == BALL_VELOCITY,
    {
        self.ball.x = UNIT / 2 - self.ball.w / 2;
        self.ball.y = UNIT / 2 - self.ball.h / 2;
        self.l_paddle.y = UNIT / 2 - self.l_paddle.h / 2;
        self.r_paddle.y = UNIT / 2 - self.r_paddle.h / 2;
        self.countdown = COUNTDOWN;
        self.ball_x_movement = BALL_VELOCITY;
        self.ball_y_movement = BALL_VELOCITY;
    }

    /// Award a point for a ball on or past a goal line and start a new round.
    fn score_goals(&mut self)
        requires
            old(self).ball.w == BALL_W,
            old(self).ball.h == BALL_H,
            old(self).l_paddle.h == PADDLE_H,
            old(self).r_paddle.h == PADDLE_H,
            old(self).left.points < WIN_POINTS,
            old(self).right.points < WIN_POINTS,
            -FAR <= old(self).ball.x <= FAR,
        ensures
            *final(self) == old(self).goals_scored(),
    {
        if self.ball.x <= 0 {
            self.clear_state();
            self.right.points = self.right.points + 1;
        } else if self.ball.x + self.ball.w >= UNIT {
            self.clear_state();
            self.left.points = self.left.points + 1;
        }
    }
}

/// After any `advance` of a well-formed state that leaves no winner, the state
/// is well-formed again; in particular both ball speeds stay within
/// `[BALL_VELOCITY, BALL_MAX_VELOCITY]` in magnitude.
pub proof fn lemma_step_wf(p: Play, dt: int)
    requires
        p.wf(),
        dt >= 0,
    ensures
        speed_ok(p.step(dt).ball_x_movement as int),
        speed_ok(p.step(dt).ball_y_movement as int),
        p.step(dt).left.points <= WIN_POINTS,
        p.step(dt).right.points <= WIN_POINTS,
        !p.step(dt).won() ==> p.step(dt).wf(),
{
    let c = p.countdown_after(dt);
    if c == 0 {
        let q1 = Play { countdown: 0, ..p }.integrated(dt);
        let q2 = q1.paddles_clamped();
        let q3 = q2.walls_bounced();
        let q4 = q3.paddles_bounced();
        lemma_escalate_speed_ok(q2.ball_x_movement as int);
        lemma_escalate_speed_ok(q2.ball_y_movement as int);
        lemma_escalate_speed_ok(-q2.ball_y_movement);
        assert(speed_ok(q3.ball_x_movement as int) && speed_ok(q3.ball_y_movement as int));
        lemma_escalate_speed_ok(q3.ball_x_movement as int);
        lemma_escalate_speed_ok(q3.ball_y_movement as int);
        lemma_escalate_speed_ok(-q3.ball_x_movement);
        assert(speed_ok(q4.ball_x_movement as int) && speed_ok(q4.ball_y_movement as int));
        assert(!q2.l_paddle.overlaps(top_wall()) && !q2.l_paddle.overlaps(bottom_wall()));
        assert(!q2.r_paddle.overlaps(top_wall()) && !q2.r_paddle.overlaps(bottom_wall()));
        assert(!bottom_wall().overlaps(q3.ball) && !top_wall().overlaps(q3.ball));
        assert(!bottom_wall().overlaps(q4.ball) && !top_wall().overlaps(q4.ball));
        assert(!q4.l_paddle.overlaps(q4.ball) && !q4.r_paddle.overlaps(q4.ball));
    }
}

/// Both paddles are between the walls after any `advance`, however long the
/// frame: a paddle that would end past a wall is put back inside.
pub proof fn lemma_paddles_between_walls(p: Play, dt: int)
    requires
        p.wf(),
        0 <= dt,
    ensures
        between_walls(p.step(dt).l_paddle),
        between_walls(p.step(dt).r_paddle),
{
    if p.countdown_after(dt) == 0 {
        let q2 = Play { countdown: 0, ..p }.integrated(dt).paddles_clamped();
        assert(between_walls(q2.l_paddle) && between_walls(q2.r_paddle));
        let q4 = q2.walls_bounced().paddles_bounced();
        assert(q4.l_paddle == q2.l_paddle && q4.r_paddle == q2.r_paddle);
    }
}

/// Ball speeds stay within `[BALL_VELOCITY, BALL_MAX_VELOCITY]` in magnitude
/// on both axes after any `advance`, and a point restarts them at exactly
/// `BALL_VELOCITY`.
pub proof fn lemma_ball_speed_bounded(p: Play, dt: int)
    requires
        p.wf(),
        0 <= dt,
    ensures
        speed_ok(p.step(dt).ball_x_movement as int),
        speed_ok(p.step(dt).ball_y_movement as int),
        p.step(dt).left.points != p.left.points || p.step(dt).right.points != p.right.points
            ==> abs(p.step(dt).ball_x_movement as int) == BALL_VELOCITY && abs(
            p.step(dt).ball_y_movement as int,
        ) == BALL_VELOCITY,
{
    lemma_step_wf(p, dt);
}

/// `advance(0)` changes neither positions, nor velocities, nor scores: the
/// play stays exactly as it was.
pub proof fn lemma_advance_zero(p: Play)
    requires
        p.wf(),
    ensures
        p.step(0) == p,
{
    if p.countdown_after(0) == 0 {
        let q1 = Play { countdown: 0, ..p }.integrated(0);
        assert(q1 == p);
    }
}

impl Play {
    /// One `advance` of `dt` milliseconds, as `step` states it.
    pub fn advance(&mut self, dt: u64)
        requires
            old(self).wf(),
        ensures
            *final(self) == old(self).step(dt as int),
    {
        proof {
            lemma_step_wf(*self, dt as int);
        }
        let spent: u64 = if dt < self.countdown {
            dt
        } else {
            self.countdown
        };
        self.countdown = self.countdown - spent;
        if self.countdown != 0 {
            return;
        }
        let ghost before = *self;
        self.apply_movement(dt);
        self.l_paddle = clamp_paddle_exec(self.l_paddle);
        self.r_paddle = clamp_paddle_exec(self.r_paddle);
        self.bounce_walls();
        proof {
            let q2 = before.integrated(dt as int).paddles_clamped();
            lemma_escalate_speed_ok(q2.ball_x_movement as int);
            lemma_escalate_speed_ok(q2.ball_y_movement as int);
            lemma_escalate_speed_ok(-q2.ball_y_movement);
        }
        self.bounce_paddles();
        self.score_goals();
    }
}

impl Play {
    /// The state after the key `key` was pressed: UP and DOWN steer the
    /// right paddle, W and S the left one; other keys change nothing.
    pub open spec fn pressed(self, key: u16) -> Play {
        if key == KEY_UP {
            Play { right: Player { movement: -1i8, ..self.right }, ..self }
        } else if key == KEY_DOWN {
            Play { right: Player { movement: 1, ..self.right }, ..self }
        } else if key == KEY_W {
            Play { left: Player { movement: -1i8, ..self.left }, ..self }
        } else if key == KEY_S {
            Play { left: Player { movement: 1, ..self.left }, ..self }
        } else {
            self
        }
    }

    /// The state after the key `key` was released: a paddle stops only when
    /// the released key is the one it is moving by.
    pub open spec fn released(self, key: u16) -> Play {
        if key == KEY_UP && self.right.movement < 0 {
            Play { right: Player { movement: 0, ..self.right }, ..self }
        } else if key == KEY_DOWN && self.right.movement > 0 {
            Play { right: Player { movement: 0, ..self.right }, ..self }
        } else if key == KEY_W && self.left.movement < 0 {
            Play { left: Player { movement: 0, ..self.left }, ..self }
        } else if key == KEY_S && self.left.movement > 0 {
            Play { left: Player { movement: 0, ..self.left }, ..self }
        } else {
            self
        }
    }
}

/// Horizontal position of the left player's score.
pub const LEFT_SCORE_X: i64 = 350_000;

/// Horizontal position of the right player's score.
pub const RIGHT_SCORE_X: i64 = 650_000;

/// Vertical position of both scores.
pub const SCORE_Y: i64 = 150_000;

/// The in-match scene: the state of play, the walls and the two score texts.
pub struct Court {
    pub play: Play,
    pub top_wall: Rectangle,
    pub bottom_wall: Rectangle,
    pub left_score: Text,
    pub right_score: Text,
}

impl Court {
    /// The play is well-formed, the walls stand in place and each score text
    /// shows its player's points.
    pub open spec fn wf(&self) -> bool {
        &&& self.play.wf()
        &&& self.top_wall == top_wall()
        &&& self.bottom_wall == bottom_wall()
        &&& self.left_score.text@ == decimal(self.play.left.points as nat)
        &&& self.right_score.text@ == decimal(self.play.right.points as nat)
        &&& self.left_score.x == LEFT_SCORE_X && self.left_score.y == SCORE_Y
        &&& self.right_score.x == RIGHT_SCORE_X && self.right_score.y == SCORE_Y
        &&& self.left_score.size == TextSize::Big && self.right_score.size == TextSize::Big
    }

    /// A court as built at the start of a match.
    pub open spec fn is_fresh(&self) -> bool {
        self.wf() && self.play == Play::initial()
    }

    /// `d` draws ball, left and right paddle, top and bottom wall, left and
    /// right score, in that order.
    pub open spec fn shown_by(&self, d: Seq<Draw>) -> bool {
        &&& d.len() == 7
        &&& draws_rect(d[0], self.play.ball)
        &&& draws_rect(d[1], self.play.l_paddle)
        &&& draws_rect(d[2], self.play.r_paddle)
        &&& draws_rect(d[3], self.top_wall)
        &&& draws_rect(d[4], self.bottom_wall)
        &&& draws_text(d[5], self.left_score)
        &&& draws_text(d[6], self.right_score)
    }

    /// `r` is what `advance(dt)` owes: the results scene with the final
    /// scores when the step leaves a winner, else a court with the stepped play.
    pub open spec fn ticked_to(&self, dt: int, r: Scene) -> bool {
        let p = self.play.step(dt);
        &&& r.wf()
        &&& p.won() ==> (r matches Scene::EndGame(e) && e.l_score == p.left.points && e.r_score
            == p.right.points && !e.selected)
        &&& !p.won() ==> (r matches Scene::Court(c) && c.play == p)
    }

    /// Build the court of a new match.
    pub fn new() -> (r: Court)
        ensures
            r.is_fresh(),
    {
        let mut left: Vec<u16> = Vec::new();
        push_decimal(&mut left, 0);
        let mut right: Vec<u16> = Vec::new();
        push_decimal(&mut right, 0);
        Court {
            play: Play::new(),
            top_wall: Rectangle { x: 0, y: 0, w: UNIT, h: WALL_THICKNESS },
            bottom_wall: Rectangle { x: 0, y: UNIT - WALL_THICKNESS, w: UNIT, h: WALL_THICKNESS },
            left_score: Text { x: LEFT_SCORE_X, y: SCORE_Y, text: left, size: TextSize::Big },
            right_score: Text { x: RIGHT_SCORE_X, y: SCORE_Y, text: right, size: TextSize::Big },
        }
    }

    /// Advance the match by `dt` milliseconds. When a player reaches the
    /// winning points the match ends with the final scores; otherwise the
    /// court goes on with the stepped play and score texts that follow it.
    pub fn tick(self, dt: u64) -> (r: Scene)
        requires
            self.wf(),
        ensures
            self.ticked_to(dt as int, r),
    {
        proof {
            lemma_step_wf(self.play, dt as int);
        }
        let mut c = self;
        let before = c.play;
        c.play.advance(dt);
        if c.play.left.points >= WIN_POINTS || c.play.right.points >= WIN_POINTS {
            return Scene::EndGame(EndGame::new(c.play.left.points, c.play.right.points));
        }
        if c.play.left.points != before.left.points {
            c.left_score.set_text(c.play.left.points as u64);
        }
        if c.play.right.points != before.right.points {
            c.right_score.set_text(c.play.right.points as u64);
        }
        Scene::Court(c)
    }

    /// Handle a pressed key, as `Play::pressed` states it.
    pub fn key_down(self, key: u16) -> (r: Court)
        requires
            self.wf(),
        ensures
            r.wf(),
            r == (Court { play: self.play.pressed(key), ..self }),
    {
        let mut c = self;
        if key == KEY_UP {
            c.play.right.movement = -1;
        } else if key == KEY_DOWN {
            c.play.right.movement = 1;
        } else if key == KEY_W {
            c.play.left.movement = -1;
        } else if key == KEY_S {
            c.play.left.movement = 1;
        }
        c
    }

    /// Handle a released key, as `Play::released` states it.
    pub fn key_up(self, key: u16) -> (r: Court)
        requires
            self.wf(),
        ensures
            r.wf(),
            r == (Court { play: self.play.released(key), ..self }),
    {
        let mut c = self;
        if key == KEY_UP && c.play.right.movement < 0 {
            c.play.right.movement = 0;
        } else if key == KEY_DOWN && c.play.right.movement > 0 {
            c.play.right.movement = 0;
        } else if key == KEY_W && c.play.left.movement < 0 {
            c.play.left.movement = 0;
        } else if key == KEY_S && c.play.left.movement > 0 {
            c.play.left.movement = 0;
        }
        c
    }

    /// Draw requests, as `shown_by` lists them.
    pub fn draw(&self) -> (r: Vec<Draw>)
        ensures
            self.shown_by(r@),
    {
        let mut out: Vec<Draw> = Vec::new();
        out.push(Draw::Rect(self.play.ball));
        out.push(Draw::Rect(self.play.l_paddle));
        out.push(Draw::Rect(self.play.r_paddle));
        out.push(Draw::Rect(self.top_wall));
        out.push(Draw::Rect(self.bottom_wall));
        out.push(Draw::Label(self.left_score.duplicate()));
        out.push(Draw::Label(self.right_score.duplicate()));
        out
    }
}

} // verus!
