//! The ball: a square that moves freely, bounces off paddles and walls.
use crate::geometry::{
    abs, lemma_overlap_symmetric, displace, displacement, overlaps, Vec2, MAX_COORD, MAX_SPEED, MAX_STEP, SCREEN_HEIGHT,
    SCREEN_WIDTH,
};
use crate::paddle::Paddle;
use vstd::arithmetic::power::{lemma_pow_positive, pow};
use vstd::prelude::*;

verus! {

/// Side length of the ball (12 pixels).
pub const BALL_SIZE: i64 = 12_000;

/// Horizontal speed gained on each paddle hit, in percent of the speed before it.
pub const SPEEDUP_PERCENT: i64 = 103;

pub struct Ball {
    /// Top-left corner.
    pub xy: Vec2,
    /// Width and height.
    pub size: Vec2,
    /// Velocity, in units per second.
    pub delta: Vec2,
}

/// Horizontal speed after one paddle hit: 3% faster, rounded down, and never past `MAX_SPEED`.
pub open spec fn escalated(s: int) -> int {
    let e = s * SPEEDUP_PERCENT / 100;
    if e > MAX_SPEED {
        MAX_SPEED as int
    } else {
        e
    }
}

/// Horizontal speed after `n` paddle hits, starting from `s`.
pub open spec fn speed_after_hits(s: int, n: nat) -> int
    decreases n,
{
    if n == 0 {
        s
    } else {
        escalated(speed_after_hits(s, (n - 1) as nat))
    }
}

/// Bounds on the speed `v` after `n` hits that never reach `MAX_SPEED`: it is at most
/// `s * 1.03^n`, and rounding down at each hit keeps `v - 33` at least `(s - 33) * 1.03^n`, so
/// the shortfall is at most `33 * (1.03^n - 1)` units.
pub proof fn lemma_speed_after_hits(s: int, n: nat)
    requires
        0 <= s,
        s * pow(103, n) <= MAX_SPEED * pow(100, n),
    ensures
        0 <= speed_after_hits(s, n),
        speed_after_hits(s, n) * pow(100, n) <= s * pow(103, n),
        (s - 33) * pow(103, n) <= (speed_after_hits(s, n) - 33) * pow(100, n),
    decreases n,
{
    reveal(pow);
    if n > 0 {
        let m = (n - 1) as nat;
        let a = pow(103, m);
        let b = pow(100, m);
        lemma_pow_positive(103, m);
        lemma_pow_positive(100, m);
        assert(pow(103, n) == 103 * a);
        assert(pow(100, n) == 100 * b);
        let big = MAX_SPEED as int;
        assert(s * a <= big * b) by (nonlinear_arith)
            requires
                s * (103 * a) <= big * (100 * b),
                a > 0,
                b > 0,
                s >= 0,
                big > 0,
        ;
        lemma_speed_after_hits(s, m);
        let p = speed_after_hits(s, m);
        let e = p * 103 / 100;
        assert(103 * p - 99 <= e * 100 <= 103 * p);
        assert(e <= big) by (nonlinear_arith)
            requires
                e * 100 <= 103 * p,
                p * b <= s * a,
                s * (103 * a) <= big * (100 * b),
                b > 0,
                p >= 0,
        ;
        assert(speed_after_hits(s, n) == e);
        assert(e * (100 * b) <= s * (103 * a)) by (nonlinear_arith)
            requires
                e * 100 <= 103 * p,
                p * b <= s * a,
                b > 0,
        ;
        assert((s - 33) * (103 * a) <= (e - 33) * (100 * b)) by (nonlinear_arith)
            requires
                103 * (p - 33) <= (e - 33) * 100,
                (s - 33) * a <= (p - 33) * b,
                b > 0,
        ;
    }
}

/// Each hit along a rally sets the horizontal speed to the escalation of the one before.
proof fn lemma_rally_follows_hits(balls: Seq<Ball>, xs: Seq<int>, rolls: Seq<int>, k: nat)
    requires
        balls.len() == xs.len() + 1,
        rolls.len() == xs.len(),
        forall|i: int|
            0 <= i < xs.len() ==> balls[i + 1] == #[trigger] balls[i].after_paddle_hit(xs[i], rolls[i]),
        k <= xs.len(),
    ensures
        abs(balls[k as int].delta.x as int) == speed_after_hits(abs(balls[0].delta.x as int), k),
    decreases k,
{
    if k > 0 {
        let j = k - 1;
        lemma_rally_follows_hits(balls, xs, rolls, j as nat);
        assert(balls[j + 1] == balls[j].after_paddle_hit(xs[j], rolls[j]));
    }
}

/// Over a rally of `n` consecutive paddle hits that stays under `MAX_SPEED`, the horizontal
/// speed is the serve speed escalated `n` times: at most the serve speed times 1.03^n, and
/// short of it by at most `33 * (1.03^n - 1)` units.
pub proof fn lemma_rally_speed(balls: Seq<Ball>, xs: Seq<int>, rolls: Seq<int>)
    requires
        balls.len() == xs.len() + 1,
        rolls.len() == xs.len(),
        forall|i: int|
            0 <= i < xs.len() ==> balls[i + 1] == #[trigger] balls[i].after_paddle_hit(xs[i], rolls[i]),
        abs(balls[0].delta.x as int) * pow(103, xs.len()) <= MAX_SPEED * pow(100, xs.len()),
    ensures
        ({
            let s = abs(balls[0].delta.x as int);
            let v = abs(balls[xs.len() as int].delta.x as int);
            let n = xs.len();
            &&& v == speed_after_hits(s, n)
            &&& v * pow(100, n) <= s * pow(103, n)
            &&& (s - 33) * pow(103, n) <= (v - 33) * pow(100, n)
        }),
{
    lemma_rally_follows_hits(balls, xs, rolls, xs.len());
    lemma_speed_after_hits(abs(balls[0].delta.x as int), xs.len());
}

impl Ball {
    /// The ball at rest in the middle of the screen.
    pub open spec fn centered() -> Ball {
        Ball {
            xy: Vec2 { x: (SCREEN_WIDTH / 2 - BALL_SIZE / 2) as i64, y: (SCREEN_HEIGHT / 2 - BALL_SIZE / 2) as i64 },
            size: Vec2 { x: BALL_SIZE, y: BALL_SIZE },
            delta: Vec2 { x: 0, y: 0 },
        }
    }

    /// Values a ball can hold: coordinates, size and velocity within range.
    pub open spec fn wf(&self) -> bool {
        &&& 0 <= self.size.x <= MAX_COORD
        &&& 0 <= self.size.y <= MAX_COORD
        &&& abs(self.xy.x as int) <= MAX_COORD
        &&& abs(self.xy.y as int) <= MAX_COORD
        &&& abs(self.delta.x as int) <= MAX_SPEED
        &&& abs(self.delta.y as int) <= MAX_SPEED
    }

    /// The ball shares some area with `paddle`.
    pub open spec fn touches(&self, paddle: Paddle) -> bool {
        overlaps(self.xy, self.size, paddle.xy, paddle.size)
    }

    /// The ball after `dt` microseconds of motion.
    pub open spec fn moved(self, dt: int) -> Ball {
        Ball {
            xy: Vec2 {
                x: (self.xy.x + displacement(self.delta.x as int, dt)) as i64,
                y: (self.xy.y + displacement(self.delta.y as int, dt)) as i64,
            },
            ..self
        }
    }

    /// The ball sent back by a paddle: placed with its left edge at `x`, its horizontal
    /// velocity reversed and sped up, its vertical speed set to `roll` in its old direction.
    pub open spec fn after_paddle_hit(self, x: int, roll: int) -> Ball {
        let s = escalated(abs(self.delta.x as int));
        Ball {
            xy: Vec2 { x: x as i64, y: self.xy.y },
            delta: Vec2 {
                x: (if self.delta.x < 0 { s } else { -s }) as i64,
                y: (if self.delta.y < 0 { -roll } else { roll }) as i64,
            },
            ..self
        }
    }

    /// The ball after the top and bottom walls: a ball at or past a wall is put back on it and
    /// its vertical velocity is reversed.
    pub open spec fn after_walls(self) -> Ball {
        if self.xy.y <= 0 {
            Ball { xy: Vec2 { x: self.xy.x, y: 0 }, delta: Vec2 { x: self.delta.x, y: (-self.delta.y) as i64 }, ..self }
        } else if self.xy.y >= SCREEN_HEIGHT - BALL_SIZE {
            Ball {
                xy: Vec2 { x: self.xy.x, y: (SCREEN_HEIGHT - BALL_SIZE) as i64 },
                delta: Vec2 { x: self.delta.x, y: (-self.delta.y) as i64 },
                ..self
            }
        } else {
            self
        }
    }

    pub open spec fn hits_wall(&self) -> bool {
        self.xy.y <= 0 || self.xy.y >= SCREEN_HEIGHT - BALL_SIZE
    }

    pub fn new() -> (r: Ball)
        ensures
            r == Ball::centered(),
            r.wf(),
    {
        Ball {
            xy: Vec2 { x: SCREEN_WIDTH / 2 - BALL_SIZE / 2, y: SCREEN_HEIGHT / 2 - BALL_SIZE / 2 },
            size: Vec2 { x: BALL_SIZE, y: BALL_SIZE },
            delta: Vec2 { x: 0, y: 0 },
        }
    }

    /// Puts the ball back at rest in the middle of the screen, with its canonical size.
    pub fn reset(&mut self)
        ensures
            *final(self) == Ball::centered(),
            final(self).wf(),
    {
        self.xy.x = SCREEN_WIDTH / 2 - BALL_SIZE / 2;
        self.xy.y = SCREEN_HEIGHT / 2 - BALL_SIZE / 2;
        self.size.x = BALL_SIZE;
        self.size.y = BALL_SIZE;
        self.delta.x = 0;
        self.delta.y = 0;
    }

    /// Whether the ball's box and the paddle's box share some area; boxes that only touch
    /// along an edge do not.
    pub fn collides(&self, paddle: &Paddle) -> (r: bool)
        requires
            self.wf(),
            paddle.wf(),
        ensures
            r == self.touches(*paddle),
    {
        if self.xy.x >= paddle.xy.x + paddle.size.x || paddle.xy.x >= self.xy.x + self.size.x {
            return false;
        }
        if self.xy.y >= paddle.xy.y + paddle.size.y || paddle.xy.y >= self.xy.y + self.size.y {
            return false;
        }
        true
    }

    /// Moves the ball by its velocity for `dt` microseconds.
    pub fn update(&mut self, dt: u32)
        requires
            old(self).wf(),
            abs(old(self).xy.x as int) <= MAX_COORD - MAX_STEP,
            abs(old(self).xy.y as int) <= MAX_COORD - MAX_STEP,
        ensures
            *final(self) == old(self).moved(dt as int),
            final(self).wf(),
    {
        let sx = displace(self.delta.x, dt);
        let sy = displace(self.delta.y, dt);
        self.xy.x = self.xy.x + sx;
        self.xy.y = self.xy.y + sy;
    }

    /// Sends the ball back from a paddle: see `after_paddle_hit`.
    pub fn bounce_off_paddle(&mut self, x: i64, roll: i64)
        requires
            old(self).wf(),
            abs(x as int) <= MAX_COORD,
            0 <= roll <= MAX_SPEED,
        ensures
            *final(self) == old(self).after_paddle_hit(x as int, roll as int),
            abs(final(self).delta.x as int) == escalated(abs(old(self).delta.x as int)),
            final(self).wf(),
    {
        let speed: i64 = if self.delta.x < 0 { -self.delta.x } else { self.delta.x };
        let faster: i64 = speed * SPEEDUP_PERCENT / 100;
        let s: i64 = if faster > MAX_SPEED { MAX_SPEED } else { faster };
        self.delta.x = if self.delta.x < 0 { s } else { -s };
        self.xy.x = x;
        self.delta.y = if self.delta.y < 0 { -roll } else { roll };
    }

    /// Bounces the ball off the top or bottom wall; returns whether it hit one.
    pub fn bounce_off_walls(&mut self) -> (hit: bool)
        requires
            old(self).wf(),
        ensures
            *final(self) == old(self).after_walls(),
            hit == old(self).hits_wall(),
            final(self).wf(),
    {
        if self.xy.y <= 0 {
            self.xy.y = 0;
            self.delta.y = -self.delta.y;
            true
        } else if self.xy.y >= SCREEN_HEIGHT - BALL_SIZE {
            self.xy.y = SCREEN_HEIGHT - BALL_SIZE;
            self.delta.y = -self.delta.y;
            true
        } else {
            false
        }
    }
}

/// A ball touches a paddle exactly when the paddle's box touches the ball's box.
pub proof fn lemma_collision_symmetric(ball: Ball, paddle: Paddle)
    ensures
        ball.touches(paddle) == overlaps(paddle.xy, paddle.size, ball.xy, ball.size),
{
    lemma_overlap_symmetric(ball.xy, ball.size, paddle.xy, paddle.size);
}

} // verus!
