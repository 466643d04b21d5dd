//! A Pong match: phases, scores, serves, and the per-frame update of paddles and ball.
use crate::ball::{Ball, BALL_SIZE};
use crate::geometry::{abs, lemma_displacement_bounded, Vec2, MAX_STEP, SCREEN_HEIGHT, SCREEN_WIDTH};
use crate::paddle::Paddle;
use crate::random::random_between;
use crate::sound::SoundKind;
use vstd::prelude::*;

verus! {

/// Points that win a match.
pub const WINNING_SCORE: u32 = 10;

/// Speed of a paddle while its key is held (200 pixels per second).
pub const PADDLE_SPEED: i64 = 200_000;

/// Distance of each paddle from its side of the screen.
pub const PADDLE_MARGIN: i64 = 30_000;

/// Distance of the left paddle's top from the top of the screen, and of the right paddle's top
/// from the bottom, when a match starts.
pub const PADDLE_OFFSET: i64 = 90_000;

pub const PADDLE_WIDTH: i64 = 15_000;

pub const PADDLE_HEIGHT: i64 = 59_000;

/// Horizontal serve speed: drawn from `SERVE_SPEED_MIN..SERVE_SPEED_MAX`.
pub const SERVE_SPEED_MIN: i64 = 140_000;

pub const SERVE_SPEED_MAX: i64 = 200_000;

/// Vertical serve velocity: drawn from `-SERVE_RISE_MAX..SERVE_RISE_MAX`.
pub const SERVE_RISE_MAX: i64 = 50_000;

/// Vertical speed after a paddle hit: drawn from `REBOUND_RISE_MIN..REBOUND_RISE_MAX`.
pub const REBOUND_RISE_MIN: i64 = 10_000;

pub const REBOUND_RISE_MAX: i64 = 150_000;

/// Bound on the ball's coordinates between frames: the screen and one frame of motion.
pub const FIELD_BOUND: i64 = SCREEN_WIDTH + MAX_STEP;

/// Phase of a match.
#[derive(Clone, Copy, Debug, PartialEq, Eq, Structural)]
pub enum GameState {
    Start,
    Serve,
    Play,
    Done,
}

#[derive(Clone, Copy, Debug, PartialEq, Eq, Structural)]
pub enum Side {
    Left,
    Right,
}

impl Side {
    pub open spec fn opposite(self) -> Side {
        match self {
            Side::Left => Side::Right,
            Side::Right => Side::Left,
        }
    }
}

/// Keys held during a frame: up and down for each player.
#[derive(Clone, Copy, Debug, PartialEq, Eq, Structural)]
pub struct Controls {
    pub left_up: bool,
    pub left_down: bool,
    pub right_up: bool,
    pub right_down: bool,
}

/// The random numbers that one frame may use.
#[derive(Clone, Copy, Debug, PartialEq, Eq, Structural)]
pub struct Rolls {
    /// Horizontal serve speed.
    pub serve_speed: i64,
    /// Vertical serve velocity.
    pub serve_rise: i64,
    /// Vertical speed after a hit on the left paddle.
    pub left_rebound: i64,
    /// Vertical speed after a hit on the right paddle.
    pub right_rebound: i64,
}

impl Rolls {
    /// Each number lies in the range it is drawn from.
    pub open spec fn valid(&self) -> bool {
        &&& SERVE_SPEED_MIN <= self.serve_speed < SERVE_SPEED_MAX
        &&& -SERVE_RISE_MAX <= self.serve_rise < SERVE_RISE_MAX
        &&& REBOUND_RISE_MIN <= self.left_rebound < REBOUND_RISE_MAX
        &&& REBOUND_RISE_MIN <= self.right_rebound < REBOUND_RISE_MAX
    }
}

/// Vertical paddle speed for the keys held: up wins over down, and no key stops the paddle.
pub open spec fn steering(up: bool, down: bool) -> int {
    if up {
        -PADDLE_SPEED
    } else if down {
        PADDLE_SPEED as int
    } else {
        0
    }
}

pub fn paddle_speed(up: bool, down: bool) -> (r: i64)
    ensures
        r == steering(up, down),
{
    if up {
        -PADDLE_SPEED
    } else if down {
        PADDLE_SPEED
    } else {
        0
    }
}

pub struct Game {
    pub state: GameState,
    /// Points of the left player.
    pub player1_score: u32,
    /// Points of the right player.
    pub player2_score: u32,
    pub winning_player: Option<Side>,
    pub serving_player: Side,
    /// The left paddle.
    pub player1: Paddle,
    /// The right paddle.
    pub player2: Paddle,
    pub ball: Ball,
}

impl Game {
    /// Points of one side.
    pub open spec fn score_of(&self, side: Side) -> int {
        match side {
            Side::Left => self.player1_score as int,
            Side::Right => self.player2_score as int,
        }
    }

    /// A match in progress: entities within range, paddles on the field, and a winner recorded
    /// exactly when the match is over.
    pub open spec fn wf(&self) -> bool {
        &&& self.player1.wf()
        &&& self.player2.wf()
        &&& self.ball.wf()
        &&& 0 <= self.player1.xy.x <= SCREEN_WIDTH
        &&& 0 <= self.player1.size.x <= SCREEN_WIDTH
        &&& 0 <= self.player2.xy.x <= SCREEN_WIDTH
        &&& 0 <= self.player2.size.x <= SCREEN_WIDTH
        &&& abs(self.ball.xy.x as int) <= FIELD_BOUND
        &&& abs(self.ball.xy.y as int) <= FIELD_BOUND
        &&& self.state != GameState::Done ==> {
            &&& self.player1_score < WINNING_SCORE
            &&& self.player2_score < WINNING_SCORE
        }
        &&& self.state == GameState::Done ==> {
            &&& self.winning_player is Some
            &&& self.score_of(self.winning_player->0) == WINNING_SCORE
            &&& self.score_of(self.winning_player->0.opposite()) < WINNING_SCORE
        }
    }

    /// A new match: waiting for the first confirm, no points, the left side to serve.
    pub open spec fn initial() -> Game {
        Game {
            state: GameState::Start,
            player1_score: 0,
            player2_score: 0,
            winning_player: None,
            serving_player: Side::Left,
            player1: Paddle {
                xy: Vec2 { x: PADDLE_MARGIN, y: PADDLE_OFFSET },
                size: Vec2 { x: PADDLE_WIDTH, y: PADDLE_HEIGHT },
                dy: 0,
            },
            player2: Paddle {
                xy: Vec2 { x: (SCREEN_WIDTH - PADDLE_MARGIN) as i64, y: (SCREEN_HEIGHT - PADDLE_OFFSET) as i64 },
                size: Vec2 { x: PADDLE_WIDTH, y: PADDLE_HEIGHT },
                dy: 0,
            },
            ball: Ball::centered(),
        }
    }

    /// The match after the ball got past `side`: the other side gains a point, `side` serves
    /// next, and the match is over when that point is the winning one; otherwise the ball is
    /// put back in the middle for the next serve.
    pub open spec fn scored_against(self, side: Side) -> Game {
        let winner = side.opposite();
        let points = self.score_of(winner) + 1;
        let g = match winner {
            Side::Left => Game { player1_score: points as u32, serving_player: side, ..self },
            Side::Right => Game { player2_score: points as u32, serving_player: side, ..self },
        };
        if points == WINNING_SCORE {
            Game { state: GameState::Done, winning_player: Some(winner), ..g }
        } else {
            Game { state: GameState::Serve, ball: Ball::centered(), ..g }
        }
    }

    /// The match after a confirm key press.
    pub open spec fn confirmed(self) -> Game {
        match self.state {
            GameState::Start => Game { state: GameState::Serve, ..self },
            GameState::Serve => Game { state: GameState::Play, ..self },
            GameState::Play => self,
            GameState::Done => Game {
                state: GameState::Serve,
                player1_score: 0,
                player2_score: 0,
                serving_player: if self.winning_player == Some(Side::Left) {
                    Side::Right
                } else {
                    Side::Left
                },
                ball: Ball::centered(),
                ..self
            },
        }
    }

    /// Serve velocity: toward the side that does not serve, at the drawn speeds.
    pub open spec fn serve_velocity(side: Side, rolls: Rolls) -> Vec2 {
        Vec2 {
            x: (if side == Side::Left { rolls.serve_speed as int } else { -rolls.serve_speed }) as i64,
            y: rolls.serve_rise,
        }
    }

    /// The ball after the left paddle, if it touches it.
    pub open spec fn left_return(self, rolls: Rolls) -> Ball {
        if self.ball.touches(self.player1) {
            self.ball.after_paddle_hit(self.player1.xy.x + self.player1.size.x, rolls.left_rebound as int)
        } else {
            self.ball
        }
    }

    /// The ball after both paddles, if it touches them.
    pub open spec fn right_return(self, rolls: Rolls) -> Ball {
        let b = self.left_return(rolls);
        if b.touches(self.player2) {
            b.after_paddle_hit(self.player2.xy.x - BALL_SIZE, rolls.right_rebound as int)
        } else {
            b
        }
    }

    /// One frame of play before motion: paddle hits, wall bounces, and a point when the ball
    /// has left the field to the left or to the right.
    pub open spec fn rallied(self, rolls: Rolls) -> Game {
        let b = self.right_return(rolls).after_walls();
        let g = Game { ball: b, ..self };
        if b.xy.x < 0 {
            g.scored_against(Side::Left)
        } else if b.xy.x > SCREEN_WIDTH {
            g.scored_against(Side::Right)
        } else {
            g
        }
    }

    /// Sounds of one frame of play, in order.
    pub open spec fn rally_sounds(self, rolls: Rolls) -> Seq<SoundKind> {
        let b1 = self.left_return(rolls);
        let b2 = self.right_return(rolls);
        let b3 = b2.after_walls();
        (if self.ball.touches(self.player1) { seq![SoundKind::PaddleHit] } else { seq![] })
            + (if b1.touches(self.player2) { seq![SoundKind::PaddleHit] } else { seq![] })
            + (if b2.hits_wall() { seq![SoundKind::WallHit] } else { seq![] })
            + (if b3.xy.x < 0 || b3.xy.x > SCREEN_WIDTH { seq![SoundKind::Score] } else { seq![] })
    }

    /// The match after one frame of `dt` microseconds with `controls` held: the phase's own
    /// step (a new serve velocity while serving, the rally while playing), then the paddles
    /// steered and moved, and the ball moved while in play.
    pub open spec fn frame(self, dt: int, controls: Controls, rolls: Rolls) -> Game {
        let g = match self.state {
            GameState::Serve => Game {
                ball: Ball { delta: Game::serve_velocity(self.serving_player, rolls), ..self.ball },
                ..self
            },
            GameState::Play => self.rallied(rolls),
            _ => self,
        };
        let left = Paddle { dy: steering(controls.left_up, controls.left_down) as i64, ..g.player1 };
        let right = Paddle { dy: steering(controls.right_up, controls.right_down) as i64, ..g.player2 };
        Game {
            player1: left.moved(dt),
            player2: right.moved(dt),
            ball: if g.state == GameState::Play { g.ball.moved(dt) } else { g.ball },
            ..g
        }
    }

    /// Sounds of one frame, in order.
    pub open spec fn frame_sounds(self, rolls: Rolls) -> Seq<SoundKind> {
        if self.state == GameState::Play {
            self.rally_sounds(rolls)
        } else {
            seq![]
        }
    }

    pub fn new() -> (r: Game)
        ensures
            r == Game::initial(),
            r.wf(),
    {
        Game {
            state: GameState::Start,
            player1_score: 0,
            player2_score: 0,
            winning_player: None,
            serving_player: Side::Left,
            player1: Paddle::new(PADDLE_MARGIN, PADDLE_OFFSET, PADDLE_WIDTH, PADDLE_HEIGHT),
            player2: Paddle::new(
                SCREEN_WIDTH - PADDLE_MARGIN,
                SCREEN_HEIGHT - PADDLE_OFFSET,
                PADDLE_WIDTH,
                PADDLE_HEIGHT,
            ),
            ball: Ball::new(),
        }
    }

    /// Handles a confirm key press: starts, serves, or restarts the match.
    pub fn confirm(&mut self)
        requires
            old(self).wf(),
        ensures
            *final(self) == old(self).confirmed(),
            final(self).wf(),
    {
        match self.state {
            GameState::Start => {
                self.state = GameState::Serve;
            },
            GameState::Serve => {
                self.state = GameState::Play;
            },
            GameState::Play => {},
            GameState::Done => {
                self.state = GameState::Serve;
                self.ball.reset();
                self.player1_score = 0;
                self.player2_score = 0;
                self.serving_player = match self.winning_player {
                    Some(Side::Left) => Side::Right,
                    _ => Side::Left,
                };
            },
        }
    }

    /// Records a point against `side`: see `scored_against`.
    pub fn score_against(&mut self, side: Side)
        requires
            old(self).wf(),
            old(self).state != GameState::Done,
        ensures
            *final(self) == old(self).scored_against(side),
            final(self).wf(),
    {
        self.serving_player = side;
        let (points, winner) = match side {
            Side::Left => {
                self.player2_score = self.player2_score + 1;
                (self.player2_score, Side::Right)
            },
            Side::Right => {
                self.player1_score = self.player1_score + 1;
                (self.player1_score, Side::Left)
            },
        };
        if points == WINNING_SCORE {
            self.winning_player = Some(winner);
            self.state = GameState::Done;
        } else {
            self.state = GameState::Serve;
            self.ball.reset();
        }
    }

    /// One frame of play before motion: see `rallied`. Returns the sounds of the frame.
    fn rally(&mut self, rolls: Rolls) -> (sounds: Vec<SoundKind>)
        requires
            old(self).wf(),
            old(self).state == GameState::Play,
            rolls.valid(),
        ensures
            *final(self) == old(self).rallied(rolls),
            sounds@ == old(self).rally_sounds(rolls),
            final(self).wf(),
            final(self).state == GameState::Play ==> {
                &&& 0 <= final(self).ball.xy.x <= SCREEN_WIDTH
                &&& 0 <= final(self).ball.xy.y <= SCREEN_HEIGHT
            },
    {
        let ghost g0 = *self;
        let mut sounds: Vec<SoundKind> = Vec::new();
        if self.ball.collides(&self.player1) {
            let x = self.player1.xy.x + self.player1.size.x;
            self.ball.bounce_off_paddle(x, rolls.left_rebound);
            sounds.push(SoundKind::PaddleHit);
        }
        assert(self.ball == g0.left_return(rolls));
        let ghost s1 = sounds@;
        if self.ball.collides(&self.player2) {
            let x = self.player2.xy.x - BALL_SIZE;
            self.ball.bounce_off_paddle(x, rolls.right_rebound);
            sounds.push(SoundKind::PaddleHit);
        }
        assert(self.ball == g0.right_return(rolls));
        let ghost s2 = sounds@;
        if self.ball.bounce_off_walls() {
            sounds.push(SoundKind::WallHit);
        }
        let ghost s3 = sounds@;
        if self.ball.xy.x < 0 {
            self.score_against(Side::Left);
            sounds.push(SoundKind::Score);
        } else if self.ball.xy.x > SCREEN_WIDTH {
            self.score_against(Side::Right);
            sounds.push(SoundKind::Score);
        }
        assert(sounds@ =~= g0.rally_sounds(rolls));
        sounds
    }

    /// Advances the match by one frame of `dt` microseconds with `controls` held, using `rolls`
    /// for whatever the frame draws at random. Returns the sounds to play, in order.
    pub fn update(&mut self, dt: u32, controls: Controls, rolls: Rolls) -> (sounds: Vec<SoundKind>)
        requires
            old(self).wf(),
            rolls.valid(),
        ensures
            *final(self) == old(self).frame(dt as int, controls, rolls),
            sounds@ == old(self).frame_sounds(rolls),
            final(self).wf(),
    {
        let mut sounds: Vec<SoundKind> = Vec::new();
        match self.state {
            GameState::Serve => {
                self.ball.delta.y = rolls.serve_rise;
                self.ball.delta.x = match self.serving_player {
                    Side::Left => rolls.serve_speed,
                    Side::Right => -rolls.serve_speed,
                };
            },
            GameState::Play => {
                sounds = self.rally(rolls);
            },
            _ => {},
        }
        self.player1.set_velocity_y(paddle_speed(controls.left_up, controls.left_down));
        self.player2.set_velocity_y(paddle_speed(controls.right_up, controls.right_down));
        if self.state == GameState::Play {
            proof {
                lemma_displacement_bounded(self.ball.delta.x as int, dt as int);
                lemma_displacement_bounded(self.ball.delta.y as int, dt as int);
            }
            self.ball.update(dt);
        }
        self.player1.update(dt);
        self.player2.update(dt);
        sounds
    }

    /// Advances the match by one frame, drawing the frame's random numbers.
    pub fn tick(&mut self, dt: u32, controls: Controls) -> (sounds: Vec<SoundKind>)
        requires
            old(self).wf(),
        ensures
            final(self).wf(),
            exists|rolls: Rolls|
                {
                    &&& rolls.valid()
                    &&& *final(self) == #[trigger] old(self).frame(dt as int, controls, rolls)
                    &&& sounds@ == old(self).frame_sounds(rolls)
                },
    {
        let rolls = Rolls {
            serve_speed: random_between(SERVE_SPEED_MIN, SERVE_SPEED_MAX),
            serve_rise: random_between(-SERVE_RISE_MAX, SERVE_RISE_MAX),
            left_rebound: random_between(REBOUND_RISE_MIN, REBOUND_RISE_MAX),
            right_rebound: random_between(REBOUND_RISE_MIN, REBOUND_RISE_MAX),
        };
        let ghost g0 = *self;
        let sounds = self.update(dt, controls, rolls);
        assert(*self == g0.frame(dt as int, controls, rolls));
        sounds
    }
}

/// A rally lost by `side`: the point against it, then, while the match goes on, the confirm
/// that serves again.
pub open spec fn rally_lost(g: Game, side: Side) -> Game {
    let s = g.scored_against(side);
    if s.state == GameState::Serve {
        s.confirmed()
    } else {
        s
    }
}

/// `n` rallies in a row lost by `side`.
pub open spec fn rallies_lost(g: Game, side: Side, n: nat) -> Game
    decreases n,
{
    if n == 0 {
        g
    } else {
        rally_lost(rallies_lost(g, side, (n - 1) as nat), side)
    }
}

/// From the opening screen, two confirms start play.
pub proof fn lemma_two_confirms_start_play(g: Game)
    requires
        g.state == GameState::Start,
    ensures
        g.confirmed().state == GameState::Serve,
        g.confirmed().confirmed().state == GameState::Play,
{
}

/// After a point against `side`, `side` serves next.
pub proof fn lemma_scored_side_serves(g: Game, side: Side)
    ensures
        g.scored_against(side).serving_player == side,
{
}

/// After a finished match is restarted, the side that did not win serves.
pub proof fn lemma_loser_serves_after_restart(g: Game)
    requires
        g.wf(),
        g.state == GameState::Done,
    ensures
        g.confirmed().state == GameState::Serve,
        g.confirmed().serving_player == g.winning_player->0.opposite(),
        g.confirmed().player1_score == 0,
        g.confirmed().player2_score == 0,
{
}

proof fn lemma_rallies_lost_before_win(g: Game, side: Side, n: nat)
    requires
        g.state == GameState::Play,
        g.score_of(side.opposite()) == 0,
        n < WINNING_SCORE,
    ensures
        rallies_lost(g, side, n).state == GameState::Play,
        rallies_lost(g, side, n).score_of(side.opposite()) == n,
    decreases n,
{
    if n > 0 {
        lemma_rallies_lost_before_win(g, side, (n - 1) as nat);
    }
}

/// From play, with the other side at no points, `WINNING_SCORE` rallies in a row lost by
/// `side` end the match, won by the other side.
pub proof fn lemma_straight_points_win(g: Game, side: Side)
    requires
        g.state == GameState::Play,
        g.score_of(side.opposite()) == 0,
    ensures
        rallies_lost(g, side, WINNING_SCORE as nat).state == GameState::Done,
        rallies_lost(g, side, WINNING_SCORE as nat).winning_player == Some(side.opposite()),
        rallies_lost(g, side, WINNING_SCORE as nat).score_of(side.opposite()) == WINNING_SCORE,
{
    lemma_rallies_lost_before_win(g, side, (WINNING_SCORE - 1) as nat);
    assert(rallies_lost(g, side, WINNING_SCORE as nat) == rally_lost(
        rallies_lost(g, side, (WINNING_SCORE - 1) as nat),
        side,
    ));
}

} // verus!
