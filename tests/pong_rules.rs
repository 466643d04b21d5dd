use pong::ball::Ball;
use pong::game::{Controls, Game, GameState, Rolls, Side, WINNING_SCORE};
use pong::geometry::{displace, Vec2, SCREEN_HEIGHT, SCREEN_WIDTH};
use pong::paddle::Paddle;
use pong::sound::SoundKind;

fn left_paddle() -> Paddle {
    Paddle::new(30_000, 90_000, 15_000, 59_000)
}

fn ball_at(x: i64, y: i64) -> Ball {
    let mut b = Ball::new();
    b.xy = Vec2::new(x, y);
    b
}

fn no_keys() -> Controls {
    Controls { left_up: false, left_down: false, right_up: false, right_down: false }
}

fn rolls() -> Rolls {
    Rolls { serve_speed: 150_000, serve_rise: -20_000, left_rebound: 40_000, right_rebound: 90_000 }
}

fn play(left: u32, right: u32, ball: Ball) -> Game {
    let mut g = Game::new();
    g.state = GameState::Play;
    g.player1_score = left;
    g.player2_score = right;
    g.ball = ball;
    g
}

#[test]
fn ball_far_from_paddle_does_not_collide() {
    assert!(!ball_at(640_000, 354_000).collides(&left_paddle()));
}

#[test]
fn ball_on_paddle_collides() {
    assert!(ball_at(35_000, 100_000).collides(&left_paddle()));
}

#[test]
fn collision_reverses_and_speeds_up() {
    let mut b = ball_at(35_000, 100_000);
    b.delta = Vec2::new(-150_000, -30_000);
    assert!(b.collides(&left_paddle()));
    b.bounce_off_paddle(45_000, 70_000);
    assert_eq!(b.delta.x, 154_500);
    assert_eq!(b.delta.y, -70_000);
    assert_eq!(b.xy.x, 45_000);
}

#[test]
fn collision_in_a_frame_of_play() {
    let mut b = ball_at(35_000, 100_000);
    b.delta = Vec2::new(-150_000, 10_000);
    let mut g = play(0, 0, b);
    let sounds = g.update(0, no_keys(), rolls());
    assert_eq!(sounds, vec![SoundKind::PaddleHit]);
    assert_eq!(g.ball.delta.x, 154_500);
    assert_eq!(g.ball.delta.y, 40_000);
    assert_eq!(g.ball.xy.x, 45_000);
    assert_eq!(g.state, GameState::Play);
}

#[test]
fn edge_contact_is_no_collision() {
    let p = left_paddle();
    // left edge of the ball on the paddle's right edge
    assert!(!ball_at(45_000, 100_000).collides(&p));
    // right edge of the ball on the paddle's left edge
    assert!(!ball_at(18_000, 100_000).collides(&p));
    // bottom edge of the ball on the paddle's top edge
    assert!(!ball_at(35_000, 78_000).collides(&p));
    // top edge of the ball on the paddle's bottom edge
    assert!(!ball_at(35_000, 149_000).collides(&p));
    // one unit further in, they overlap
    assert!(ball_at(44_999, 100_000).collides(&p));
}

#[test]
fn collision_is_symmetric() {
    let p = left_paddle();
    for (x, y) in [(35_000, 100_000), (640_000, 354_000), (45_000, 100_000), (20_000, 80_000)] {
        let b = ball_at(x, y);
        // the paddle seen as a ball-sized box test, with the roles swapped
        let mut q = Ball::new();
        q.xy = p.xy;
        q.size = p.size;
        let as_paddle = Paddle::new(b.xy.x, b.xy.y, b.size.x, b.size.y);
        assert_eq!(b.collides(&p), q.collides(&as_paddle));
    }
}

#[test]
fn paddle_stops_at_top() {
    let mut p = left_paddle();
    p.set_velocity_y(-200_000);
    p.update(1_000_000);
    assert_eq!(p.xy.y, 0);
}

#[test]
fn paddle_stops_at_bottom() {
    let mut p = Paddle::new(30_000, 600_000, 15_000, 59_000);
    p.set_velocity_y(200_000);
    p.update(2_000_000);
    assert_eq!(p.xy.y, SCREEN_HEIGHT - 59_000);
}

#[test]
fn paddle_below_screen_is_clamped() {
    let mut p = Paddle::new(30_000, 700_000, 15_000, 59_000);
    p.set_velocity_y(-1_000);
    p.update(1_000);
    assert_eq!(p.xy.y, 661_000);
    let mut q = Paddle::new(30_000, -5_000, 15_000, 59_000);
    q.update(16_000);
    assert_eq!(q.xy.y, 0);
}

#[test]
fn paddle_moves_by_speed_times_time() {
    let mut p = left_paddle();
    p.set_velocity_y(200_000);
    p.update(16_667);
    assert_eq!(p.xy.y, 90_000 + 3_333);
}

#[test]
fn displacement_rounds_toward_zero() {
    assert_eq!(displace(200_000, 16_667), 3_333);
    assert_eq!(displace(-200_000, 16_667), -3_333);
    assert_eq!(displace(0, u32::MAX), 0);
}

#[test]
fn two_confirms_reach_play() {
    let mut g = Game::new();
    assert_eq!(g.state, GameState::Start);
    g.confirm();
    assert_eq!(g.state, GameState::Serve);
    g.confirm();
    assert_eq!(g.state, GameState::Play);
}

#[test]
fn ten_points_against_left_end_the_match() {
    let mut g = play(0, 0, Ball::new());
    for i in 0..10u32 {
        assert_eq!(g.state, GameState::Play);
        g.score_against(Side::Left);
        assert_eq!(g.player2_score, i + 1);
        if g.state == GameState::Serve {
            g.confirm();
        }
    }
    assert_eq!(g.state, GameState::Done);
    assert_eq!(g.winning_player, Some(Side::Right));
    assert_eq!(g.player2_score, WINNING_SCORE);
}

#[test]
fn scored_side_serves_next() {
    let mut g = play(0, 0, Ball::new());
    g.score_against(Side::Left);
    assert_eq!(g.serving_player, Side::Left);
    assert_eq!(g.player2_score, 1);
    g.confirm();
    g.score_against(Side::Right);
    assert_eq!(g.serving_player, Side::Right);
    assert_eq!(g.player1_score, 1);
}

#[test]
fn speed_grows_three_percent_per_hit() {
    let start: i64 = 150_000;
    let mut b = ball_at(35_000, 100_000);
    b.delta = Vec2::new(-start, 10_000);
    for n in 1..=20i32 {
        let x = if n % 2 == 1 { 45_000 } else { 1_000_000 };
        b.bounce_off_paddle(x, 50_000);
        let ideal = (start as f64) * 1.03f64.powi(n);
        let speed = b.delta.x.abs() as f64;
        assert!(speed <= ideal + 1e-6);
        assert!(speed > ideal - 33.0);
    }
}

#[test]
fn right_reaching_winning_score_ends_match() {
    let mut g = play(7, 9, ball_at(-1_000, 300_000));
    let sounds = g.update(16_000, no_keys(), rolls());
    assert_eq!(sounds, vec![SoundKind::Score]);
    assert_eq!(g.player2_score, 10);
    assert_eq!(g.player1_score, 7);
    assert_eq!(g.state, GameState::Done);
    assert_eq!(g.winning_player, Some(Side::Right));
}

#[test]
fn point_for_left_resets_ball_and_serves_right() {
    let mut b = ball_at(SCREEN_WIDTH + 1, 300_000);
    b.delta = Vec2::new(180_000, 0);
    let mut g = play(3, 4, b);
    let sounds = g.update(16_000, no_keys(), rolls());
    assert_eq!(sounds, vec![SoundKind::Score]);
    assert_eq!(g.player1_score, 4);
    assert_eq!(g.state, GameState::Serve);
    assert_eq!(g.serving_player, Side::Right);
    assert_eq!(g.ball.xy, Vec2::new(634_000, 354_000));
    assert_eq!(g.ball.delta, Vec2::new(0, 0));
}

#[test]
fn restart_lets_loser_serve() {
    let mut g = play(9, 0, ball_at(SCREEN_WIDTH + 5, 300_000));
    g.update(0, no_keys(), rolls());
    assert_eq!(g.state, GameState::Done);
    assert_eq!(g.winning_player, Some(Side::Left));
    g.confirm();
    assert_eq!(g.state, GameState::Serve);
    assert_eq!(g.serving_player, Side::Right);
    assert_eq!((g.player1_score, g.player2_score), (0, 0));
}

#[test]
fn serve_draws_velocity_toward_receiver() {
    let mut g = Game::new();
    g.confirm();
    g.update(16_000, no_keys(), rolls());
    assert_eq!(g.ball.delta, Vec2::new(150_000, -20_000));
    assert_eq!(g.ball.xy, Vec2::new(634_000, 354_000));
    g.serving_player = Side::Right;
    g.update(16_000, no_keys(), rolls());
    assert_eq!(g.ball.delta, Vec2::new(-150_000, -20_000));
}

#[test]
fn wall_bounce_reverses_vertical_velocity() {
    let mut b = ball_at(600_000, -5_000);
    b.delta = Vec2::new(100_000, -60_000);
    let mut g = play(0, 0, b);
    let sounds = g.update(0, no_keys(), rolls());
    assert_eq!(sounds, vec![SoundKind::WallHit]);
    assert_eq!(g.ball.xy.y, 0);
    assert_eq!(g.ball.delta.y, 60_000);
    let mut b2 = ball_at(600_000, SCREEN_HEIGHT);
    b2.delta = Vec2::new(100_000, 60_000);
    assert!(b2.bounce_off_walls());
    assert_eq!(b2.xy.y, SCREEN_HEIGHT - 12_000);
    assert_eq!(b2.delta.y, -60_000);
}

#[test]
fn ball_moves_only_in_play() {
    let mut b = ball_at(600_000, 300_000);
    b.delta = Vec2::new(100_000, -50_000);
    let mut g = play(0, 0, b);
    g.update(500_000, no_keys(), rolls());
    assert_eq!(g.ball.xy, Vec2::new(650_000, 275_000));
    let mut s = Game::new();
    s.update(500_000, no_keys(), rolls());
    assert_eq!(s.ball.xy, Vec2::new(634_000, 354_000));
}

#[test]
fn keys_steer_paddles() {
    let mut g = Game::new();
    let keys = Controls { left_up: true, left_down: true, right_up: false, right_down: true };
    g.update(100_000, keys, rolls());
    assert_eq!(g.player1.dy, -200_000);
    assert_eq!(g.player1.xy.y, 70_000);
    assert_eq!(g.player2.dy, 200_000);
    assert_eq!(g.player2.xy.y, 630_000 + 20_000);
}

#[test]
fn reset_restores_canonical_ball() {
    let mut b = ball_at(5, 7);
    b.size = Vec2::new(1, 1);
    b.delta = Vec2::new(3, 4);
    b.reset();
    assert_eq!(b.xy, Vec2::new(634_000, 354_000));
    assert_eq!(b.size, Vec2::new(12_000, 12_000));
    assert_eq!(b.delta, Vec2::new(0, 0));
}

#[test]
fn tick_serves_within_drawn_ranges() {
    let mut g = Game::new();
    g.confirm();
    g.tick(16_000, no_keys());
    assert!(g.ball.delta.x >= 140_000 && g.ball.delta.x < 200_000);
    assert!(g.ball.delta.y >= -50_000 && g.ball.delta.y < 50_000);
    g.serving_player = Side::Right;
    g.tick(16_000, no_keys());
    assert!(g.ball.delta.x <= -140_000 && g.ball.delta.x > -200_000);
}
