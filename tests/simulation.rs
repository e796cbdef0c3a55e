use pong::field::{Zone, UNIT};
use pong::game::Game;
use pong::game_input::{GameInputState, PaddleState};

fn idle() -> GameInputState {
    GameInputState::default()
}

fn p1(state: PaddleState) -> GameInputState {
    GameInputState { p1_paddle_state: state, p2_paddle_state: PaddleState::Stopped }
}

#[test]
fn default_game_matches_initial_state() {
    let g = Game::default();
    assert_eq!(g.score, (0, 0));
    assert_eq!(g.ball, (0, 0));
    assert_eq!(g.ball_v, (550, 275));
    assert_eq!(g.p1_pos, (0, 5000));
    assert_eq!(g.p2_pos, (0, 5000));
    assert_eq!(UNIT, 10000);
}

#[test]
fn reflection_negates_velocity_before_moving() {
    let mut g = Game::default();
    g.ball = (9500, 5000);
    g.ball_v = (550, 275);
    g.update(idle());
    assert_eq!(g.ball_v, (-550, 275));
    assert_eq!(g.ball, (8950, 5275));
}

#[test]
fn vertical_reflection_is_inclusive_at_zero() {
    let mut g = Game::default();
    g.ball = (5000, 275);
    g.ball_v = (550, -275);
    g.update(idle());
    assert_eq!(g.ball_v, (550, 275));
    assert_eq!(g.ball, (5550, 550));
}

#[test]
fn horizontal_reflection_is_exclusive_at_zero() {
    let mut g = Game::default();
    g.ball = (550, 5000);
    g.ball_v = (-550, 275);
    g.update(idle());
    assert_eq!(g.ball_v, (-550, 275));
    assert_eq!(g.ball, (0, 5275));
    g.update(idle());
    assert_eq!(g.ball_v, (550, 275));
    assert_eq!(g.ball, (550, 5550));
}

#[test]
fn bounce_stays_in_field_at_largest_speed() {
    let mut g = Game::default();
    g.ball = (9999, 1);
    g.ball_v = (5000, -5000);
    g.update(idle());
    assert_eq!(g.ball_v, (-5000, 5000));
    assert_eq!(g.ball, (4999, 5001));
    assert!(g.ball.0 >= 0 && g.ball.0 <= UNIT);
    assert!(g.ball.1 >= 0 && g.ball.1 <= UNIT);
}

#[test]
fn paddle_up_is_clamped() {
    let mut g = Game::default();
    g.p1_pos = (0, 9000);
    g.update(p1(PaddleState::MovingUp));
    assert_eq!(g.p1_pos, (0, 10000));
}

#[test]
fn paddle_up_moves_one_step() {
    let mut g = Game::default();
    g.update(p1(PaddleState::MovingUp));
    assert_eq!(g.p1_pos, (0, 7200));
}

#[test]
fn paddle_down_moves_one_step_and_is_clamped() {
    let mut g = Game::default();
    g.update(p1(PaddleState::MovingDown));
    assert_eq!(g.p1_pos, (0, 2800));
    g.update(p1(PaddleState::MovingDown));
    assert_eq!(g.p1_pos, (0, 600));
    g.update(p1(PaddleState::MovingDown));
    assert_eq!(g.p1_pos, (0, 0));
}

#[test]
fn player_two_input_moves_nothing() {
    let mut g = Game::default();
    g.update(GameInputState {
        p1_paddle_state: PaddleState::Stopped,
        p2_paddle_state: PaddleState::MovingUp,
    });
    assert_eq!(g.p1_pos, (0, 5000));
    assert_eq!(g.p2_pos, (0, 5000));
}

#[test]
fn ten_idle_steps_from_default() {
    let mut g = Game::default();
    for _ in 0..10 {
        g.update(idle());
    }
    // neither axis reaches an edge in ten steps
    assert_eq!(g.ball, (5500, 2750));
    assert_eq!(g.ball_v, (550, 275));
    assert_eq!(g.p1_pos, (0, 5000));
}

#[test]
fn first_horizontal_reflection_from_default() {
    let mut g = Game::default();
    for _ in 0..18 {
        g.update(idle());
    }
    assert_eq!(g.ball, (9900, 4950));
    assert_eq!(g.ball_v, (550, 275));
    g.update(idle());
    assert_eq!(g.ball, (9350, 5225));
    assert_eq!(g.ball_v, (-550, 275));
}

#[test]
fn zone_edges() {
    assert_eq!(pong::field::zone(0), Zone::Low);
    assert_eq!(pong::field::zone(3300), Zone::Low);
    assert_eq!(pong::field::zone(3301), Zone::Mid);
    assert_eq!(pong::field::zone(6599), Zone::Mid);
    assert_eq!(pong::field::zone(6600), Zone::High);
    assert_eq!(pong::field::zone(9999), Zone::High);
}

#[test]
fn zone_ignores_whole_cells() {
    assert_eq!(pong::field::zone(43300), Zone::Low);
    assert_eq!(pong::field::zone(45000), Zone::Mid);
    assert_eq!(pong::field::zone(76600), Zone::High);
    assert_eq!(pong::field::zone(80000), Zone::Low);
}
