use pong::game::constants::{
    AI_ERROR_MARGIN, AI_HANDICAP, AI_PADDLE_SPEED, BALL_SPEED, COUNTDOWN_DURATION, PADDLE_MAX_Y,
    PIXEL, SECOND,
};
use pong::game::draws::Draws;
use pong::game::input::Key;
use pong::game::model::Phase;
use pong::game::state::GameState;

fn aim(error_margin: i64) -> Draws {
    Draws { serve_right: true, serve_down: true, hesitate: false, error_margin }
}

fn hesitating() -> Draws {
    Draws { serve_right: true, serve_down: true, hesitate: true, error_margin: 0 }
}

fn approaching(ball_y: i64, paddle_y: i64) -> GameState {
    let mut state = GameState::new();
    state.ball.dx = BALL_SPEED;
    state.ball.dy = BALL_SPEED;
    state.ball.y = ball_y;
    state.player2.y = paddle_y;
    state
}

#[test]
fn test_computer_follows_ball_down() {
    let mut state = approaching(400 * PIXEL, 250 * PIXEL);
    state.update_ai_paddle(SECOND / 10, aim(0));
    assert_eq!(state.player2.y, 279 * PIXEL);
    assert_eq!(AI_PADDLE_SPEED - AI_HANDICAP, 290);
}

#[test]
fn test_computer_follows_ball_up() {
    let mut state = approaching(100 * PIXEL, 250 * PIXEL);
    state.update_ai_paddle(SECOND / 10, aim(0));
    assert_eq!(state.player2.y, 221 * PIXEL);
    state.update_ai_paddle(SECOND / 100, aim(0));
    assert_eq!(state.player2.y, 218_100_000);
}

#[test]
fn test_computer_stands_when_level() {
    let mut state = approaching(300 * PIXEL, 250 * PIXEL);
    let before = state;
    state.update_ai_paddle(SECOND / 10, aim(0));
    assert_eq!(state, before);
}

#[test]
fn test_computer_hesitates() {
    let mut state = approaching(400 * PIXEL, 250 * PIXEL);
    let before = state;
    state.update_ai_paddle(SECOND, hesitating());
    assert_eq!(state, before);
}

#[test]
fn test_computer_ignores_departing_ball() {
    let mut state = approaching(400 * PIXEL, 250 * PIXEL);
    state.ball.dx = -BALL_SPEED;
    let before = state;
    state.update_ai_paddle(SECOND, aim(0));
    assert_eq!(state, before);

    state.ball.dx = 0;
    let resting = state;
    state.update_ai_paddle(SECOND, aim(0));
    assert_eq!(state, resting);
}

#[test]
fn test_aiming_error_shifts_the_target() {
    // The ball is one pixel below the paddle's centre; an error of two
    // pixels upwards makes the paddle move up instead of down.
    let mut state = approaching(301 * PIXEL, 250 * PIXEL);
    state.update_ai_paddle(SECOND / 10, aim(-2 * PIXEL));
    assert_eq!(state.player2.y, 221 * PIXEL);

    let mut state = approaching(301 * PIXEL, 250 * PIXEL);
    state.update_ai_paddle(SECOND / 10, aim(0));
    assert_eq!(state.player2.y, 279 * PIXEL);

    let mut state = approaching(301 * PIXEL, 250 * PIXEL);
    let before = state;
    state.update_ai_paddle(SECOND / 10, aim(-PIXEL));
    assert_eq!(state, before);

    let mut state = approaching(299 * PIXEL, 250 * PIXEL);
    state.update_ai_paddle(SECOND / 10, aim(AI_ERROR_MARGIN - 1));
    assert_eq!(state.player2.y, 279 * PIXEL);
}

#[test]
fn test_computer_stops_at_the_edges() {
    let mut state = approaching(590 * PIXEL, 490 * PIXEL);
    state.update_ai_paddle(SECOND / 10, aim(0));
    assert_eq!(state.player2.y, PADDLE_MAX_Y);
    state.update_ai_paddle(u32::MAX, aim(0));
    assert_eq!(state.player2.y, PADDLE_MAX_Y);

    let mut state = approaching(11 * PIXEL, 20 * PIXEL);
    state.update_ai_paddle(SECOND / 10, aim(0));
    assert_eq!(state.player2.y, 0);
    state.update_ai_paddle(u32::MAX, aim(i64::MIN));
    assert_eq!(state.player2.y, 0);
}

#[test]
fn test_computer_copes_with_extreme_errors() {
    let mut state = approaching(300 * PIXEL, 250 * PIXEL);
    state.update_ai_paddle(SECOND / 10, aim(i64::MAX));
    assert_eq!(state.player2.y, 279 * PIXEL);
    state.update_ai_paddle(SECOND / 10, aim(i64::MIN));
    assert_eq!(state.player2.y, 250 * PIXEL);
}

#[test]
fn test_computer_moves_after_the_ball_has_moved() {
    let mut state = GameState::new();
    state.key_down_event(Key::Start);
    state.update_with(COUNTDOWN_DURATION, aim(0));
    assert_eq!(state.phase(), Phase::Rallying);
    // The ball leaves the height of the paddle's centre within this frame.
    state.update_with(SECOND / 100, aim(0));
    assert_eq!(state.ball.y, 303 * PIXEL);
    assert_eq!(state.player2.y, 252_900_000);
    assert_eq!(state.player1.y, 250 * PIXEL);
}
