use pong::components::paddle::Paddle;
use pong::game::constants::{PADDLE_HEIGHT, PADDLE_MAX_Y, PIXEL, SCREEN_HEIGHT};

#[test]
fn test_new_paddle() {
    let paddle = Paddle::new(10 * PIXEL, 20 * PIXEL);
    assert_eq!(paddle.x, 10 * PIXEL);
    assert_eq!(paddle.y, 20 * PIXEL);
}

#[test]
fn test_paddle_move_within_bounds() {
    let mut paddle = Paddle::new(0, SCREEN_HEIGHT / 2);
    let initial_y = paddle.y;

    // Move up
    paddle.move_by(-50 * PIXEL);
    assert!(paddle.y < initial_y);

    // Move to initial position
    paddle.move_by(50 * PIXEL);

    // Move down
    paddle.move_by(50 * PIXEL);
    assert!(paddle.y > initial_y);
}

#[test]
fn test_paddle_upper_boundary() {
    let mut paddle = Paddle::new(0, 10 * PIXEL);

    // Try to move past top boundary
    paddle.move_by(-100 * PIXEL);
    assert_eq!(paddle.y, 0);
}

#[test]
fn test_paddle_lower_boundary() {
    let mut paddle = Paddle::new(0, SCREEN_HEIGHT - PADDLE_HEIGHT - 10 * PIXEL);

    // Try to move past bottom boundary
    paddle.move_by(100 * PIXEL);
    assert_eq!(paddle.y, SCREEN_HEIGHT - PADDLE_HEIGHT);
}

#[test]
fn test_paddle_max_is_field_less_paddle() {
    assert_eq!(PADDLE_MAX_Y, SCREEN_HEIGHT - PADDLE_HEIGHT);
}

#[test]
fn test_paddle_move_exact() {
    let mut paddle = Paddle::new(7, 300 * PIXEL);
    paddle.move_by(-50 * PIXEL);
    assert_eq!(paddle.y, 250 * PIXEL);
    paddle.move_by(50 * PIXEL);
    assert_eq!(paddle.y, 300 * PIXEL);
    paddle.move_by(1);
    assert_eq!(paddle.y, 300 * PIXEL + 1);
    paddle.move_by(0);
    assert_eq!(paddle.y, 300 * PIXEL + 1);
    assert_eq!(paddle.x, 7);
}

#[test]
fn test_paddle_at_top_stays_at_top() {
    let mut paddle = Paddle::new(0, 0);
    paddle.move_by(-50 * PIXEL);
    assert_eq!(paddle.y, 0);
}

#[test]
fn test_paddle_clamp_is_idempotent() {
    let mut paddle = Paddle::new(0, 400 * PIXEL);
    for _ in 0..5 {
        paddle.move_by(150 * PIXEL);
        assert_eq!(paddle.y, PADDLE_MAX_Y);
    }
    for _ in 0..5 {
        paddle.move_by(-600 * PIXEL);
        assert_eq!(paddle.y, 0);
    }
}

#[test]
fn test_paddle_clamps_extreme_moves() {
    let mut paddle = Paddle::new(0, 250 * PIXEL);
    paddle.move_by(i64::MAX);
    assert_eq!(paddle.y, PADDLE_MAX_Y);
    paddle.move_by(i64::MIN);
    assert_eq!(paddle.y, 0);

    let mut stray = Paddle::new(0, i64::MAX);
    stray.move_by(i64::MAX);
    assert_eq!(stray.y, PADDLE_MAX_Y);
    let mut stray = Paddle::new(0, i64::MIN);
    stray.move_by(-1);
    assert_eq!(stray.y, 0);
    let mut stray = Paddle::new(0, -5 * PIXEL);
    stray.move_by(0);
    assert_eq!(stray.y, 0);
}

#[test]
fn test_paddle_stops_exactly_on_bounds() {
    let mut paddle = Paddle::new(0, 10 * PIXEL);
    paddle.move_by(-10 * PIXEL);
    assert_eq!(paddle.y, 0);
    paddle.move_by(PADDLE_MAX_Y);
    assert_eq!(paddle.y, PADDLE_MAX_Y);
    paddle.move_by(1);
    assert_eq!(paddle.y, PADDLE_MAX_Y);
    paddle.move_by(-1);
    assert_eq!(paddle.y, PADDLE_MAX_Y - 1);
}
