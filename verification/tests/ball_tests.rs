use pong::components::ball::Ball;
use pong::game::constants::{BALL_SPEED, PIXEL, SCREEN_HEIGHT, SCREEN_WIDTH, SECOND};

#[test]
fn test_new_ball() {
    let ball = Ball::new();
    assert_eq!(ball.x, SCREEN_WIDTH / 2);
    assert_eq!(ball.y, SCREEN_HEIGHT / 2);
    assert_eq!(ball.dx, 0);
    assert_eq!(ball.dy, 0);
    assert!(!ball.is_moving());
}

#[test]
fn test_ball_movement() {
    let mut ball = Ball::new();
    ball.dx = BALL_SPEED;
    ball.dy = BALL_SPEED;
    let initial_x = ball.x;
    let initial_y = ball.y;

    ball.update(SECOND);

    assert_eq!(ball.x, initial_x + BALL_SPEED * PIXEL);
    assert_eq!(ball.y, initial_y + BALL_SPEED * PIXEL);
}

#[test]
fn test_ball_reset() {
    let mut ball = Ball::new();

    // After a point of player 2 the serve goes to player 1, on the left.
    ball.reset(Some(2));
    assert_eq!(ball.x, SCREEN_WIDTH / 2, "x position incorrect after reset(Some(2))");
    assert_eq!(ball.y, SCREEN_HEIGHT / 2, "y position incorrect after reset(Some(2))");
    assert!(!ball.is_moving());
    ball.launch();
    assert_eq!(ball.dx, -BALL_SPEED, "dx incorrect after reset(Some(2))");
    assert!(ball.dy.abs() == BALL_SPEED, "dy magnitude incorrect after reset(Some(2))");

    // After a point of player 1 the serve goes to player 2, on the right.
    ball.reset(Some(1));
    assert_eq!(ball.x, SCREEN_WIDTH / 2, "x position incorrect after reset(Some(1))");
    assert_eq!(ball.y, SCREEN_HEIGHT / 2, "y position incorrect after reset(Some(1))");
    assert!(!ball.is_moving());
    ball.launch();
    assert_eq!(ball.dx, BALL_SPEED, "dx incorrect after reset(Some(1))");
    assert!(ball.dy.abs() == BALL_SPEED, "dy magnitude incorrect after reset(Some(1))");
}

#[test]
fn test_direction_reversal() {
    let mut ball = Ball::new();
    ball.dx = BALL_SPEED;
    ball.dy = BALL_SPEED;

    ball.reverse_dx();
    assert_eq!(ball.dx, -BALL_SPEED);

    ball.reverse_dy();
    assert_eq!(ball.dy, -BALL_SPEED);
}

#[test]
fn test_ball_stop() {
    let mut ball = Ball::new();
    ball.dx = BALL_SPEED;
    ball.dy = BALL_SPEED;
    assert!(ball.is_moving());

    ball.stop();
    assert_eq!(ball.dx, 0);
    assert_eq!(ball.dy, 0);
    assert!(!ball.is_moving());
}

#[test]
fn test_random_reset() {
    let mut ball = Ball::new();
    ball.reset(None);
    ball.launch();
    assert!(ball.is_moving());
    assert!(ball.dx.abs() == BALL_SPEED);
    assert!(ball.dy.abs() == BALL_SPEED);
}

#[test]
fn test_ball_movement_is_linear() {
    let mut ball = Ball::new();
    ball.x = 100 * PIXEL;
    ball.y = 200 * PIXEL;
    ball.dx = -BALL_SPEED;
    ball.dy = BALL_SPEED;

    // A sixtieth of a second at 300 pixels per second is 5.0001 pixels.
    ball.update(16_667);
    assert_eq!(ball.x, 100 * PIXEL - 5_000_100);
    assert_eq!(ball.y, 200 * PIXEL + 5_000_100);

    // Two flights add up to one flight of their total time.
    ball.update(83_333);
    assert_eq!(ball.x, 100 * PIXEL - 30 * PIXEL);
    assert_eq!(ball.y, 200 * PIXEL + 30 * PIXEL);
    assert_eq!(ball.dx, -BALL_SPEED);
    assert_eq!(ball.dy, BALL_SPEED);
}

#[test]
fn test_ball_movement_without_time_or_speed() {
    let mut ball = Ball::new();
    ball.dx = BALL_SPEED;
    ball.dy = -BALL_SPEED;
    let before = ball;
    ball.update(0);
    assert_eq!(ball, before);

    let mut still = Ball::new();
    still.update(u32::MAX);
    assert_eq!(still, Ball::new());
}

#[test]
fn test_ball_leaves_field_unclamped() {
    let mut ball = Ball::new();
    ball.dx = BALL_SPEED;
    ball.dy = -BALL_SPEED;
    ball.update(10 * SECOND);
    assert_eq!(ball.x, SCREEN_WIDTH / 2 + 3000 * PIXEL);
    assert_eq!(ball.y, SCREEN_HEIGHT / 2 - 3000 * PIXEL);
}

#[test]
fn test_reversal_twice_restores() {
    let mut ball = Ball::new();
    ball.dx = -BALL_SPEED;
    ball.dy = BALL_SPEED;
    ball.reverse_dx();
    ball.reverse_dy();
    assert_eq!((ball.dx, ball.dy), (BALL_SPEED, -BALL_SPEED));
    ball.reverse_dx();
    ball.reverse_dy();
    assert_eq!((ball.dx, ball.dy), (-BALL_SPEED, BALL_SPEED));
    assert_eq!(ball.x, SCREEN_WIDTH / 2);
    assert_eq!(ball.y, SCREEN_HEIGHT / 2);
}

#[test]
fn test_is_moving_needs_one_speed() {
    let mut ball = Ball::new();
    ball.dx = 1;
    assert!(ball.is_moving());
    ball.dx = 0;
    ball.dy = -1;
    assert!(ball.is_moving());
    ball.dy = 0;
    assert!(!ball.is_moving());
}

#[test]
fn test_launch_with_follows_last_winner() {
    for right in [false, true] {
        for down in [false, true] {
            let dy = if down { BALL_SPEED } else { -BALL_SPEED };

            let mut ball = Ball::new();
            ball.reset(Some(1));
            ball.launch_with(right, down);
            assert_eq!((ball.dx, ball.dy), (BALL_SPEED, dy));

            ball.reset(Some(2));
            ball.launch_with(right, down);
            assert_eq!((ball.dx, ball.dy), (-BALL_SPEED, dy));

            ball.reset(None);
            ball.launch_with(right, down);
            assert_eq!(ball.dx, if right { BALL_SPEED } else { -BALL_SPEED });
            assert_eq!(ball.dy, dy);

            ball.reset(Some(7));
            ball.launch_with(right, down);
            assert_eq!(ball.dx, if right { BALL_SPEED } else { -BALL_SPEED });
        }
    }
}

#[test]
fn test_launch_keeps_position() {
    let mut ball = Ball::new();
    ball.x = 123;
    ball.y = 456;
    ball.launch_with(true, false);
    assert_eq!((ball.x, ball.y), (123, 456));
    assert_eq!(ball.last_winner, None);
}

#[test]
fn test_serve_after_point_is_never_random() {
    let mut ball = Ball::new();
    for _ in 0..200 {
        ball.reset(Some(1));
        ball.launch();
        assert_eq!(ball.dx, BALL_SPEED);
        ball.reset(Some(2));
        ball.launch();
        assert_eq!(ball.dx, -BALL_SPEED);
    }
}

#[test]
fn test_first_serve_is_fair() {
    let mut ball = Ball::new();
    let mut right = 0;
    let mut down = 0;
    for _ in 0..1000 {
        ball.reset(None);
        ball.launch();
        assert!(ball.dx.abs() == BALL_SPEED);
        assert!(ball.dy.abs() == BALL_SPEED);
        if ball.dx > 0 {
            right += 1;
        }
        if ball.dy > 0 {
            down += 1;
        }
    }
    assert!(right > 350 && right < 650, "{} of 1000 serves went right", right);
    assert!(down > 350 && down < 650, "{} of 1000 serves went down", down);
}
