//! The fixed parameters of the game.
use vstd::prelude::*;

verus! {

/// Length units in one pixel.
pub const PIXEL: i64 = 1_000_000;

/// Time units (microseconds) in one second.
pub const SECOND: u32 = 1_000_000;

/// Width of the field.
pub const SCREEN_WIDTH: i64 = 900 * PIXEL;

/// Height of the field.
pub const SCREEN_HEIGHT: i64 = 600 * PIXEL;

/// Width of a paddle.
pub const PADDLE_WIDTH: i64 = 15 * PIXEL;

/// Height of a paddle.
pub const PADDLE_HEIGHT: i64 = 100 * PIXEL;

/// Radius of the ball.
pub const BALL_RADIUS: i64 = 10 * PIXEL;

/// Speed of the keyboard-driven paddle, in pixels per second.
pub const PLAYER_PADDLE_SPEED: i64 = 500;

/// Nominal speed of the computer-driven paddle, in pixels per second.
pub const AI_PADDLE_SPEED: i64 = 300;

/// Speed of the ball along each axis, in pixels per second.
pub const BALL_SPEED: i64 = 300;

/// How close to a wall the ball's edge may come before it bounces.
pub const COLLISION_TOLERANCE: i64 = PIXEL;

/// Length of the countdown before a serve.
pub const COUNTDOWN_DURATION: u32 = 3 * SECOND;

/// How long the score board highlights the last scorer.
pub const FLASH_DURATION: u32 = 3 * SECOND;

/// Points needed to win the match.
pub const WIN_SCORE: u32 = 3;

/// How far below its nominal speed the computer-driven paddle tracks the ball.
pub const AI_HANDICAP: i64 = 10;

/// Bound of the computer's aiming error: it lies in `-AI_ERROR_MARGIN..AI_ERROR_MARGIN`.
pub const AI_ERROR_MARGIN: i64 = 3 * PIXEL;

/// Chances in a hundred that the computer-driven paddle stands still for a frame.
pub const AI_HESITATION_PERCENT: u32 = 8;

/// How far from its resting place the computer-driven paddle may stop during a countdown.
pub const AI_REST_TOLERANCE: i64 = PIXEL;

/// Highest vertical offset of a paddle.
pub const PADDLE_MAX_Y: i64 = SCREEN_HEIGHT - PADDLE_HEIGHT;

/// The identity of the player on the left, who uses the keyboard.
pub const PLAYER1: u8 = 1;

/// The identity of the player on the right, who is the computer.
pub const PLAYER2: u8 = 2;

} // verus!
