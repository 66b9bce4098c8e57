use pong::game::constants::{
    AI_ERROR_MARGIN, BALL_RADIUS, BALL_SPEED, COLLISION_TOLERANCE, PADDLE_MAX_Y, SCREEN_HEIGHT,
    SCREEN_WIDTH, SECOND,
};
use pong::game::draws::Draws;
use pong::game::input::Key;
use pong::game::model::Phase;
use pong::game::state::GameState;

#[test]
fn test_rolled_error_stays_within_margin_and_varies() {
    let first = Draws::roll();
    let mut varied = false;
    let mut negative = 0;
    for _ in 0..1000 {
        let draws = Draws::roll();
        assert!(draws.error_margin >= -AI_ERROR_MARGIN);
        assert!(draws.error_margin < AI_ERROR_MARGIN);
        if draws.error_margin != first.error_margin {
            varied = true;
        }
        if draws.error_margin < 0 {
            negative += 1;
        }
    }
    assert!(varied);
    assert!(negative > 350 && negative < 650, "{} of 1000 errors were negative", negative);
}

#[test]
fn test_rolled_hesitation_is_rare() {
    let mut hesitations = 0;
    let mut right = 0;
    let mut down = 0;
    for _ in 0..2000 {
        let draws = Draws::roll();
        if draws.hesitate {
            hesitations += 1;
        }
        if draws.serve_right {
            right += 1;
        }
        if draws.serve_down {
            down += 1;
        }
    }
    // Eight in a hundred: 160 of 2000 on average.
    assert!(hesitations > 60 && hesitations < 300, "{} of 2000 frames hesitated", hesitations);
    assert!(right > 800 && right < 1200, "{} of 2000 serves went right", right);
    assert!(down > 800 && down < 1200, "{} of 2000 serves went down", down);
}

#[test]
fn test_random_frames_keep_the_match_sound() {
    let mut state = GameState::new();
    state.key_down_event(Key::Start);
    state.key_down_event(Key::Down);
    let mut frames = 0;
    while !state.game_over && frames < 200_000 {
        state.update(16_667);
        frames += 1;
        assert!(state.is_valid());

        assert!(state.player1.y >= 0 && state.player1.y <= PADDLE_MAX_Y);
        assert!(state.player2.y >= 0 && state.player2.y <= PADDLE_MAX_Y);
        assert!(state.ball.x > BALL_RADIUS && state.ball.x < SCREEN_WIDTH - BALL_RADIUS);
        assert!(state.ball.y >= BALL_RADIUS + COLLISION_TOLERANCE);
        assert!(state.ball.y <= SCREEN_HEIGHT - BALL_RADIUS - COLLISION_TOLERANCE);
        assert!(state.score.player1 <= 3 && state.score.player2 <= 3);
        match state.phase() {
            Phase::Countdown => assert!(!state.ball.is_moving()),
            Phase::Rallying => {
                assert_eq!(state.ball.dx.abs(), BALL_SPEED);
                assert_eq!(state.ball.dy.abs(), BALL_SPEED);
            }
            Phase::GameOver => assert!(state.winner.is_some()),
            phase => panic!("a running match cannot be {:?}", phase),
        }
    }
    assert!(state.game_over, "no player won within {} frames", frames);
    assert!(!state.game_running);
    assert_eq!(state.clock, frames * 16_667);
    let winner = state.winner.unwrap();
    if winner == 1 {
        assert_eq!(state.score.player1, 3);
        assert!(state.score.player2 < 3);
    } else {
        assert_eq!(winner, 2);
        assert_eq!(state.score.player2, 3);
        assert!(state.score.player1 < 3);
    }
}

#[test]
fn test_random_update_of_a_countdown_serves_at_full_speed() {
    for _ in 0..50 {
        let mut state = GameState::new();
        state.key_down_event(Key::Start);
        state.update(3 * SECOND);
        assert_eq!(state.phase(), Phase::Rallying);
        assert_eq!(state.ball.dx.abs(), BALL_SPEED);
        assert_eq!(state.ball.dy.abs(), BALL_SPEED);
    }
}
