//! What holds of every match: the laws of the model, proved once for all
//! states, times and draws.
use vstd::prelude::*;
use vstd::math::abs;
use crate::components::ball::{serve_dx, serve_dy, BallModel};
use crate::game::constants::{
    AI_HANDICAP,
    AI_PADDLE_SPEED,
    BALL_RADIUS,
    BALL_SPEED,
    COLLISION_TOLERANCE,
    COUNTDOWN_DURATION,
    PADDLE_HEIGHT,
    PADDLE_WIDTH,
    PLAYER1,
    PLAYER2,
    SCREEN_HEIGHT,
    SCREEN_WIDTH,
    WIN_SCORE,
};
use crate::game::draws::Draws;
use crate::game::input::Key;
use crate::game::model::{tick, GameModel, Phase};

verus! {

/// A ball on the field that is at rest or at full speed stays within the
/// range of the machine's integers through any one frame's flight.
pub proof fn lemma_flight_fits(ball: BallModel, delta: int)
    requires
        ball.inv(),
        ball.in_field(),
        0 <= delta <= u32::MAX,
    ensures
        i64::MIN <= ball.x + ball.dx * delta <= i64::MAX,
        i64::MIN <= ball.y + ball.dy * delta <= i64::MAX,
{
    assert(-BALL_SPEED * 0x1_0000_0000 <= ball.dx * delta <= BALL_SPEED * 0x1_0000_0000)
        by (nonlinear_arith)
        requires
            -BALL_SPEED <= ball.dx <= BALL_SPEED,
            0 <= delta <= 0x1_0000_0000,
    ;
    assert(-BALL_SPEED * 0x1_0000_0000 <= ball.dy * delta <= BALL_SPEED * 0x1_0000_0000)
        by (nonlinear_arith)
        requires
            -BALL_SPEED <= ball.dy <= BALL_SPEED,
            0 <= delta <= 0x1_0000_0000,
    ;
}

/// A new match is sound and has not started.
pub proof fn lemma_initial_is_sound()
    ensures
        GameModel::initial().inv(),
        GameModel::initial().phase() == Phase::NotStarted,
{
}

/// A frame takes a sound match to a sound match, whatever is drawn.
pub proof fn lemma_update_keeps_inv(state: GameModel, delta: int, draws: Draws)
    requires
        state.inv(),
        delta >= 0,
    ensures
        state.update(delta, draws).inv(),
{
}

/// A key takes a sound match to a sound match.
pub proof fn lemma_keys_keep_inv(state: GameModel, key: Key)
    requires
        state.inv(),
    ensures
        state.key_down(key).inv(),
        state.key_up(key).inv(),
{
}

/// A frame of a running match advances the clock by its length, as far as
/// the clock can count, and leaves the commands' flags alone.
pub proof fn lemma_frame_advances_clock(state: GameModel, delta: int, draws: Draws)
    requires
        state.game_running,
        !state.should_exit,
        delta >= 0,
    ensures
        state.update(delta, draws).clock == tick(state.clock, delta),
        state.clock + delta <= u64::MAX ==> state.update(delta, draws).clock == state.clock + delta,
        state.update(delta, draws).should_exit == state.should_exit,
        state.update(delta, draws).pressed_keys == state.pressed_keys,
{
}

/// A rally frame that takes the ball to a place clear of the walls, the
/// paddles and the ends of the field is free flight: the ball has moved by
/// its speed times the time, its speed is the same, nobody has scored and
/// the rally goes on.
pub proof fn lemma_free_flight(state: GameModel, delta: int, draws: Draws)
    requires
        state.inv(),
        state.phase() == Phase::Rallying,
        !state.should_exit,
        delta >= 0,
        PADDLE_WIDTH + BALL_RADIUS < state.ball.advance(delta).x < SCREEN_WIDTH - PADDLE_WIDTH
            - BALL_RADIUS,
        BALL_RADIUS + COLLISION_TOLERANCE < state.ball.advance(delta).y < SCREEN_HEIGHT
            - BALL_RADIUS - COLLISION_TOLERANCE,
    ensures
        state.update(delta, draws).ball == state.ball.advance(delta),
        state.update(delta, draws).ball.x == state.ball.x + state.ball.dx * delta,
        state.update(delta, draws).ball.y == state.ball.y + state.ball.dy * delta,
        state.update(delta, draws).score == state.score,
        state.update(delta, draws).phase() == Phase::Rallying,
{
}

/// In a sound match the two players never both stand at `WIN_SCORE`, and
/// the match is over exactly when one of them does.
pub proof fn lemma_no_tie(state: GameModel)
    requires
        state.inv(),
    ensures
        !(state.score.player1 == WIN_SCORE && state.score.player2 == WIN_SCORE),
        state.winner == Some(PLAYER1) <==> state.score.player1 == WIN_SCORE,
        state.winner == Some(PLAYER2) <==> state.score.player2 == WIN_SCORE,
        state.winner.is_some() <==> state.game_over,
        state.game_over ==> !state.game_running,
{
}

/// A match that does not run, that is over, or that has been told to exit
/// does not change with time: no flight, no bounce, no move of the computer.
pub proof fn lemma_halted_match_stands_still(state: GameModel, delta: int, draws: Draws)
    ensures
        !state.game_running || state.should_exit ==> state.update(delta, draws) == state,
        state.inv() && state.game_over ==> state.update(delta, draws) == state,
{
}

/// A point in a running match adds one to the scorer's tally alone and
/// puts the ball back in the centre at rest. If the tally thereby reaches
/// `WIN_SCORE`, the match stops, is over, and the scorer is the winner; no
/// countdown starts and nobody is owed a serve. Otherwise the match runs
/// on, the scorer is the last winner, and a countdown starts at the present
/// time.
pub proof fn lemma_point_decides_match(state: GameModel, player: u8)
    requires
        state.tally_inv(),
        state.game_running,
        player == PLAYER1 || player == PLAYER2,
    ensures
        ({
            let after = state.award_point(player);
            let tally = if player == PLAYER1 {
                after.score.player1
            } else {
                after.score.player2
            };
            &&& after.tally_inv()
            &&& after.score.player1 == state.score.player1 + (if player == PLAYER1 {
                1int
            } else {
                0int
            })
            &&& after.score.player2 == state.score.player2 + (if player == PLAYER2 {
                1int
            } else {
                0int
            })
            &&& after.score.is_flash_active(state.clock)
            &&& after.score.flash_winner == Some(player)
            &&& after.ball == BallModel::centered(after.last_winner)
            &&& after.point_scored
            &&& after.game_over <==> tally == WIN_SCORE
            &&& after.game_over ==> {
                &&& !after.game_running
                &&& after.winner == Some(player)
                &&& after.last_winner.is_none()
                &&& after.countdown_start == state.countdown_start
            }
            &&& !after.game_over ==> {
                &&& after.game_running
                &&& after.winner.is_none()
                &&& after.last_winner == Some(player)
                &&& after.countdown_start == Some(state.clock)
            }
        }),
{
}

/// A ball that has passed the left player gives the right player a point,
/// one that has passed the right player gives the left player a point, and
/// any other ball changes nothing.
pub proof fn lemma_who_scores(state: GameModel)
    ensures
        state.passed_player1() ==> state.score_points() == state.award_point(PLAYER2),
        state.passed_player2() ==> state.score_points() == state.award_point(PLAYER1),
        !state.passed_player1() && !state.passed_player2() ==> state.score_points() == state,
{
}

/// Bounces keep the ball's speed and force its direction: away from the
/// wall or the paddle that it has reached. A bounce off a wall puts the
/// ball's edge `COLLISION_TOLERANCE` inside that wall; a bounce off a
/// paddle does not move the ball.
pub proof fn lemma_bounces_keep_speed(state: GameModel)
    ensures
        abs(state.bounce_off_walls().ball.dy) == abs(state.ball.dy),
        state.bounce_off_walls().ball.dx == state.ball.dx,
        state.bounce_off_walls().ball.x == state.ball.x,
        abs(state.bounce_off_paddles().ball.dx) == abs(state.ball.dx),
        state.bounce_off_paddles().ball.dy == state.ball.dy,
        state.bounce_off_paddles().ball.x == state.ball.x,
        state.bounce_off_paddles().ball.y == state.ball.y,
        state.hits_player2() ==> state.bounce_off_paddles().ball.dx <= 0,
        state.hits_player1() && !state.hits_player2() ==> state.bounce_off_paddles().ball.dx >= 0,
        !state.hits_player1() && !state.hits_player2() ==> state.bounce_off_paddles() == state,
        state.ball.inv() ==> state.bounce_off_walls().ball.inv() && state.bounce_off_paddles().ball.inv(),
{
}

/// During the countdown of a running match the ball lies still. When
/// `COUNTDOWN_DURATION` has passed on the clock, the frame ends in a rally:
/// the countdown is gone and the ball, where it lay, has speed `BALL_SPEED`
/// along both axes, horizontally away from the last winner if there is one.
/// Before that, the countdown goes on.
pub proof fn lemma_countdown_ends_in_serve(state: GameModel, delta: int, draws: Draws)
    requires
        state.inv(),
        state.game_running,
        !state.should_exit,
        state.countdown_start.is_some(),
        delta >= 0,
    ensures
        ({
            let after = state.update(delta, draws);
            let due = tick(state.clock, delta) - state.countdown_start.unwrap()
                >= COUNTDOWN_DURATION;
            &&& after.ball.x == state.ball.x
            &&& after.ball.y == state.ball.y
            &&& after.player1 == state.player1
            &&& after.score == state.score
            &&& due ==> {
                &&& after.phase() == Phase::Rallying
                &&& after.countdown_start.is_none()
                &&& after.ball.dx == serve_dx(state.last_winner, draws.serve_right)
                &&& after.ball.dy == serve_dy(draws.serve_down)
                &&& abs(after.ball.dx) == BALL_SPEED
                &&& abs(after.ball.dy) == BALL_SPEED
                &&& state.last_winner == Some(PLAYER1) ==> after.ball.dx == BALL_SPEED
                &&& state.last_winner == Some(PLAYER2) ==> after.ball.dx == -BALL_SPEED
                &&& !after.point_scored
            }
            &&& !due ==> {
                &&& after.phase() == Phase::Countdown
                &&& after.countdown_start == state.countdown_start
                &&& after.ball == state.ball
            }
        }),
{
}

/// A frame moves a match along the phases in these ways only: a match that
/// is not running stays as it is; a countdown goes on or ends in a rally; a
/// rally goes on, or ends with a point in a countdown or in the end of the
/// match.
pub proof fn lemma_phase_steps(state: GameModel, delta: int, draws: Draws)
    requires
        state.inv(),
        delta >= 0,
    ensures
        ({
            let before = state.phase();
            let after = state.update(delta, draws).phase();
            match before {
                Phase::Countdown => after == before || (after == Phase::Rallying
                    && !state.should_exit),
                Phase::Rallying => after == before || ((after == Phase::Countdown || after
                    == Phase::GameOver) && !state.should_exit),
                _ => state.update(delta, draws) == state,
            }
        }),
{
}

/// Pausing a running match and starting it again leaves it as it was, and
/// a paused match does not change with time.
pub proof fn lemma_pause_and_resume(state: GameModel, delta: int, draws: Draws)
    requires
        state.inv(),
        state.game_running,
    ensures
        state.key_down(Key::Pause).phase() == Phase::Paused,
        state.key_down(Key::Pause).update(delta, draws) == state.key_down(Key::Pause),
        state.key_down(Key::Pause).key_down(Key::Start) == state,
{
}

/// What the commands do, by phase. Start begins the first countdown of a
/// match that has not started, and is ignored by a match that runs or is
/// over. Reset leads from anywhere to a match that has not started, with
/// nothing scored. Exit only raises its flag.
pub proof fn lemma_commands(state: GameModel)
    requires
        state.inv(),
    ensures
        state.phase() == Phase::NotStarted ==> {
            &&& state.key_down(Key::Start).phase() == Phase::Countdown
            &&& state.key_down(Key::Start) == (GameModel {
                game_running: true,
                countdown_start: Some(state.clock),
                ..state
            })
        },
        state.game_running || state.game_over ==> state.key_down(Key::Start) == state,
        state.key_down(Key::Reset).phase() == Phase::NotStarted,
        state.key_down(Key::Reset) == (GameModel {
            pressed_keys: state.pressed_keys,
            should_exit: state.should_exit,
            ..GameModel::initial()
        }),
        state.key_down(Key::Exit) == (GameModel { should_exit: true, ..state }),
        state.key_down(Key::Pause) == (GameModel { game_running: false, ..state }),
{
}

/// The computer-driven paddle changes nothing but its own height, stays
/// inside the field, and moves by no more than a frame at `AI_HANDICAP`
/// below `AI_PADDLE_SPEED` allows, towards the height it aims at. It
/// stands still while the ball flies away from it and in a frame of
/// hesitation.
pub proof fn lemma_ai_paddle_is_bounded(state: GameModel, delta: int, draws: Draws)
    requires
        state.player2.inv(),
        delta >= 0,
    ensures
        ({
            let after = state.update_ai_paddle(delta, draws);
            let reach = (AI_PADDLE_SPEED - AI_HANDICAP) * delta;
            let center = state.player2.y + PADDLE_HEIGHT / 2;
            let aim = state.ball.y + draws.error_margin;
            &&& after == GameModel { player2: after.player2, ..state }
            &&& after.player2.x == state.player2.x
            &&& after.player2.inv()
            &&& state.player2.y - reach <= after.player2.y <= state.player2.y + reach
            &&& state.ball.dx <= 0 || draws.hesitate || aim == center ==> after == state
            &&& aim > center ==> after.player2.y >= state.player2.y
            &&& aim < center ==> after.player2.y <= state.player2.y
        }),
{
    let reach = (AI_PADDLE_SPEED - AI_HANDICAP) * delta;
    assert(GameModel::ai_step(delta, draws) == if draws.hesitate {
        0
    } else {
        reach
    }) by (nonlinear_arith)
        requires
            reach == (AI_PADDLE_SPEED - AI_HANDICAP) * delta,
            GameModel::ai_step(delta, draws) == (AI_PADDLE_SPEED - AI_HANDICAP) * (if draws.hesitate {
                0int
            } else {
                1int
            }) * delta,
    ;
    assert(reach >= 0) by (nonlinear_arith)
        requires
            reach == (AI_PADDLE_SPEED - AI_HANDICAP) * delta,
            delta >= 0,
    ;
}

} // verus!
