//! The match itself: the state that lives from frame to frame and the
//! operations that change it, each proved to compute what the model says.
//!
//! `update`, `update_with` and the two key events are the whole of a
//! match's life: they ask for a sound state and give one back. The other
//! operations are the parts of a frame, open to callers who want to run
//! them one by one; they say exactly what they do, and whether the state
//! is still sound after one of them is for `is_valid` to tell.
use vstd::prelude::*;
use vstd::math::abs;
use crate::components::ball::Ball;
use crate::components::paddle::Paddle;
use crate::components::score::Score;
use crate::game::constants::{
    AI_HANDICAP,
    AI_PADDLE_SPEED,
    AI_REST_TOLERANCE,
    BALL_RADIUS,
    BALL_SPEED,
    COLLISION_TOLERANCE,
    COUNTDOWN_DURATION,
    PADDLE_HEIGHT,
    PADDLE_MAX_Y,
    PADDLE_WIDTH,
    PLAYER1,
    PLAYER2,
    PLAYER_PADDLE_SPEED,
    SCREEN_HEIGHT,
    SCREEN_WIDTH,
    SECOND,
    WIN_SCORE,
};
use crate::game::draws::Draws;
use crate::game::input::{HeldKeys, Key};
use crate::game::laws::{lemma_flight_fits, lemma_keys_keep_inv, lemma_update_keeps_inv};
use crate::game::model::{GameModel, Phase};

verus! {

/// A match. `clock` counts the microseconds for which the match has run;
/// `countdown_start` and the score board's highlight are times on it.
#[derive(Clone, Copy, Debug, PartialEq, Eq)]
pub struct GameState {
    /// The left paddle, steered by the keyboard.
    pub player1: Paddle,
    /// The right paddle, steered by the computer.
    pub player2: Paddle,
    pub ball: Ball,
    pub score: Score,
    /// The match is running: neither paused, nor over, nor waiting for its start.
    pub game_running: bool,
    pub pressed_keys: HeldKeys,
    /// The player who scored the last point, until the match ends.
    pub last_winner: Option<u8>,
    /// When the countdown to the pending serve began.
    pub countdown_start: Option<u64>,
    /// A point was scored and the ball has not been served since.
    pub point_scored: bool,
    /// The exit command was given.
    pub should_exit: bool,
    pub game_over: bool,
    /// The player who won the match, once it is over.
    pub winner: Option<u8>,
    pub clock: u64,
}

impl View for GameState {
    type V = GameModel;

    open spec fn view(&self) -> GameModel {
        GameModel {
            player1: self.player1@,
            player2: self.player2@,
            ball: self.ball@,
            score: self.score@,
            game_running: self.game_running,
            pressed_keys: self.pressed_keys,
            last_winner: self.last_winner,
            countdown_start: match self.countdown_start {
                Some(start) => Some(start as nat),
                None => None,
            },
            point_scored: self.point_scored,
            should_exit: self.should_exit,
            game_over: self.game_over,
            winner: self.winner,
            clock: self.clock as nat,
        }
    }
}

/// Whether two players, or two absences of one, are the same.
fn same_player(a: Option<u8>, b: Option<u8>) -> (same: bool)
    ensures
        same == (a == b),
{
    match (a, b) {
        (Some(x), Some(y)) => x == y,
        (None, None) => true,
        _ => false,
    }
}

/// Whether a coordinate lies between zero and `limit`, both included.
fn on_field(coordinate: i64, limit: i64) -> (on: bool)
    ensures
        on == (0 <= coordinate <= limit),
{
    0 <= coordinate && coordinate <= limit
}

/// Whether a speed is `BALL_SPEED` in one direction or the other.
fn full_speed(speed: i64) -> (full: bool)
    ensures
        full == (speed == BALL_SPEED || speed == -BALL_SPEED),
{
    speed == BALL_SPEED || speed == -BALL_SPEED
}

/// The magnitude of a speed.
fn magnitude(speed: i64) -> (size: i64)
    requires
        speed > i64::MIN,
    ensures
        size == abs(speed as int),
{
    if speed < 0 {
        -speed
    } else {
        speed
    }
}

impl GameState {
    /// The state is one that a match can be in between two frames.
    pub open spec fn wf(&self) -> bool {
        self@.inv()
    }

    /// Whether the state is one that a match can be in between two frames:
    /// the test that a caller without proofs can make before it asks for a
    /// frame or hands on a key.
    pub fn is_valid(&self) -> (valid: bool)
        ensures
            valid == self.wf(),
    {
        let moving: bool = self.ball.is_moving();
        let won1: bool = self.score.player1 == WIN_SCORE;
        let won2: bool = self.score.player2 == WIN_SCORE;
        let champion: Option<u8> = if won1 {
            Some(PLAYER1)
        } else if won2 {
            Some(PLAYER2)
        } else {
            None
        };

        let paddle1: bool = self.player1.x == 0 && on_field(self.player1.y, PADDLE_MAX_Y);
        let paddle2: bool = self.player2.x == SCREEN_WIDTH - PADDLE_WIDTH && on_field(
            self.player2.y,
            PADDLE_MAX_Y,
        );
        let speed: bool = !moving || (full_speed(self.ball.dx) && full_speed(self.ball.dy));
        let place: bool = on_field(self.ball.x, SCREEN_WIDTH) && on_field(
            self.ball.y,
            SCREEN_HEIGHT,
        );
        let server: bool = same_player(self.ball.last_winner, self.last_winner);
        let flash: bool = match self.score.flash_winner {
            Some(player) => self.score.flash_start.is_some() && (player == PLAYER1 || player
                == PLAYER2),
            None => self.score.flash_start.is_none(),
        };
        let tally: bool = self.score.player1 <= WIN_SCORE && self.score.player2 <= WIN_SCORE
            && !(won1 && won2);
        let end: bool = self.game_over == (won1 || won2) && same_player(self.winner, champion)
            && !(self.game_over && self.game_running);
        let serve: bool = if self.countdown_start.is_some() {
            !moving && !self.game_over
        } else {
            !self.game_running || moving
        };
        paddle1 && paddle2 && speed && place && server && flash && tally && end && serve
    }

    /// A match before its first start.
    pub fn new() -> (state: GameState)
        ensures
            state@ == GameModel::initial(),
            state.wf(),
    {
        GameState {
            player1: Paddle::new(0, (SCREEN_HEIGHT - PADDLE_HEIGHT) / 2),
            player2: Paddle::new(SCREEN_WIDTH - PADDLE_WIDTH, (SCREEN_HEIGHT - PADDLE_HEIGHT) / 2),
            ball: Ball::new(),
            score: Score::new(),
            game_running: false,
            pressed_keys: HeldKeys::new(),
            last_winner: None,
            countdown_start: None,
            point_scored: false,
            should_exit: false,
            game_over: false,
            winner: None,
            clock: 0,
        }
    }

    /// Serves the ball with the frame's draws.
    pub fn start_ball(&mut self, draws: Draws)
        ensures
            final(self)@ == old(self)@.start_ball(draws),
    {
        self.ball.launch_with(draws.serve_right, draws.serve_down);
        self.point_scored = false;
    }

    /// Ends the match if `player` has reached `WIN_SCORE` while it runs.
    pub fn check_winner(&mut self, player: u8)
        ensures
            final(self)@ == old(self)@.check_winner(player),
    {
        let tally: u32 = if player == PLAYER1 {
            self.score.player1
        } else {
            self.score.player2
        };
        if tally >= WIN_SCORE && self.game_running {
            self.game_over = true;
            self.winner = Some(player);
            self.game_running = false;
            self.last_winner = None;
        }
    }

    /// Puts the ball back in the centre after a point and, unless the match
    /// has stopped, starts the countdown to the next serve.
    pub fn reset_ball(&mut self)
        ensures
            final(self)@ == old(self)@.reset_ball(),
    {
        self.ball.reset(self.last_winner);
        self.point_scored = true;
        if self.game_running && !self.game_over {
            self.countdown_start = Some(self.clock);
        }
    }

    /// Bounces the ball off the top or the bottom wall if its edge has come
    /// within `COLLISION_TOLERANCE` of it.
    pub fn bounce_off_walls(&mut self)
        requires
            old(self).ball.dy > i64::MIN,
        ensures
            final(self)@ == old(self)@.bounce_off_walls(),
    {
        if self.ball.y <= BALL_RADIUS + COLLISION_TOLERANCE {
            self.ball.y = BALL_RADIUS + COLLISION_TOLERANCE;
            self.ball.dy = magnitude(self.ball.dy);
        } else if self.ball.y >= SCREEN_HEIGHT - COLLISION_TOLERANCE - BALL_RADIUS {
            self.ball.y = SCREEN_HEIGHT - BALL_RADIUS - COLLISION_TOLERANCE;
            self.ball.dy = -magnitude(self.ball.dy);
        }
    }

    /// Sends the ball away from a paddle that it has reached.
    pub fn bounce_off_paddles(&mut self)
        requires
            old(self).player1.wf(),
            old(self).player2.wf(),
            old(self).ball.dx > i64::MIN,
        ensures
            final(self)@ == old(self)@.bounce_off_paddles(),
    {
        if self.ball.x <= PADDLE_WIDTH + BALL_RADIUS && self.ball.y >= self.player1.y && self.ball.y
            <= self.player1.y + PADDLE_HEIGHT {
            self.ball.dx = magnitude(self.ball.dx);
        }
        if self.ball.x >= SCREEN_WIDTH - PADDLE_WIDTH - BALL_RADIUS && self.ball.y
            >= self.player2.y && self.ball.y <= self.player2.y + PADDLE_HEIGHT {
            self.ball.dx = -magnitude(self.ball.dx);
        }
    }

    /// Gives a point to the player whom the ball has not passed, if it has
    /// passed the other one.
    pub fn score_points(&mut self)
        requires
            old(self).score.player1 < u32::MAX,
            old(self).score.player2 < u32::MAX,
        ensures
            final(self)@ == old(self)@.score_points(),
    {
        if self.ball.x <= BALL_RADIUS {
            self.score.increment_player2(self.clock);
            self.last_winner = Some(PLAYER2);
            self.check_winner(PLAYER2);
            self.reset_ball();
        } else if self.ball.x >= SCREEN_WIDTH - BALL_RADIUS {
            self.score.increment_player1(self.clock);
            self.last_winner = Some(PLAYER1);
            self.check_winner(PLAYER1);
            self.reset_ball();
        }
    }

    /// Resolves what the ball's new place means: a bounce off the top or
    /// bottom wall, a bounce off a paddle, a point, in this order.
    pub fn handle_collisions(&mut self)
        requires
            old(self).player1.wf(),
            old(self).player2.wf(),
            old(self).ball.dx > i64::MIN,
            old(self).ball.dy > i64::MIN,
            old(self).score.player1 < u32::MAX,
            old(self).score.player2 < u32::MAX,
        ensures
            final(self)@ == old(self)@.handle_collisions(),
    {
        self.bounce_off_walls();
        self.bounce_off_paddles();
        self.score_points();
    }

    /// One frame of a countdown: the computer-driven paddle drifts towards
    /// its resting place, and once `COUNTDOWN_DURATION` has passed since
    /// `start` the ball is served.
    pub fn handle_countdown(&mut self, start: u64, delta: u32, draws: Draws)
        requires
            old(self).player2.wf(),
        ensures
            final(self)@ == old(self)@.handle_countdown(start as nat, delta as int, draws),
    {
        let distance: i64 = (SCREEN_HEIGHT - PADDLE_HEIGHT) / 2 - self.player2.y;
        if distance > AI_REST_TOLERANCE {
            self.player2.move_by(AI_PADDLE_SPEED * (delta as i64));
        } else if distance < -AI_REST_TOLERANCE {
            self.player2.move_by(-(AI_PADDLE_SPEED * (delta as i64)));
        }
        if self.clock >= start && self.clock - start >= COUNTDOWN_DURATION as u64 {
            self.countdown_start = None;
            self.start_ball(draws);
        }
    }

    /// Moves the left paddle as the held keys ask.
    pub fn handle_input(&mut self, delta: u32)
        ensures
            final(self)@ == old(self)@.handle_input(delta as int),
    {
        if self.pressed_keys.up {
            self.player1.move_by(-(PLAYER_PADDLE_SPEED * (delta as i64)));
        }
        if self.pressed_keys.down {
            self.player1.move_by(PLAYER_PADDLE_SPEED * (delta as i64));
        }
    }

    /// Moves the computer-driven paddle after a ball that flies towards it.
    pub fn update_ai_paddle(&mut self, delta: u32, draws: Draws)
        requires
            old(self).player2.wf(),
        ensures
            final(self)@ == old(self)@.update_ai_paddle(delta as int, draws),
    {
        if self.ball.dx > 0 {
            let center: i64 = self.player2.y + PADDLE_HEIGHT / 2;
            let aim: i128 = self.ball.y as i128 + draws.error_margin as i128;
            let pace: i64 = if draws.hesitate {
                0
            } else {
                AI_PADDLE_SPEED - AI_HANDICAP
            };
            let step: i64 = pace * (delta as i64);
            assert(step == GameModel::ai_step(delta as int, draws));
            if aim > center as i128 {
                self.player2.move_by(step);
            } else if aim < center as i128 {
                self.player2.move_by(-step);
            }
        }
    }

    /// Plays one frame of `delta` microseconds with the given draws.
    ///
    /// A match that does not run, or that has been told to exit, is left as
    /// it is. Otherwise the clock advances by `delta`; during a countdown
    /// the computer-driven paddle goes to rest and the serve may fall due;
    /// during a rally the left paddle follows the keys, the ball flies and
    /// bounces, points are given, and the computer-driven paddle tracks the
    /// ball.
    pub fn update_with(&mut self, delta: u32, draws: Draws)
        requires
            old(self).wf(),
        ensures
            final(self)@ == old(self)@.update(delta as int, draws),
            final(self).wf(),
    {
        if self.should_exit || !self.game_running {
            return ;
        }
        self.clock = self.clock.saturating_add(delta as u64);
        match self.countdown_start {
            Some(start) => {
                self.handle_countdown(start, delta, draws);
            },
            None => {
                self.handle_input(delta);
                proof {
                    lemma_flight_fits(self.ball@, delta as int);
                }
                self.ball.update(delta);
                self.handle_collisions();
                self.update_ai_paddle(delta, draws);
            },
        }
        proof {
            lemma_update_keeps_inv(old(self)@, delta as int, draws);
        }
    }

    /// Plays one frame of `delta` microseconds with fresh random draws.
    pub fn update(&mut self, delta: u32)
        requires
            old(self).wf(),
        ensures
            exists|draws: Draws| draws.wf() && final(self)@ == old(self)@.update(delta as int, draws),
            final(self).wf(),
    {
        let draws: Draws = Draws::roll();
        self.update_with(delta, draws);
    }

    /// Takes note that `key` went down. A steering key is held from now on;
    /// a command acts at once: start, pause, reset or exit.
    pub fn key_down_event(&mut self, key: Key)
        requires
            old(self).wf(),
        ensures
            final(self)@ == old(self)@.key_down(key),
            final(self).wf(),
    {
        match key {
            Key::Start => {
                if !self.game_running && !self.game_over {
                    self.game_running = true;
                    if self.countdown_start.is_none() && !self.ball.is_moving() {
                        self.countdown_start = Some(self.clock);
                    }
                }
            },
            Key::Pause => {
                self.game_running = false;
            },
            Key::Exit => {
                self.should_exit = true;
            },
            Key::Reset => {
                self.score.reset();
                self.game_running = false;
                self.game_over = false;
                self.winner = None;
                self.last_winner = None;
                self.ball.reset(None);
                self.player1.y = (SCREEN_HEIGHT - PADDLE_HEIGHT) / 2;
                self.player2.y = (SCREEN_HEIGHT - PADDLE_HEIGHT) / 2;
                self.point_scored = false;
                self.countdown_start = None;
                self.clock = 0;
            },
            Key::Up => {
                self.pressed_keys.up = true;
            },
            Key::Down => {
                self.pressed_keys.down = true;
            },
        }
        proof {
            lemma_keys_keep_inv(old(self)@, key);
        }
    }

    /// Takes note that `key` came up: a steering key is no longer held.
    pub fn key_up_event(&mut self, key: Key)
        requires
            old(self).wf(),
        ensures
            final(self)@ == old(self)@.key_up(key),
            final(self).wf(),
    {
        match key {
            Key::Up => {
                self.pressed_keys.up = false;
            },
            Key::Down => {
                self.pressed_keys.down = false;
            },
            _ => {},
        }
    }

    /// Where the match stands.
    pub fn phase(&self) -> (phase: Phase)
        ensures
            phase == self@.phase(),
    {
        if self.game_over {
            Phase::GameOver
        } else if self.game_running {
            if self.countdown_start.is_some() {
                Phase::Countdown
            } else {
                Phase::Rallying
            }
        } else if self.countdown_start.is_some() || self.ball.is_moving() {
            Phase::Paused
        } else {
            Phase::NotStarted
        }
    }

    /// The digit that the countdown shows: 3, 2, 1 through its three
    /// seconds, and 0 where none is running.
    pub fn countdown_number(&self) -> (digit: u8)
        ensures
            digit == self@.countdown_number(),
    {
        match self.countdown_start {
            Some(start) => {
                if !self.game_running {
                    0
                } else if self.clock < start || self.clock - start < SECOND as u64 {
                    3
                } else if self.clock - start < 2 * (SECOND as u64) {
                    2
                } else if self.clock - start < 3 * (SECOND as u64) {
                    1
                } else {
                    0
                }
            },
            None => 0,
        }
    }

    /// Whether the ball is to be shown: always, but during the countdown of
    /// a running match.
    pub fn ball_visible(&self) -> (visible: bool)
        ensures
            visible == self@.ball_visible(),
    {
        !self.game_running || self.countdown_start.is_none()
    }

    /// Whether the last point is still highlighted on the score board.
    pub fn flash_active(&self) -> (active: bool)
        ensures
            active == self@.score.is_flash_active(self@.clock),
    {
        self.score.is_flash_active(self.clock)
    }
}

} // verus!
