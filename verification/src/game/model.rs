//! The match as mathematics: a state over unbounded integers and the
//! functions that take it from one frame to the next. The executable match
//! is proved to follow these functions step by step.
use vstd::prelude::*;
use vstd::math::abs;
use crate::components::ball::BallModel;
use crate::components::paddle::PaddleModel;
use crate::components::score::ScoreModel;
use crate::game::constants::{
    AI_HANDICAP,
    AI_PADDLE_SPEED,
    AI_REST_TOLERANCE,
    BALL_RADIUS,
    COLLISION_TOLERANCE,
    COUNTDOWN_DURATION,
    PADDLE_HEIGHT,
    PADDLE_WIDTH,
    PLAYER1,
    PLAYER2,
    PLAYER_PADDLE_SPEED,
    SCREEN_HEIGHT,
    SCREEN_WIDTH,
    SECOND,
    WIN_SCORE,
};
use crate::game::draws::Draws;
use crate::game::input::{HeldKeys, Key};

verus! {

/// Where a match stands.
#[derive(Clone, Copy, Debug, PartialEq, Eq)]
pub enum Phase {
    /// Nothing has happened since the match was made or reset.
    NotStarted,
    /// The match runs and a serve is being counted down.
    Countdown,
    /// The match runs and the ball is in play.
    Rallying,
    /// The match was halted in a countdown or a rally and can go on.
    Paused,
    /// One player has won.
    GameOver,
}

/// The mathematical match.
pub struct GameModel {
    pub player1: PaddleModel,
    pub player2: PaddleModel,
    pub ball: BallModel,
    pub score: ScoreModel,
    pub game_running: bool,
    pub pressed_keys: HeldKeys,
    pub last_winner: Option<u8>,
    pub countdown_start: Option<nat>,
    pub point_scored: bool,
    pub should_exit: bool,
    pub game_over: bool,
    pub winner: Option<u8>,
    pub clock: nat,
}

/// The vertical offset at which a paddle is centred on its side.
pub open spec fn rest_y() -> int {
    (SCREEN_HEIGHT - PADDLE_HEIGHT) / 2
}

/// The match clock `delta` microseconds after `clock`. It counts no
/// further than a `u64` can hold.
pub open spec fn tick(clock: nat, delta: int) -> nat {
    if clock + delta > u64::MAX {
        u64::MAX as nat
    } else {
        (clock + delta) as nat
    }
}

/// The winner that a pair of tallies shows: the player who has reached
/// `WIN_SCORE`, if one has.
pub open spec fn winner_of(score: ScoreModel) -> Option<u8> {
    if score.player1 == WIN_SCORE {
        Some(PLAYER1)
    } else if score.player2 == WIN_SCORE {
        Some(PLAYER2)
    } else {
        None
    }
}

impl GameModel {
    /// A match before its first start: paddles and ball centred, nothing
    /// scored, nothing running.
    pub open spec fn initial() -> GameModel {
        GameModel {
            player1: PaddleModel { x: 0, y: rest_y() },
            player2: PaddleModel { x: SCREEN_WIDTH - PADDLE_WIDTH, y: rest_y() },
            ball: BallModel::centered(None),
            score: ScoreModel::empty(),
            game_running: false,
            pressed_keys: HeldKeys { up: false, down: false },
            last_winner: None,
            countdown_start: None,
            point_scored: false,
            should_exit: false,
            game_over: false,
            winner: None,
            clock: 0,
        }
    }

    /// Where the match stands.
    pub open spec fn phase(self) -> Phase {
        if self.game_over {
            Phase::GameOver
        } else if self.game_running {
            if self.countdown_start.is_some() {
                Phase::Countdown
            } else {
                Phase::Rallying
            }
        } else if self.countdown_start.is_some() || self.ball.is_moving() {
            Phase::Paused
        } else {
            Phase::NotStarted
        }
    }

    /// The pieces are sound each by itself: the paddles on their sides and
    /// inside the field, the ball at rest or at full speed, the score board
    /// consistent.
    pub open spec fn pieces_inv(self) -> bool {
        &&& self.player1.inv()
        &&& self.player1.x == 0
        &&& self.player2.inv()
        &&& self.player2.x == SCREEN_WIDTH - PADDLE_WIDTH
        &&& self.ball.inv()
        &&& self.ball.last_winner == self.last_winner
        &&& self.score.inv()
    }

    /// The tallies and the end of the match agree: nobody is beyond
    /// `WIN_SCORE`, at most one player has reached it, the match is over
    /// exactly when one has, that player is the winner, and a match that is
    /// over does not run.
    pub open spec fn tally_inv(self) -> bool {
        &&& self.score.player1 <= WIN_SCORE
        &&& self.score.player2 <= WIN_SCORE
        &&& !(self.score.player1 == WIN_SCORE && self.score.player2 == WIN_SCORE)
        &&& self.game_over <==> self.score.player1 == WIN_SCORE || self.score.player2 == WIN_SCORE
        &&& self.winner == winner_of(self.score)
        &&& self.game_over ==> !self.game_running
    }

    /// The serve and the ball agree: while a countdown is set the ball is
    /// at rest, a running match without a countdown has the ball in play,
    /// and a match that is over has no countdown.
    pub open spec fn serve_inv(self) -> bool {
        &&& self.countdown_start.is_some() ==> !self.ball.is_moving()
        &&& self.game_running && self.countdown_start.is_none() ==> self.ball.is_moving()
        &&& self.game_over ==> self.countdown_start.is_none()
    }

    /// What holds of a match between two frames.
    pub open spec fn inv(self) -> bool {
        &&& self.pieces_inv()
        &&& self.tally_inv()
        &&& self.serve_inv()
        &&& self.ball.in_field()
    }

    /// The computer-driven paddle drifts towards its resting place at
    /// `AI_PADDLE_SPEED` unless it is within `AI_REST_TOLERANCE` of it; then,
    /// if `COUNTDOWN_DURATION` has passed on the clock since `start`, the
    /// countdown ends and the ball is served.
    pub open spec fn handle_countdown(self, start: nat, delta: int, draws: Draws) -> GameModel {
        let distance = rest_y() - self.player2.y;
        let homed = if distance > AI_REST_TOLERANCE {
            self.player2.move_by(AI_PADDLE_SPEED * delta)
        } else if distance < -AI_REST_TOLERANCE {
            self.player2.move_by(-(AI_PADDLE_SPEED * delta))
        } else {
            self.player2
        };
        let waiting = GameModel { player2: homed, ..self };
        if self.clock - start >= COUNTDOWN_DURATION {
            (GameModel { countdown_start: None, ..waiting }).start_ball(draws)
        } else {
            waiting
        }
    }

    /// The ball is served.
    pub open spec fn start_ball(self, draws: Draws) -> GameModel {
        GameModel {
            ball: self.ball.launch(draws.serve_right, draws.serve_down),
            point_scored: false,
            ..self
        }
    }

    /// The left paddle follows the held keys at `PLAYER_PADDLE_SPEED`: up
    /// first, then down, each stopped at the edge of the field.
    pub open spec fn handle_input(self, delta: int) -> GameModel {
        let raised = if self.pressed_keys.up {
            self.player1.move_by(-(PLAYER_PADDLE_SPEED * delta))
        } else {
            self.player1
        };
        let lowered = if self.pressed_keys.down {
            raised.move_by(PLAYER_PADDLE_SPEED * delta)
        } else {
            raised
        };
        GameModel { player1: lowered, ..self }
    }

    /// The ball flies freely for `delta` microseconds.
    pub open spec fn advance_ball(self, delta: int) -> GameModel {
        GameModel { ball: self.ball.advance(delta), ..self }
    }

    /// If `player` has reached `WIN_SCORE` in a running match, the match is
    /// over: it stops, `player` is the winner and no serve is owed to
    /// anybody. Otherwise nothing changes.
    pub open spec fn check_winner(self, player: u8) -> GameModel {
        let tally = if player == PLAYER1 {
            self.score.player1
        } else {
            self.score.player2
        };
        if tally >= WIN_SCORE && self.game_running {
            GameModel {
                game_over: true,
                winner: Some(player),
                game_running: false,
                last_winner: None,
                ..self
            }
        } else {
            self
        }
    }

    /// The ball goes back to the centre after a point, and unless the match
    /// has stopped a new countdown starts at the present time.
    pub open spec fn reset_ball(self) -> GameModel {
        GameModel {
            ball: self.ball.reset(self.last_winner),
            point_scored: true,
            countdown_start: if self.game_running && !self.game_over {
                Some(self.clock)
            } else {
                self.countdown_start
            },
            ..self
        }
    }

    /// A ball whose edge is within `COLLISION_TOLERANCE` of the top or the
    /// bottom wall is put back just inside it and sent away from it.
    pub open spec fn bounce_off_walls(self) -> GameModel {
        if self.ball.y - BALL_RADIUS <= COLLISION_TOLERANCE {
            GameModel {
                ball: BallModel {
                    y: BALL_RADIUS + COLLISION_TOLERANCE,
                    dy: abs(self.ball.dy) as int,
                    ..self.ball
                },
                ..self
            }
        } else if self.ball.y + BALL_RADIUS >= SCREEN_HEIGHT - COLLISION_TOLERANCE {
            GameModel {
                ball: BallModel {
                    y: SCREEN_HEIGHT - BALL_RADIUS - COLLISION_TOLERANCE,
                    dy: -abs(self.ball.dy),
                    ..self.ball
                },
                ..self
            }
        } else {
            self
        }
    }

    /// The ball's centre is level with the paddle.
    pub open spec fn level_with(self, paddle: PaddleModel) -> bool {
        paddle.y <= self.ball.y <= paddle.y + PADDLE_HEIGHT
    }

    /// The ball's left edge has reached the left paddle's face at the
    /// paddle's height.
    pub open spec fn hits_player1(self) -> bool {
        self.ball.x - BALL_RADIUS <= PADDLE_WIDTH && self.level_with(self.player1)
    }

    /// The ball's right edge has reached the right paddle's face at the
    /// paddle's height.
    pub open spec fn hits_player2(self) -> bool {
        self.ball.x + BALL_RADIUS >= SCREEN_WIDTH - PADDLE_WIDTH && self.level_with(self.player2)
    }

    /// A ball that has reached a paddle is sent away from it: to the right
    /// by the left paddle, then to the left by the right one. Its place is
    /// not changed.
    pub open spec fn bounce_off_paddles(self) -> GameModel {
        let dx1 = if self.hits_player1() {
            abs(self.ball.dx) as int
        } else {
            self.ball.dx
        };
        let dx2 = if self.hits_player2() {
            -abs(dx1)
        } else {
            dx1
        };
        GameModel { ball: BallModel { dx: dx2, ..self.ball }, ..self }
    }

    /// The ball's left edge has reached the left end of the field.
    pub open spec fn passed_player1(self) -> bool {
        self.ball.x - BALL_RADIUS <= 0
    }

    /// The ball's right edge has reached the right end of the field, and
    /// its left edge has not reached the left end.
    pub open spec fn passed_player2(self) -> bool {
        !self.passed_player1() && self.ball.x + BALL_RADIUS >= SCREEN_WIDTH
    }

    /// `player` gets a point at the present time, is noted as the last
    /// winner, may thereby have won the match, and the ball is reset.
    pub open spec fn award_point(self, player: u8) -> GameModel {
        (GameModel {
            score: if player == PLAYER1 {
                self.score.increment_player1(self.clock)
            } else {
                self.score.increment_player2(self.clock)
            },
            last_winner: Some(player),
            ..self
        }).check_winner(player).reset_ball()
    }

    /// A ball that has passed a player gives the other player a point.
    pub open spec fn score_points(self) -> GameModel {
        if self.passed_player1() {
            self.award_point(PLAYER2)
        } else if self.passed_player2() {
            self.award_point(PLAYER1)
        } else {
            self
        }
    }

    /// What the ball's new place means for the match: walls first, then
    /// paddles, then points.
    pub open spec fn handle_collisions(self) -> GameModel {
        self.bounce_off_walls().bounce_off_paddles().score_points()
    }

    /// How far the computer-driven paddle moves in a frame in which it
    /// tracks the ball: at `AI_HANDICAP` below its nominal speed, or not at
    /// all in a frame of hesitation.
    pub open spec fn ai_step(delta: int, draws: Draws) -> int {
        (AI_PADDLE_SPEED - AI_HANDICAP) * (if draws.hesitate {
            0int
        } else {
            1int
        }) * delta
    }

    /// While the ball flies to the right, the computer-driven paddle moves
    /// its centre towards the ball's height as misjudged by the frame's
    /// aiming error.
    pub open spec fn update_ai_paddle(self, delta: int, draws: Draws) -> GameModel {
        if self.ball.dx > 0 {
            let center = self.player2.y + PADDLE_HEIGHT / 2;
            let aim = self.ball.y + draws.error_margin;
            let step = Self::ai_step(delta, draws);
            if aim > center {
                GameModel { player2: self.player2.move_by(step), ..self }
            } else if aim < center {
                GameModel { player2: self.player2.move_by(-step), ..self }
            } else {
                self
            }
        } else {
            self
        }
    }

    /// One frame of `delta` microseconds. A match that does not run, or
    /// that has been told to exit, does not change. Otherwise the clock
    /// advances, and the frame belongs either to the countdown or to the
    /// rally: input, flight, collisions, the computer's move.
    pub open spec fn update(self, delta: int, draws: Draws) -> GameModel {
        if self.should_exit || !self.game_running {
            self
        } else {
            let ticked = GameModel { clock: tick(self.clock, delta), ..self };
            match self.countdown_start {
                Some(start) => ticked.handle_countdown(start, delta, draws),
                None => ticked.handle_input(delta).advance_ball(delta).handle_collisions()
                    .update_ai_paddle(delta, draws),
            }
        }
    }

    /// The start command. It acts on a match that neither runs nor is over:
    /// the match runs again, and where no serve is pending and no ball in
    /// play, a countdown starts at the present time.
    pub open spec fn start(self) -> GameModel {
        if !self.game_running && !self.game_over {
            GameModel {
                game_running: true,
                countdown_start: if self.countdown_start.is_none() && !self.ball.is_moving() {
                    Some(self.clock)
                } else {
                    self.countdown_start
                },
                ..self
            }
        } else {
            self
        }
    }

    /// The reset command: everything as in a new match, but for the held
    /// keys and the wish to exit.
    pub open spec fn reset(self) -> GameModel {
        GameModel {
            pressed_keys: self.pressed_keys,
            should_exit: self.should_exit,
            ..GameModel::initial()
        }
    }

    /// A key goes down.
    pub open spec fn key_down(self, key: Key) -> GameModel {
        match key {
            Key::Start => self.start(),
            Key::Pause => GameModel { game_running: false, ..self },
            Key::Exit => GameModel { should_exit: true, ..self },
            Key::Reset => self.reset(),
            _ => GameModel { pressed_keys: self.pressed_keys.press(key), ..self },
        }
    }

    /// A key comes up.
    pub open spec fn key_up(self, key: Key) -> GameModel {
        GameModel { pressed_keys: self.pressed_keys.release(key), ..self }
    }

    /// The digit that the countdown shows: 3, 2, 1 through its three
    /// seconds, and 0 where none is running.
    pub open spec fn countdown_number(self) -> nat {
        match self.countdown_start {
            Some(start) => if !self.game_running {
                0
            } else if self.clock - start < SECOND {
                3
            } else if self.clock - start < 2 * SECOND {
                2
            } else if self.clock - start < 3 * SECOND {
                1
            } else {
                0
            },
            None => 0,
        }
    }

    /// Whether the ball is to be shown: always, but during the countdown of
    /// a running match.
    pub open spec fn ball_visible(self) -> bool {
        !self.game_running || self.countdown_start.is_none()
    }
}

} // verus!
