//! The ball: a point with a velocity, served from the centre of the field.
use vstd::prelude::*;
use crate::game::constants::{BALL_SPEED, PLAYER1, PLAYER2, SCREEN_HEIGHT, SCREEN_WIDTH};
use crate::random::ratio;

verus! {

/// The ball. `x` grows to the right and `y` downwards; `dx` and `dy` are
/// its speeds along the two axes in pixels per second. `last_winner` is the
/// player whose point came before the pending serve, if any.
#[derive(Clone, Copy, Debug, PartialEq, Eq)]
pub struct Ball {
    pub x: i64,
    pub y: i64,
    pub dx: i64,
    pub dy: i64,
    pub last_winner: Option<u8>,
}

/// The mathematical ball: the same values, unbounded.
pub struct BallModel {
    pub x: int,
    pub y: int,
    pub dx: int,
    pub dy: int,
    pub last_winner: Option<u8>,
}

impl View for Ball {
    type V = BallModel;

    open spec fn view(&self) -> BallModel {
        BallModel {
            x: self.x as int,
            y: self.y as int,
            dx: self.dx as int,
            dy: self.dy as int,
            last_winner: self.last_winner,
        }
    }
}

/// The horizontal speed of a serve. After a point the ball is served
/// towards the player who lost it: to the right after a point of the left
/// player, to the left after a point of the right player. Without a last
/// winner the draw `right` decides.
pub open spec fn serve_dx(last_winner: Option<u8>, right: bool) -> int {
    if last_winner == Some(PLAYER1) {
        BALL_SPEED as int
    } else if last_winner == Some(PLAYER2) {
        -BALL_SPEED
    } else if right {
        BALL_SPEED as int
    } else {
        -BALL_SPEED
    }
}

/// The vertical speed of a serve: the draw `down` alone decides.
pub open spec fn serve_dy(down: bool) -> int {
    if down {
        BALL_SPEED as int
    } else {
        -BALL_SPEED
    }
}

impl BallModel {
    /// A ball at rest in the centre of the field.
    pub open spec fn centered(last_winner: Option<u8>) -> BallModel {
        BallModel { x: SCREEN_WIDTH / 2, y: SCREEN_HEIGHT / 2, dx: 0, dy: 0, last_winner }
    }

    /// The ball is at rest, or moves at `BALL_SPEED` along both axes.
    pub open spec fn inv(self) -> bool {
        ||| self.dx == 0 && self.dy == 0
        ||| (self.dx == BALL_SPEED || self.dx == -BALL_SPEED) && (self.dy == BALL_SPEED || self.dy
            == -BALL_SPEED)
    }

    /// The centre of the ball lies on the field.
    pub open spec fn in_field(self) -> bool {
        0 <= self.x <= SCREEN_WIDTH && 0 <= self.y <= SCREEN_HEIGHT
    }

    /// Either speed is not zero.
    pub open spec fn is_moving(self) -> bool {
        self.dx != 0 || self.dy != 0
    }

    /// The ball after `delta` microseconds of free flight.
    pub open spec fn advance(self, delta: int) -> BallModel {
        BallModel { x: self.x + self.dx * delta, y: self.y + self.dy * delta, ..self }
    }

    /// The ball back in the centre, at rest, waiting for a serve that
    /// follows a point of `last_winner`.
    pub open spec fn reset(self, last_winner: Option<u8>) -> BallModel {
        BallModel::centered(last_winner)
    }

    /// The ball served from where it lies, with the two draws `right` and `down`.
    pub open spec fn launch(self, right: bool, down: bool) -> BallModel {
        BallModel { dx: serve_dx(self.last_winner, right), dy: serve_dy(down), ..self }
    }

    /// The ball with its horizontal speed negated.
    pub open spec fn reverse_dx(self) -> BallModel {
        BallModel { dx: -self.dx, ..self }
    }

    /// The ball with its vertical speed negated.
    pub open spec fn reverse_dy(self) -> BallModel {
        BallModel { dy: -self.dy, ..self }
    }

    /// The ball brought to rest where it lies.
    pub open spec fn stop(self) -> BallModel {
        BallModel { dx: 0, dy: 0, ..self }
    }
}

impl Ball {
    /// The ball is at rest, or moves at `BALL_SPEED` along both axes.
    pub open spec fn wf(&self) -> bool {
        self@.inv()
    }

    /// A ball at rest in the centre of the field, with no point played yet.
    pub fn new() -> (ball: Ball)
        ensures
            ball@ == BallModel::centered(None),
    {
        Ball { x: SCREEN_WIDTH / 2, y: SCREEN_HEIGHT / 2, dx: 0, dy: 0, last_winner: None }
    }

    /// Moves the ball by its velocity times `delta` microseconds. The ball
    /// is not kept on the field: leaving it is for the caller to detect.
    pub fn update(&mut self, delta: u32)
        requires
            i64::MIN <= old(self).x + old(self).dx * delta <= i64::MAX,
            i64::MIN <= old(self).y + old(self).dy * delta <= i64::MAX,
        ensures
            final(self)@ == old(self)@.advance(delta as int),
    {
        let x: i128 = self.x as i128 + travelled(self.dx, delta);
        let y: i128 = self.y as i128 + travelled(self.dy, delta);
        self.x = x as i64;
        self.y = y as i64;
    }

    /// Puts the ball back in the centre, at rest, and notes whose point came
    /// before the serve to come.
    pub fn reset(&mut self, last_winner: Option<u8>)
        ensures
            final(self)@ == old(self)@.reset(last_winner),
    {
        self.x = SCREEN_WIDTH / 2;
        self.y = SCREEN_HEIGHT / 2;
        self.dx = 0;
        self.dy = 0;
        self.last_winner = last_winner;
    }

    /// Serves the ball with the given draws: `right` is used only where no
    /// player won the last point, `down` always.
    pub fn launch_with(&mut self, right: bool, down: bool)
        ensures
            final(self)@ == old(self)@.launch(right, down),
    {
        self.dx = match self.last_winner {
            Some(PLAYER1) => BALL_SPEED,
            Some(PLAYER2) => -BALL_SPEED,
            _ => if right { BALL_SPEED } else { -BALL_SPEED },
        };
        self.dy = if down { BALL_SPEED } else { -BALL_SPEED };
    }

    /// Serves the ball with two fair random draws.
    pub fn launch(&mut self)
        ensures
            exists|right: bool, down: bool| final(self)@ == old(self)@.launch(right, down),
    {
        let right: bool = ratio(1, 2);
        let down: bool = ratio(1, 2);
        self.launch_with(right, down);
    }

    /// Negates the horizontal speed.
    pub fn reverse_dx(&mut self)
        requires
            old(self).dx > i64::MIN,
        ensures
            final(self)@ == old(self)@.reverse_dx(),
    {
        self.dx = -self.dx;
    }

    /// Negates the vertical speed.
    pub fn reverse_dy(&mut self)
        requires
            old(self).dy > i64::MIN,
        ensures
            final(self)@ == old(self)@.reverse_dy(),
    {
        self.dy = -self.dy;
    }

    /// Brings the ball to rest where it lies.
    pub fn stop(&mut self)
        ensures
            final(self)@ == old(self)@.stop(),
    {
        self.dx = 0;
        self.dy = 0;
    }

    /// Whether either speed is not zero.
    pub fn is_moving(&self) -> (moving: bool)
        ensures
            moving == self@.is_moving(),
            !moving <==> self.dx == 0 && self.dy == 0,
    {
        self.dx != 0 || self.dy != 0
    }
}

/// The distance covered at `speed` in `delta` microseconds.
fn travelled(speed: i64, delta: u32) -> (distance: i128)
    ensures
        distance == speed * delta,
{
    assert(-0x8000_0000_0000_0000_0000_0000 <= speed * delta <= 0x8000_0000_0000_0000_0000_0000)
        by (nonlinear_arith)
        requires
            -0x8000_0000_0000_0000 <= speed <= 0x8000_0000_0000_0000,
            0 <= delta <= 0x1_0000_0000,
    ;
    (speed as i128) * (delta as i128)
}

/// Free flight is linear in time: each coordinate of the ball grows by its
/// speed times the time, and flying for one time and then another is flying
/// for their sum.
pub proof fn lemma_advance_linear(ball: BallModel, delta: int, more: int)
    requires
        delta >= 0,
        more >= 0,
    ensures
        ball.advance(delta).x == ball.x + ball.dx * delta,
        ball.advance(delta).y == ball.y + ball.dy * delta,
        ball.advance(delta).dx == ball.dx,
        ball.advance(delta).dy == ball.dy,
        ball.advance(0) == ball,
        ball.advance(delta).advance(more) == ball.advance(delta + more),
{
    assert(ball.dx * delta + ball.dx * more == ball.dx * (delta + more)) by (nonlinear_arith);
    assert(ball.dy * delta + ball.dy * more == ball.dy * (delta + more)) by (nonlinear_arith);
}

/// Reversing a speed flips its sign and keeps its magnitude, and reversing
/// twice changes nothing.
pub proof fn lemma_reverse_keeps_magnitude(ball: BallModel)
    ensures
        ball.reverse_dx().dx == -ball.dx,
        vstd::math::abs(ball.reverse_dx().dx) == vstd::math::abs(ball.dx),
        ball.reverse_dx().dy == ball.dy,
        ball.reverse_dy().dy == -ball.dy,
        vstd::math::abs(ball.reverse_dy().dy) == vstd::math::abs(ball.dy),
        ball.reverse_dy().dx == ball.dx,
        ball.reverse_dx().reverse_dx() == ball,
        ball.reverse_dy().reverse_dy() == ball,
{
}

/// A ball that is at rest or at full speed remains so whatever is done
/// with it, and a served ball is at full speed whatever it was before.
pub proof fn lemma_ball_stays_sound(
    ball: BallModel,
    delta: int,
    winner: Option<u8>,
    right: bool,
    down: bool,
)
    ensures
        BallModel::centered(winner).inv(),
        ball.reset(winner).inv(),
        ball.stop().inv(),
        ball.launch(right, down).inv(),
        ball.inv() ==> ball.advance(delta).inv(),
        ball.inv() ==> ball.reverse_dx().inv(),
        ball.inv() ==> ball.reverse_dy().inv(),
{
}

/// A ball is at rest exactly when both speeds are zero.
pub proof fn lemma_moving_iff_nonzero(ball: BallModel)
    ensures
        !ball.is_moving() <==> ball.dx == 0 && ball.dy == 0,
        !ball.stop().is_moving(),
        !ball.reset(ball.last_winner).is_moving(),
{
}

/// After a point the serve is not random along the horizontal axis: it
/// leaves the winner's side, whatever is drawn. Every serve has speed
/// `BALL_SPEED` along both axes.
pub proof fn lemma_serve_bias(ball: BallModel, winner: Option<u8>, right: bool, down: bool)
    ensures
        winner == Some(PLAYER1) ==> ball.reset(winner).launch(right, down).dx == BALL_SPEED,
        winner == Some(PLAYER2) ==> ball.reset(winner).launch(right, down).dx == -BALL_SPEED,
        winner != Some(PLAYER1) && winner != Some(PLAYER2) ==> ball.reset(winner).launch(
            right,
            down,
        ).dx == (if right { BALL_SPEED as int } else { -BALL_SPEED }),
        ball.launch(right, down).is_moving(),
        vstd::math::abs(ball.launch(right, down).dx) == BALL_SPEED,
        vstd::math::abs(ball.launch(right, down).dy) == BALL_SPEED,
{
}

} // verus!
