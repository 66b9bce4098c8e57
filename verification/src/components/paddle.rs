//! A paddle: a bar that slides up and down along one side of the field.
use vstd::prelude::*;
use crate::game::constants::{PADDLE_MAX_Y};

verus! {

/// A paddle. `x` is fixed when it is made; `y` is its distance from the top
/// of the field.
#[derive(Clone, Copy, Debug, PartialEq, Eq)]
pub struct Paddle {
    pub x: i64,
    pub y: i64,
}

/// The mathematical paddle: the same two coordinates, unbounded.
pub struct PaddleModel {
    pub x: int,
    pub y: int,
}

impl View for Paddle {
    type V = PaddleModel;

    open spec fn view(&self) -> PaddleModel {
        PaddleModel { x: self.x as int, y: self.y as int }
    }
}

/// `v` brought into `lo..=hi`.
pub open spec fn clamp(v: int, lo: int, hi: int) -> int {
    if v < lo {
        lo
    } else if v > hi {
        hi
    } else {
        v
    }
}

impl PaddleModel {
    /// The paddle lies wholly inside the field.
    pub open spec fn inv(self) -> bool {
        0 <= self.y <= PADDLE_MAX_Y
    }

    /// The paddle after a move by `amount`, stopped at the edges of the field.
    pub open spec fn move_by(self, amount: int) -> PaddleModel {
        PaddleModel { x: self.x, y: clamp(self.y + amount, 0, PADDLE_MAX_Y as int) }
    }
}

impl Paddle {
    /// The paddle lies wholly inside the field.
    pub open spec fn wf(&self) -> bool {
        self@.inv()
    }

    /// A paddle at the given place.
    pub fn new(x: i64, y: i64) -> (p: Paddle)
        ensures
            p.x == x,
            p.y == y,
    {
        Paddle { x, y }
    }

    /// Moves the paddle down by `amount` (up, if negative) and stops it at
    /// the top or the bottom of the field.
    pub fn move_by(&mut self, amount: i64)
        ensures
            final(self)@ == old(self)@.move_by(amount as int),
            final(self).wf(),
    {
        let moved: i64 = match self.y.checked_add(amount) {
            Some(sum) => sum,
            None => if amount > 0 { i64::MAX } else { i64::MIN },
        };
        self.y = if moved < 0 {
            0
        } else if moved > PADDLE_MAX_Y {
            PADDLE_MAX_Y
        } else {
            moved
        };
    }
}

/// Moves that would leave the field end exactly at the nearer edge, and stay
/// there when repeated.
pub proof fn lemma_move_by_saturates(p: PaddleModel, amount: int, again: int)
    requires
        p.inv(),
    ensures
        p.move_by(amount).inv(),
        p.y + amount >= PADDLE_MAX_Y ==> p.move_by(amount).y == PADDLE_MAX_Y,
        p.y + amount <= 0 ==> p.move_by(amount).y == 0,
        p.y + amount >= PADDLE_MAX_Y && again >= 0 ==> p.move_by(amount).move_by(again) == p.move_by(amount),
        p.y + amount <= 0 && again <= 0 ==> p.move_by(amount).move_by(again) == p.move_by(amount),
        0 <= p.y + amount <= PADDLE_MAX_Y ==> p.move_by(amount).y == p.y + amount,
{
}

} // verus!
