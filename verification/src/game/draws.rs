//! The random draws that one frame may consume, gathered in one value so
//! that the rest of the game is a function of its arguments.
use vstd::prelude::*;
use crate::game::constants::{AI_ERROR_MARGIN, AI_HESITATION_PERCENT};
use crate::random::{between, ratio};

verus! {

/// One frame's worth of chance.
#[derive(Clone, Copy, Debug, PartialEq, Eq)]
pub struct Draws {
    /// A serve without a last winner goes to the right.
    pub serve_right: bool,
    /// A serve goes downwards.
    pub serve_down: bool,
    /// The computer-driven paddle stands still this frame.
    pub hesitate: bool,
    /// The computer's aiming error, added to the height of the ball.
    pub error_margin: i64,
}

impl Draws {
    /// The aiming error is within its margin.
    pub open spec fn wf(&self) -> bool {
        -AI_ERROR_MARGIN <= self.error_margin < AI_ERROR_MARGIN
    }

    /// Fresh draws: two fair coins for the serve, a hesitation with
    /// `AI_HESITATION_PERCENT` chances in a hundred, and an aiming error from
    /// `-AI_ERROR_MARGIN..AI_ERROR_MARGIN`.
    pub fn roll() -> (draws: Draws)
        ensures
            draws.wf(),
    {
        Draws {
            serve_right: ratio(1, 2),
            serve_down: ratio(1, 2),
            hesitate: ratio(AI_HESITATION_PERCENT, 100),
            error_margin: between(-AI_ERROR_MARGIN, AI_ERROR_MARGIN),
        }
    }
}

} // verus!
