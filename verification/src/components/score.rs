//! The score board: two tallies, and a highlight of the last scorer that
//! fades after a fixed time.
use vstd::prelude::*;
use crate::game::constants::{FLASH_DURATION, PLAYER1, PLAYER2};

verus! {

/// The score board. `flash_winner` is the player whose point is being
/// highlighted and `flash_start` the time of that point, in microseconds on
/// the clock of whoever keeps the score.
#[derive(Clone, Copy, Debug, PartialEq, Eq)]
pub struct Score {
    pub player1: u32,
    pub player2: u32,
    pub flash_winner: Option<u8>,
    pub flash_start: Option<u64>,
}

/// The mathematical score board: the same values, unbounded.
pub struct ScoreModel {
    pub player1: nat,
    pub player2: nat,
    pub flash_winner: Option<u8>,
    pub flash_start: Option<nat>,
}

impl View for Score {
    type V = ScoreModel;

    open spec fn view(&self) -> ScoreModel {
        ScoreModel {
            player1: self.player1 as nat,
            player2: self.player2 as nat,
            flash_winner: self.flash_winner,
            flash_start: match self.flash_start {
                Some(start) => Some(start as nat),
                None => None,
            },
        }
    }
}

impl ScoreModel {
    /// No points and no highlight.
    pub open spec fn empty() -> ScoreModel {
        ScoreModel { player1: 0, player2: 0, flash_winner: None, flash_start: None }
    }

    /// The highlighted player and the time of the highlight are there
    /// together or not at all, and the highlighted player is one of the two.
    pub open spec fn inv(self) -> bool {
        &&& self.flash_winner.is_some() <==> self.flash_start.is_some()
        &&& self.flash_winner.is_some() ==> self.flash_winner == Some(PLAYER1) || self.flash_winner
            == Some(PLAYER2)
    }

    /// The board after a point of the left player at time `now`.
    pub open spec fn increment_player1(self, now: nat) -> ScoreModel {
        ScoreModel {
            player1: self.player1 + 1,
            flash_winner: Some(PLAYER1),
            flash_start: Some(now),
            ..self
        }
    }

    /// The board after a point of the right player at time `now`.
    pub open spec fn increment_player2(self, now: nat) -> ScoreModel {
        ScoreModel {
            player2: self.player2 + 1,
            flash_winner: Some(PLAYER2),
            flash_start: Some(now),
            ..self
        }
    }

    /// The board wiped clean.
    pub open spec fn reset(self) -> ScoreModel {
        ScoreModel::empty()
    }

    /// Whether at time `now` a point is still highlighted: one was scored
    /// less than `FLASH_DURATION` before.
    pub open spec fn is_flash_active(self, now: nat) -> bool {
        match self.flash_start {
            Some(start) => now - start < FLASH_DURATION,
            None => false,
        }
    }
}

impl Score {
    /// The highlighted player and the time of the highlight are there
    /// together or not at all.
    pub open spec fn wf(&self) -> bool {
        self@.inv()
    }

    /// A board with no points and no highlight.
    pub fn new() -> (score: Score)
        ensures
            score@ == ScoreModel::empty(),
    {
        Score { player1: 0, player2: 0, flash_winner: None, flash_start: None }
    }

    /// Gives the left player a point at time `now` and highlights it.
    pub fn increment_player1(&mut self, now: u64)
        requires
            old(self).player1 < u32::MAX,
        ensures
            final(self)@ == old(self)@.increment_player1(now as nat),
    {
        self.player1 += 1;
        self.flash_winner = Some(PLAYER1);
        self.flash_start = Some(now);
    }

    /// Gives the right player a point at time `now` and highlights it.
    pub fn increment_player2(&mut self, now: u64)
        requires
            old(self).player2 < u32::MAX,
        ensures
            final(self)@ == old(self)@.increment_player2(now as nat),
    {
        self.player2 += 1;
        self.flash_winner = Some(PLAYER2);
        self.flash_start = Some(now);
    }

    /// Wipes the board clean.
    pub fn reset(&mut self)
        ensures
            final(self)@ == old(self)@.reset(),
    {
        self.player1 = 0;
        self.player2 = 0;
        self.flash_winner = None;
        self.flash_start = None;
    }

    /// Whether at time `now` a point is still highlighted.
    pub fn is_flash_active(&self, now: u64) -> (active: bool)
        ensures
            active == self@.is_flash_active(now as nat),
    {
        match self.flash_start {
            Some(start) => now < start || now - start < FLASH_DURATION as u64,
            None => false,
        }
    }
}

/// A point adds one to the scorer's tally alone and is highlighted from the
/// moment it is scored until `FLASH_DURATION` has passed, and not after.
pub proof fn lemma_flash_window(score: ScoreModel, now: nat, later: nat)
    requires
        now <= later,
    ensures
        score.increment_player1(now).player1 == score.player1 + 1,
        score.increment_player1(now).player2 == score.player2,
        score.increment_player1(now).flash_winner == Some(PLAYER1),
        score.increment_player2(now).player2 == score.player2 + 1,
        score.increment_player2(now).player1 == score.player1,
        score.increment_player2(now).flash_winner == Some(PLAYER2),
        score.increment_player1(now).is_flash_active(now),
        score.increment_player2(now).is_flash_active(now),
        score.increment_player1(now).is_flash_active(later) <==> later < now + FLASH_DURATION,
        score.increment_player2(now).is_flash_active(later) <==> later < now + FLASH_DURATION,
        score.increment_player1(now).inv(),
        score.increment_player2(now).inv(),
        !score.reset().is_flash_active(later),
        score.reset().inv(),
{
}

} // verus!
