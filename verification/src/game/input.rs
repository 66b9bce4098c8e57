//! What the players can do: the keys the match listens to.
use vstd::prelude::*;

verus! {

/// A key the match reacts to. `Up` and `Down` steer the left paddle while
/// they are held; the other four are commands that act once when pressed.
#[derive(Clone, Copy, Debug, PartialEq, Eq)]
pub enum Key {
    Up,
    Down,
    Start,
    Pause,
    Reset,
    Exit,
}

/// Which steering keys are held down at the moment.
#[derive(Clone, Copy, Debug, PartialEq, Eq)]
pub struct HeldKeys {
    pub up: bool,
    pub down: bool,
}

impl HeldKeys {
    /// The keys after `key` went down: a steering key is now held, a
    /// command key changes nothing here.
    pub open spec fn press(self, key: Key) -> HeldKeys {
        match key {
            Key::Up => HeldKeys { up: true, ..self },
            Key::Down => HeldKeys { down: true, ..self },
            _ => self,
        }
    }

    /// The keys after `key` came up.
    pub open spec fn release(self, key: Key) -> HeldKeys {
        match key {
            Key::Up => HeldKeys { up: false, ..self },
            Key::Down => HeldKeys { down: false, ..self },
            _ => self,
        }
    }

    /// No key held.
    pub fn new() -> (keys: HeldKeys)
        ensures
            keys == (HeldKeys { up: false, down: false }),
    {
        HeldKeys { up: false, down: false }
    }
}

} // verus!
