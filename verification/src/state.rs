//! The persistent state model: the immutable configuration, the monotonic
//! game counter, and the game records.
//!
//! The store holds game `i` at position `i` of a vector whose length always
//! equals the counter, so a game record exists exactly when its identifier
//! is strictly below the current counter value.

use vstd::prelude::*;

verus! {

/// The global configuration, set once at initialization and immutable
/// thereafter.
#[derive(Clone, Debug, PartialEq, Eq)]
pub struct State {
    /// Identity of the trusted external randomness beacon.
    pub entropy_beacon_addr: String,
    /// The accepted token denomination.
    pub token: String,
    /// The required deposit amount, in the token's smallest unit; positive.
    pub play_amount: u128,
    /// The amount paid out on a win.
    pub win_amount: u128,
    /// The fixed fee taken on every play; zero means no fee.
    pub fee_amount: u128,
}

/// One play of the game.
#[derive(Clone, Debug, PartialEq, Eq)]
pub struct Game {
    /// The player that made the deposit; set once, at creation.
    pub player: String,
    /// `None` while no randomness has arrived; `Some` of the three entropy
    /// bytes once the game has resolved.
    pub result: Option<(u8, u8, u8)>,
}

impl Game {
    /// The record a fresh `Pull` by `player` persists.
    pub open spec fn pending(player: String) -> Game {
        Game { player, result: None }
    }

    /// The win predicate: the game has resolved and its three bytes fall in
    /// the same one of the 16 equal-width buckets over the byte range.
    pub open spec fn win_spec(self) -> bool {
        match self.result {
            None => false,
            Some(t) => t.0 / 16 == t.1 / 16 && t.1 / 16 == t.2 / 16,
        }
    }

    /// Computes the win predicate.
    pub fn win(&self) -> (w: bool)
        ensures
            w == self.win_spec(),
    {
        match self.result {
            None => false,
            Some(t) => t.0 / 16 == t.1 / 16 && t.1 / 16 == t.2 / 16,
        }
    }
}

/// The whole persistent state: configuration, counter, and game records.
#[derive(Clone, Debug, PartialEq, Eq)]
pub struct Store {
    /// The configuration.
    pub state: State,
    /// The monotonic counter; the identifier the next game will take.
    pub idx: u64,
    /// The game records; game `i` lives at position `i`.
    pub games: Vec<Game>,
}

impl Store {
    /// Well-formedness: a game record exists exactly for the identifiers
    /// below the counter, and the configured deposit is positive.
    pub open spec fn wf(self) -> bool {
        &&& self.games@.len() == self.idx
        &&& self.state.play_amount > 0
    }
}

} // verus!
