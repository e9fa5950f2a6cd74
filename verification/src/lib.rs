//! A minimal stateful wager game.
//!
//! A player deposits a fixed amount of a token (`Pull`), which allocates a
//! new pending game and emits a request for external randomness. When the
//! randomness provider calls back (`ReceiveEntropy`), the game resolves to a
//! win or a loss from the first three bytes of entropy, paying a fixed
//! reward on a win. Games can be inspected at any time (`Game` query).
//!
//! The host ledger that persists state transactionally, the randomness
//! beacon itself, and actual token settlement are external collaborators:
//! this crate holds the game rules, the store model, and the handlers, all
//! of them verified.

pub mod contract;
pub mod error;
pub mod msg;
pub mod state;
