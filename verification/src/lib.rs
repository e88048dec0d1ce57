//! A wager-settlement engine.
//!
//! One settlement validates a bet, pulls the stake into custody, derives the
//! outcome from host-supplied entropy, pays a winner out under a fixed house
//! edge, updates the ledger and records the result. The engine is a
//! deterministic transition on the values the host hands it: either every
//! effect of a settlement applies, or none does.

pub mod entropy;
pub mod error;
pub mod funds;
pub mod game;
pub mod ledger;
pub mod outcome;
pub mod payout;
pub mod record;

pub use error::CustomError;
pub use game::{play, play_coin_flip, play_dice_roll, PlayGame, Settlement};
pub use ledger::{initialize, GameState, Initialize};
pub use outcome::GameType;
pub use record::{GameResult, GameResultEvent};
