//! The outcome resolver: from a seed to the outcome of a game.

use vstd::prelude::*;
use crate::entropy::{seed_of, seed_reads_first_eight_bytes};
use crate::error::CustomError;

verus! {

/// The games on offer.
#[derive(Clone, Copy, Debug, PartialEq, Eq)]
pub enum GameType {
    /// Outcomes 0 (tails) and 1 (heads).
    CoinFlip,
    /// Outcomes 1 to 6.
    DiceRoll,
}

/// The outcomes a game can have, which are also the predictions it accepts.
pub open spec fn in_outcome_domain(game_type: GameType, value: u8) -> bool {
    match game_type {
        GameType::CoinFlip => value <= 1,
        GameType::DiceRoll => 1 <= value <= 6,
    }
}

/// The outcome that a seed gives: `seed mod 2` for a coin flip, `seed mod 6 + 1`
/// for a dice roll.
pub open spec fn outcome_of(game_type: GameType, seed: u64) -> u8 {
    match game_type {
        GameType::CoinFlip => (seed % 2) as u8,
        GameType::DiceRoll => (seed % 6 + 1) as u8,
    }
}

/// The prediction that a call of heads or tails stands for: 1 for heads, 0 for tails.
pub open spec fn coin_choice_of(is_heads: bool) -> u8 {
    if is_heads {
        1
    } else {
        0
    }
}

/// What `validate_prediction` answers.
pub open spec fn prediction_verdict(game_type: GameType, prediction: u8) -> Result<
    (),
    CustomError,
> {
    if in_outcome_domain(game_type, prediction) {
        Ok(())
    } else {
        Err(CustomError::InvalidPrediction)
    }
}

/// Every outcome lies in its game's domain.
pub proof fn outcome_in_domain(game_type: GameType, seed: u64)
    ensures
        in_outcome_domain(game_type, outcome_of(game_type, seed)),
{
}

/// The outcome is a function of the game and the first eight entropy bytes:
/// two buffers that agree on those bytes give the same outcome for a given game.
pub proof fn outcome_is_pure(game_type: GameType, a: Seq<u8>, b: Seq<u8>)
    requires
        a.len() >= 8,
        b.len() >= 8,
        a.subrange(0, 8) == b.subrange(0, 8),
    ensures
        outcome_of(game_type, seed_of(a) as u64) == outcome_of(game_type, seed_of(b) as u64),
{
    seed_reads_first_eight_bytes(a, b);
}

/// Maps heads to 1 and tails to 0.
pub fn coin_choice(is_heads: bool) -> (choice: u8)
    ensures
        choice == coin_choice_of(is_heads),
{
    if is_heads {
        1
    } else {
        0
    }
}

/// Accepts a prediction that is a possible outcome of the game; any other
/// gives `InvalidPrediction`.
pub fn validate_prediction(game_type: GameType, prediction: u8) -> (r: Result<(), CustomError>)
    ensures
        r == prediction_verdict(game_type, prediction),
{
    let valid = match game_type {
        GameType::CoinFlip => prediction <= 1,
        GameType::DiceRoll => 1 <= prediction && prediction <= 6,
    };
    if valid {
        Ok(())
    } else {
        Err(CustomError::InvalidPrediction)
    }
}

/// Maps a seed to the outcome of a game.
pub fn resolve_outcome(game_type: GameType, seed: u64) -> (outcome: u8)
    ensures
        outcome == outcome_of(game_type, seed),
{
    match game_type {
        GameType::CoinFlip => (seed % 2) as u8,
        GameType::DiceRoll => (seed % 6 + 1) as u8,
    }
}

} // verus!
