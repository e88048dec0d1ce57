//! The payout calculator: stake limits and the house-edge payout formula.

use vstd::prelude::*;
use crate::error::CustomError;
use crate::outcome::GameType;

verus! {

/// The smallest units in one native coin.
pub const LAMPORTS_PER_SOL: u64 = 1_000_000_000;

/// The house edge is `HOUSE_EDGE_PERCENT / HOUSE_EDGE_DENOMINATOR`: 2.5%.
pub const HOUSE_EDGE_PERCENT: u64 = 25;

pub const HOUSE_EDGE_DENOMINATOR: u64 = 1000;

/// The smallest stake accepted: a thousandth of a coin.
pub const MIN_BET: u64 = LAMPORTS_PER_SOL / 1000;

/// The largest stake accepted: five coins.
pub const MAX_BET: u64 = LAMPORTS_PER_SOL * 5;

/// What `validate_stake` answers for a stake.
pub open spec fn stake_verdict(stake: u64) -> Result<(), CustomError> {
    if stake < MIN_BET {
        Err(CustomError::BetTooSmall)
    } else if stake > MAX_BET {
        Err(CustomError::BetTooLarge)
    } else {
        Ok(())
    }
}

/// The factor, in parts of `HOUSE_EDGE_DENOMINATOR`, by which a winning stake
/// is multiplied: twice the stake less the edge for a coin flip, six times the
/// stake less the edge on each of the six for a dice roll.
pub open spec fn payout_factor(game_type: GameType) -> nat {
    match game_type {
        GameType::CoinFlip => (2 * HOUSE_EDGE_DENOMINATOR - HOUSE_EDGE_PERCENT) as nat,
        GameType::DiceRoll => (6 * (HOUSE_EDGE_DENOMINATOR - HOUSE_EDGE_PERCENT)) as nat,
    }
}

/// The payout of a winning stake, rounded down.
pub open spec fn winning_payout(game_type: GameType, stake: u64) -> nat {
    stake as nat * payout_factor(game_type) / (HOUSE_EDGE_DENOMINATOR as nat)
}

/// What `compute_payout` answers: nothing for a loss, the winning payout for a
/// win, and a fault where the product of stake and factor leaves `u64`.
pub open spec fn payout_verdict(game_type: GameType, stake: u64, won: bool) -> Result<
    u64,
    CustomError,
> {
    if !won {
        Ok(0)
    } else if stake as nat * payout_factor(game_type) > u64::MAX {
        Err(CustomError::ArithmeticFault)
    } else {
        Ok(winning_payout(game_type, stake) as u64)
    }
}

/// In numbers: the limits are a million and five thousand million units, and a
/// win pays 1975 thousandths of the stake on a coin flip, 5850 on a dice roll.
pub proof fn limits_and_factors()
    ensures
        MIN_BET == 1_000_000,
        MAX_BET == 5_000_000_000,
        payout_factor(GameType::CoinFlip) == 1975,
        payout_factor(GameType::DiceRoll) == 5850,
{
}

/// A stake within the limits always has a payout: the product never leaves
/// `u64`, and the payout lies above the stake and at most at six times the stake.
pub proof fn accepted_stake_pays(game_type: GameType, stake: u64)
    requires
        MIN_BET <= stake <= MAX_BET,
    ensures
        payout_verdict(game_type, stake, true) == Ok::<u64, CustomError>(
            winning_payout(game_type, stake) as u64,
        ),
        stake < winning_payout(game_type, stake) <= 6 * stake,
{
    limits_and_factors();
}

/// The edge is the custodian's: a win pays less than the stake times the number
/// of outcomes the game has, two for a coin flip and six for a dice roll.
pub proof fn payout_is_below_even_odds(game_type: GameType, stake: u64)
    requires
        stake > 0,
    ensures
        game_type == GameType::CoinFlip ==> winning_payout(game_type, stake) < 2 * stake,
        game_type == GameType::DiceRoll ==> winning_payout(game_type, stake) < 6 * stake,
{
    limits_and_factors();
}

/// For a stake within the limits the payout is zero exactly when the game was lost.
pub proof fn payout_zero_iff_lost(game_type: GameType, stake: u64, won: bool)
    requires
        MIN_BET <= stake <= MAX_BET,
    ensures
        payout_verdict(game_type, stake, won) is Ok,
        payout_verdict(game_type, stake, won)->Ok_0 == 0 <==> !won,
{
    accepted_stake_pays(game_type, stake);
}

/// Accepts a stake within `[MIN_BET, MAX_BET]` and names the limit it breaks otherwise.
pub fn validate_stake(stake: u64) -> (r: Result<(), CustomError>)
    ensures
        r == stake_verdict(stake),
{
    if stake < MIN_BET {
        Err(CustomError::BetTooSmall)
    } else if stake > MAX_BET {
        Err(CustomError::BetTooLarge)
    } else {
        Ok(())
    }
}

/// Computes the payout of a game with checked arithmetic.
pub fn compute_payout(game_type: GameType, stake: u64, won: bool) -> (r: Result<u64, CustomError>)
    ensures
        r == payout_verdict(game_type, stake, won),
{
    if !won {
        return Ok(0);
    }
    proof {
        limits_and_factors();
    }
    let product = match game_type {
        GameType::CoinFlip => stake.checked_mul(2 * HOUSE_EDGE_DENOMINATOR - HOUSE_EDGE_PERCENT),
        GameType::DiceRoll => match stake.checked_mul(6) {
            Some(sixfold) => sixfold.checked_mul(HOUSE_EDGE_DENOMINATOR - HOUSE_EDGE_PERCENT),
            None => None,
        },
    };
    match product {
        Some(p) => Ok(p / HOUSE_EDGE_DENOMINATOR),
        None => Err(CustomError::ArithmeticFault),
    }
}

} // verus!
