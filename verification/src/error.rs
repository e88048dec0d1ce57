//! The failure codes a settlement can surface.

use vstd::prelude::*;

verus! {

/// Why an operation was refused. Every refusal leaves all state as it was.
#[derive(Clone, Copy, Debug, PartialEq, Eq)]
pub enum CustomError {
    /// The stake is below `MIN_BET`.
    BetTooSmall,
    /// The stake is above `MAX_BET`.
    BetTooLarge,
    /// The prediction is not a possible outcome of the game.
    InvalidPrediction,
    /// The host's entropy buffer holds fewer than eight bytes.
    EntropyUnavailable,
    /// A payout, a balance or a ledger counter left the range of `u64`.
    ArithmeticFault,
    /// The participant did not sign for the stake transfer.
    Unauthorized,
    /// The paying account cannot cover a transfer.
    InsufficientFunds,
    /// The slot for the result record is already taken.
    StorageUnavailable,
    /// The ledger already exists.
    AlreadyInitialized,
}

impl CustomError {
    /// The text that goes with each code.
    pub open spec fn message_of(self) -> Seq<char> {
        match self {
            CustomError::BetTooSmall => "Bet amount is below minimum"@,
            CustomError::BetTooLarge => "Bet amount is above maximum"@,
            CustomError::InvalidPrediction => "Invalid prediction for dice roll"@,
            CustomError::EntropyUnavailable => "Entropy source is unavailable"@,
            CustomError::ArithmeticFault => "Arithmetic overflow or underflow"@,
            CustomError::Unauthorized => "Transfer is not authorized"@,
            CustomError::InsufficientFunds => "Insufficient funds for transfer"@,
            CustomError::StorageUnavailable => "Result record slot is unavailable"@,
            CustomError::AlreadyInitialized => "Ledger is already initialized"@,
        }
    }

    /// Describes the failure in words.
    pub fn message(&self) -> (text: String)
        ensures
            text@ == self.message_of(),
    {
        match self {
            CustomError::BetTooSmall => "Bet amount is below minimum".to_owned(),
            CustomError::BetTooLarge => "Bet amount is above maximum".to_owned(),
            CustomError::InvalidPrediction => "Invalid prediction for dice roll".to_owned(),
            CustomError::EntropyUnavailable => "Entropy source is unavailable".to_owned(),
            CustomError::ArithmeticFault => "Arithmetic overflow or underflow".to_owned(),
            CustomError::Unauthorized => "Transfer is not authorized".to_owned(),
            CustomError::InsufficientFunds => "Insufficient funds for transfer".to_owned(),
            CustomError::StorageUnavailable => "Result record slot is unavailable".to_owned(),
            CustomError::AlreadyInitialized => "Ledger is already initialized".to_owned(),
        }
    }
}

} // verus!
