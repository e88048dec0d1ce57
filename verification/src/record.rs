//! The result recorder: the record of a settled game and the event that mirrors it.

use vstd::prelude::*;
use crate::error::CustomError;
use crate::outcome::{in_outcome_domain, GameType};

verus! {

/// The record of one settled game. Written once, never changed.
#[derive(Clone, Copy, Debug, PartialEq, Eq)]
pub struct GameResult {
    pub player: [u8; 32],
    pub game_type: GameType,
    pub stake: u64,
    pub player_choice: u8,
    pub outcome: u8,
    pub payout: u64,
    pub won: bool,
    pub timestamp: i64,
}

/// The notification sent out for a settled game: the record's fields, copied.
#[derive(Clone, Copy, Debug, PartialEq, Eq)]
pub struct GameResultEvent {
    pub player: [u8; 32],
    pub game_type: GameType,
    pub stake: u64,
    pub player_choice: u8,
    pub outcome: u8,
    pub payout: u64,
    pub won: bool,
    pub timestamp: i64,
}

impl GameResult {
    /// A lost game pays nothing, and the outcome is one the game can have.
    pub open spec fn well_formed(self) -> bool {
        &&& !self.won ==> self.payout == 0
        &&& in_outcome_domain(self.game_type, self.outcome)
    }

    /// The event that mirrors this record.
    pub open spec fn event_of(self) -> GameResultEvent {
        GameResultEvent {
            player: self.player,
            game_type: self.game_type,
            stake: self.stake,
            player_choice: self.player_choice,
            outcome: self.outcome,
            payout: self.payout,
            won: self.won,
            timestamp: self.timestamp,
        }
    }

    /// Builds the event that mirrors this record.
    pub fn event(&self) -> (e: GameResultEvent)
        ensures
            e == self.event_of(),
    {
        GameResultEvent {
            player: self.player,
            game_type: self.game_type,
            stake: self.stake,
            player_choice: self.player_choice,
            outcome: self.outcome,
            payout: self.payout,
            won: self.won,
            timestamp: self.timestamp,
        }
    }
}

/// What `record_result` leaves in the slot and answers.
pub open spec fn recorded(slot: Option<GameResult>, record: GameResult) -> Result<
    Option<GameResult>,
    CustomError,
> {
    if slot is Some {
        Err(CustomError::StorageUnavailable)
    } else {
        Ok(Some(record))
    }
}

/// Writes the record into an empty slot and hands back the event to send out.
/// A slot that is taken is left as it is and gives `StorageUnavailable`.
pub fn record_result(slot: &mut Option<GameResult>, record: GameResult) -> (r: Result<
    GameResultEvent,
    CustomError,
>)
    ensures
        match recorded(*old(slot), record) {
            Ok(filled) => r == Ok::<GameResultEvent, CustomError>(record.event_of())
                && *final(slot) == filled,
            Err(e) => r == Err::<GameResultEvent, CustomError>(e) && *final(slot) == *old(slot),
        },
{
    if slot.is_some() {
        return Err(CustomError::StorageUnavailable);
    }
    *slot = Some(record);
    Ok(record.event())
}

} // verus!
