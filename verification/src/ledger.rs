//! The ledger: aggregate counters and the custodian's net position.

use vstd::prelude::*;
use crate::error::CustomError;

verus! {

/// The singleton ledger.
#[derive(Clone, Copy, Debug, PartialEq, Eq)]
pub struct GameState {
    /// Who created the ledger. Set once.
    pub authority: [u8; 32],
    /// How many games were settled.
    pub total_games: u64,
    /// The sum of all stakes wagered.
    pub total_volume: u64,
    /// What the custodian has taken in stakes less what it has paid out.
    pub house_balance: u64,
}

/// What an initialization works on: who asks, and the ledger's slot, which is
/// empty until the ledger is created.
#[derive(Clone, Copy, Debug, PartialEq, Eq)]
pub struct Initialize {
    pub authority: [u8; 32],
    pub game_state: Option<GameState>,
}

impl GameState {
    /// A ledger that has seen no game.
    pub open spec fn fresh(authority: [u8; 32]) -> GameState {
        GameState { authority, total_games: 0, total_volume: 0, house_balance: 0 }
    }

    /// The ledger after one more game: one game and the stake added to the
    /// counters, the stake added to the house balance and, for a win, the
    /// payout taken off it. A counter that would leave `u64`, on the way or at
    /// the end, or a house balance that would fall below zero, is a fault.
    pub open spec fn settled(self, stake: u64, payout: u64, won: bool) -> Result<
        GameState,
        CustomError,
    > {
        let paid: int = if won {
            payout as int
        } else {
            0
        };
        if self.total_games + 1 > u64::MAX || self.total_volume + stake > u64::MAX
            || self.house_balance + stake > u64::MAX || self.house_balance + stake < paid {
            Err(CustomError::ArithmeticFault)
        } else {
            Ok(
                GameState {
                    authority: self.authority,
                    total_games: (self.total_games + 1) as u64,
                    total_volume: (self.total_volume + stake) as u64,
                    house_balance: (self.house_balance + stake - paid) as u64,
                },
            )
        }
    }

    /// Creates a ledger with zeroed counters.
    pub fn new(authority: [u8; 32]) -> (ledger: GameState)
        ensures
            ledger == GameState::fresh(authority),
    {
        GameState { authority, total_games: 0, total_volume: 0, house_balance: 0 }
    }

    /// Books one settled game. On a fault the ledger stays as it was.
    pub fn settle(&mut self, stake: u64, payout: u64, won: bool) -> (r: Result<(), CustomError>)
        ensures
            match old(self).settled(stake, payout, won) {
                Ok(next) => r is Ok && *final(self) == next,
                Err(e) => r == Err::<(), CustomError>(e) && *final(self) == *old(self),
            },
            r is Ok ==> final(self).authority == old(self).authority,
            r is Ok ==> final(self).total_games == old(self).total_games + 1,
            r is Ok ==> final(self).total_volume == old(self).total_volume + stake,
            r is Ok && !won ==> final(self).house_balance == old(self).house_balance + stake,
            r is Ok && won ==> final(self).house_balance == old(self).house_balance + stake
                - payout,
    {
        let games = match self.total_games.checked_add(1) {
            Some(n) => n,
            None => return Err(CustomError::ArithmeticFault),
        };
        let volume = match self.total_volume.checked_add(stake) {
            Some(v) => v,
            None => return Err(CustomError::ArithmeticFault),
        };
        let credited = match self.house_balance.checked_add(stake) {
            Some(b) => b,
            None => return Err(CustomError::ArithmeticFault),
        };
        let balance = if won {
            match credited.checked_sub(payout) {
                Some(b) => b,
                None => return Err(CustomError::ArithmeticFault),
            }
        } else {
            credited
        };
        self.total_games = games;
        self.total_volume = volume;
        self.house_balance = balance;
        Ok(())
    }
}

impl Initialize {
    /// What an initialization leads to: the ledger created with zeroed counters
    /// under the asking identity, or a refusal where it exists already.
    pub open spec fn initialized(self) -> Result<Initialize, CustomError> {
        if self.game_state is Some {
            Err(CustomError::AlreadyInitialized)
        } else {
            Ok(
                Initialize {
                    authority: self.authority,
                    game_state: Some(GameState::fresh(self.authority)),
                },
            )
        }
    }

    /// The state an initialization leaves behind, refused or not.
    pub open spec fn after_initialize(self) -> Initialize {
        match self.initialized() {
            Ok(next) => next,
            Err(_) => self,
        }
    }
}

/// Creates the ledger. Fails with `AlreadyInitialized`, and changes nothing,
/// where the ledger exists.
pub fn initialize(ctx: &mut Initialize) -> (r: Result<(), CustomError>)
    ensures
        match old(ctx).initialized() {
            Ok(next) => r is Ok && *final(ctx) == next,
            Err(e) => r == Err::<(), CustomError>(e) && *final(ctx) == *old(ctx),
        },
        *final(ctx) == old(ctx).after_initialize(),
{
    if ctx.game_state.is_some() {
        return Err(CustomError::AlreadyInitialized);
    }
    ctx.game_state = Some(GameState::new(ctx.authority));
    Ok(())
}

/// Initialization happens once: whatever the state before and whoever asks,
/// an initialization that follows another is refused and leaves the ledger,
/// counters included, as it found it.
pub proof fn second_initialize_is_refused(ctx: Initialize, asking: [u8; 32])
    ensures
        ({
            let again = Initialize {
                authority: asking,
                game_state: ctx.after_initialize().game_state,
            };
            &&& again.initialized() == Err::<Initialize, CustomError>(
                CustomError::AlreadyInitialized,
            )
            &&& again.after_initialize() == again
        }),
{
}

/// A booked game adds exactly one game and exactly its stake to the counters;
/// the house balance gains the stake and, for a win, loses the payout.
pub proof fn settled_counters(ledger: GameState, stake: u64, payout: u64, won: bool)
    requires
        ledger.settled(stake, payout, won) is Ok,
    ensures
        ledger.settled(stake, payout, won)->Ok_0.total_games == ledger.total_games + 1,
        ledger.settled(stake, payout, won)->Ok_0.total_volume == ledger.total_volume + stake,
        ledger.settled(stake, payout, won)->Ok_0.authority == ledger.authority,
        !won ==> ledger.settled(stake, payout, won)->Ok_0.house_balance == ledger.house_balance
            + stake,
        won ==> ledger.settled(stake, payout, won)->Ok_0.house_balance == ledger.house_balance
            + stake - payout,
{
}

} // verus!
