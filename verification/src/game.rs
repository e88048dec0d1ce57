//! The settlement of one game, from the bet to the record.

use vstd::prelude::*;
use crate::entropy::{extract_seed, seed_of};
use crate::error::CustomError;
use crate::funds::{fund_transfer, move_funds, Authority, FundTransfer};
use crate::ledger::GameState;
use crate::outcome::{
    coin_choice,
    coin_choice_of,
    in_outcome_domain,
    outcome_in_domain,
    outcome_is_pure,
    outcome_of,
    resolve_outcome,
    validate_prediction,
    GameType,
};
use crate::payout::{
    accepted_stake_pays,
    compute_payout,
    validate_stake,
    winning_payout,
    MAX_BET,
    MIN_BET,
};
use crate::record::{record_result, GameResult, GameResultEvent};

verus! {

/// What a settlement works on: the accounts that the request declares, as the
/// values the host holds for them, and the host's clock. A settled game leaves
/// in it what the host holds once the game's transfers are carried out.
#[derive(Debug, PartialEq, Eq)]
pub struct PlayGame {
    /// The participant's address.
    pub player: [u8; 32],
    /// Whether the participant signed the request.
    pub player_is_signer: bool,
    /// The participant's balance.
    pub player_lamports: u64,
    /// The address of the ledger, which is also the custody account.
    pub game_state_key: [u8; 32],
    /// The nonce with which the program derives that address.
    pub game_state_bump: u8,
    /// The custody balance.
    pub game_state_lamports: u64,
    /// The ledger.
    pub game_state: GameState,
    /// The slot for this game's record, empty until the game is settled.
    pub game_result: Option<GameResult>,
    /// The host's recent-history buffer, the source of entropy.
    pub recent_blockhashes: Vec<u8>,
    /// The host's clock, in seconds.
    pub unix_timestamp: i64,
}

/// What a settled game hands back: the transfers that move the funds as the
/// new balances say, for the custody primitive to carry out, and the event to
/// send out.
#[derive(Debug, PartialEq, Eq)]
pub struct Settlement {
    /// The stake, from the participant into custody.
    pub stake_transfer: FundTransfer,
    /// The payout, from custody to the participant. Only a win has one.
    pub payout_transfer: Option<FundTransfer>,
    /// The event that mirrors the record.
    pub event: GameResultEvent,
}

impl PlayGame {
    /// The outcome that the host's entropy gives for a game. Meaningful where
    /// the buffer holds at least eight bytes.
    pub open spec fn outcome(self, game_type: GameType) -> u8 {
        outcome_of(game_type, seed_of(self.recent_blockhashes@) as u64)
    }

    /// Whether a prediction meets the outcome.
    pub open spec fn wins(self, game_type: GameType, prediction: u8) -> bool {
        self.outcome(game_type) == prediction
    }

    /// What a bet pays: the winning payout where the prediction meets the
    /// outcome, nothing otherwise.
    pub open spec fn payout(self, game_type: GameType, prediction: u8, stake: u64) -> nat {
        if self.wins(game_type, prediction) {
            winning_payout(game_type, stake)
        } else {
            0
        }
    }

    /// Why a request is refused, if it is. The steps of a settlement come in
    /// this order, and the first that fails decides: the stake's limits, the
    /// prediction, the participant's signature, the stake transfer, the
    /// entropy, the payout transfer, the ledger, the record's slot.
    pub open spec fn refusal(self, game_type: GameType, prediction: u8, stake: u64) -> Option<
        CustomError,
    > {
        let payout = self.payout(game_type, prediction, stake);
        if stake < MIN_BET {
            Some(CustomError::BetTooSmall)
        } else if stake > MAX_BET {
            Some(CustomError::BetTooLarge)
        } else if !in_outcome_domain(game_type, prediction) {
            Some(CustomError::InvalidPrediction)
        } else if !self.player_is_signer {
            Some(CustomError::Unauthorized)
        } else if self.player_lamports < stake {
            Some(CustomError::InsufficientFunds)
        } else if self.game_state_lamports + stake > u64::MAX {
            Some(CustomError::ArithmeticFault)
        } else if self.recent_blockhashes@.len() < 8 {
            Some(CustomError::EntropyUnavailable)
        } else if self.game_state_lamports + stake < payout {
            Some(CustomError::InsufficientFunds)
        } else if self.player_lamports - stake + payout > u64::MAX {
            Some(CustomError::ArithmeticFault)
        } else if self.game_state.settled(
            stake,
            payout as u64,
            self.wins(game_type, prediction),
        ) is Err {
            Some(CustomError::ArithmeticFault)
        } else if self.game_result is Some {
            Some(CustomError::StorageUnavailable)
        } else {
            None
        }
    }

    /// The record of a game that is settled.
    pub open spec fn record(self, game_type: GameType, prediction: u8, stake: u64) -> GameResult {
        GameResult {
            player: self.player,
            game_type,
            stake,
            player_choice: prediction,
            outcome: self.outcome(game_type),
            payout: self.payout(game_type, prediction, stake) as u64,
            won: self.wins(game_type, prediction),
            timestamp: self.unix_timestamp,
        }
    }

    /// The state after a game that is settled: the stake has gone from the
    /// participant into custody and the payout back, the ledger has booked the
    /// game, and the record stands in its slot. Nothing else has changed.
    pub open spec fn settled_state(
        self,
        game_type: GameType,
        prediction: u8,
        stake: u64,
    ) -> PlayGame {
        let payout = self.payout(game_type, prediction, stake);
        PlayGame {
            player_lamports: (self.player_lamports - stake + payout) as u64,
            game_state_lamports: (self.game_state_lamports + stake - payout) as u64,
            game_state: self.game_state.settled(
                stake,
                payout as u64,
                self.wins(game_type, prediction),
            )->Ok_0,
            game_result: Some(self.record(game_type, prediction, stake)),
            ..self
        }
    }

    /// The state that a request leaves behind: the settled one, or, where the
    /// request is refused, the one it found.
    pub open spec fn after_play(
        self,
        game_type: GameType,
        prediction: u8,
        stake: u64,
    ) -> PlayGame {
        if self.refusal(game_type, prediction, stake) is None {
            self.settled_state(game_type, prediction, stake)
        } else {
            self
        }
    }
}

impl PlayGame {
    /// What holds of every settled game, between the state before it and the
    /// state `post` after it: the record pays nothing exactly when the game
    /// was lost, the ledger counts one game more and the stake more in volume,
    /// the house balance has gained the stake and lost the payout, and between
    /// them the participant and custody hold what they held before.
    pub open spec fn settlement_laws(self, post: PlayGame, stake: u64) -> bool {
        &&& post.game_result matches Some(record)
        &&& record.well_formed()
        &&& record.stake == stake
        &&& record.payout == 0 <==> !record.won
        &&& post.game_state.authority == self.game_state.authority
        &&& post.game_state.total_games == self.game_state.total_games + 1
        &&& post.game_state.total_volume == self.game_state.total_volume + stake
        &&& post.game_state.house_balance == self.game_state.house_balance + stake
            - record.payout
        &&& post.player_lamports == self.player_lamports - stake + record.payout
        &&& post.game_state_lamports == self.game_state_lamports + stake - record.payout
    }
}

impl Settlement {
    /// This is what the settlement that led from `pre` to `post` hands back:
    /// the event mirrors the record, the stake goes from the participant into
    /// custody on the participant's signature, and a payout goes back, on the
    /// program's authority, exactly when the game was won.
    pub open spec fn reports(&self, pre: PlayGame, post: PlayGame) -> bool {
        &&& post.game_result matches Some(record)
        &&& self.event == record.event_of()
        &&& self.stake_transfer.moves(
            pre.player,
            pre.game_state_key,
            record.stake,
            Authority::Signature,
        )
        &&& match self.payout_transfer {
            Some(t) => record.won && t.moves(
                pre.game_state_key,
                pre.player,
                record.payout,
                Authority::Program { bump: pre.game_state_bump },
            ),
            None => !record.won,
        }
    }
}

/// Settles one game. Either every effect applies (both balances, the ledger and
/// the record change as `settled_state` says, and the transfers and the event come
/// back), or the request is refused with the first failure and nothing changes.
pub fn play(ctx: &mut PlayGame, game_type: GameType, prediction: u8, bet_amount: u64) -> (r:
    Result<Settlement, CustomError>)
    ensures
        match old(ctx).refusal(game_type, prediction, bet_amount) {
            Some(e) => r == Err::<Settlement, CustomError>(e),
            None => r is Ok && r->Ok_0.reports(*old(ctx), *final(ctx)),
        },
        *final(ctx) == old(ctx).after_play(game_type, prediction, bet_amount),
        r is Err ==> *final(ctx) == *old(ctx),
        bet_amount < MIN_BET ==> r == Err::<Settlement, CustomError>(CustomError::BetTooSmall),
        bet_amount > MAX_BET ==> r == Err::<Settlement, CustomError>(CustomError::BetTooLarge),
        MIN_BET <= bet_amount <= MAX_BET && !in_outcome_domain(game_type, prediction) ==> r
            == Err::<Settlement, CustomError>(CustomError::InvalidPrediction),
        r is Ok ==> old(ctx).settlement_laws(*final(ctx), bet_amount),
{
    proof {
        if ctx.refusal(game_type, prediction, bet_amount) is None {
            settled_game_obeys_laws(*ctx, game_type, prediction, bet_amount);
        }
    }
    match validate_stake(bet_amount) {
        Err(e) => return Err(e),
        Ok(_) => {},
    }
    match validate_prediction(game_type, prediction) {
        Err(e) => return Err(e),
        Ok(_) => {},
    }
    if !ctx.player_is_signer {
        return Err(CustomError::Unauthorized);
    }
    let (player_staked, custody_staked) = match move_funds(
        ctx.player_lamports,
        ctx.game_state_lamports,
        bet_amount,
    ) {
        Err(e) => return Err(e),
        Ok(balances) => balances,
    };
    let seed = match extract_seed(ctx.recent_blockhashes.as_slice()) {
        Err(e) => return Err(e),
        Ok(seed) => seed,
    };
    let outcome = resolve_outcome(game_type, seed);
    let won = outcome == prediction;
    proof {
        accepted_stake_pays(game_type, bet_amount);
    }
    let payout = match compute_payout(game_type, bet_amount, won) {
        Err(e) => return Err(e),
        Ok(payout) => payout,
    };
    let (custody_paid, player_paid) = if won {
        match move_funds(custody_staked, player_staked, payout) {
            Err(e) => return Err(e),
            Ok(balances) => balances,
        }
    } else {
        (custody_staked, player_staked)
    };
    let mut ledger = ctx.game_state;
    match ledger.settle(bet_amount, payout, won) {
        Err(e) => return Err(e),
        Ok(_) => {},
    }
    let record = GameResult {
        player: ctx.player,
        game_type,
        stake: bet_amount,
        player_choice: prediction,
        outcome,
        payout,
        won,
        timestamp: ctx.unix_timestamp,
    };
    let mut slot = ctx.game_result;
    let event = match record_result(&mut slot, record) {
        Err(e) => return Err(e),
        Ok(event) => event,
    };
    let stake_transfer = fund_transfer(
        &ctx.player,
        &ctx.game_state_key,
        bet_amount,
        Authority::Signature,
    );
    let payout_transfer = if won {
        Some(
            fund_transfer(
                &ctx.game_state_key,
                &ctx.player,
                payout,
                Authority::Program { bump: ctx.game_state_bump },
            ),
        )
    } else {
        None
    };
    ctx.player_lamports = player_paid;
    ctx.game_state_lamports = custody_paid;
    ctx.game_state = ledger;
    ctx.game_result = slot;
    Ok(Settlement { stake_transfer, payout_transfer, event })
}

/// Settles a coin flip: heads stands for the prediction 1, tails for 0.
pub fn play_coin_flip(ctx: &mut PlayGame, is_heads: bool, bet_amount: u64) -> (r: Result<
    Settlement,
    CustomError,
>)
    ensures
        match old(ctx).refusal(GameType::CoinFlip, coin_choice_of(is_heads), bet_amount) {
            Some(e) => r == Err::<Settlement, CustomError>(e),
            None => r is Ok && r->Ok_0.reports(*old(ctx), *final(ctx)),
        },
        *final(ctx) == old(ctx).after_play(
            GameType::CoinFlip,
            coin_choice_of(is_heads),
            bet_amount,
        ),
        r is Err ==> *final(ctx) == *old(ctx),
        bet_amount < MIN_BET ==> r == Err::<Settlement, CustomError>(CustomError::BetTooSmall),
        bet_amount > MAX_BET ==> r == Err::<Settlement, CustomError>(CustomError::BetTooLarge),
        r != Err::<Settlement, CustomError>(CustomError::InvalidPrediction),
        r is Ok ==> old(ctx).settlement_laws(*final(ctx), bet_amount),
{
    play(ctx, GameType::CoinFlip, coin_choice(is_heads), bet_amount)
}

/// Settles a dice roll on a predicted face, 1 to 6.
pub fn play_dice_roll(ctx: &mut PlayGame, prediction: u8, bet_amount: u64) -> (r: Result<
    Settlement,
    CustomError,
>)
    ensures
        match old(ctx).refusal(GameType::DiceRoll, prediction, bet_amount) {
            Some(e) => r == Err::<Settlement, CustomError>(e),
            None => r is Ok && r->Ok_0.reports(*old(ctx), *final(ctx)),
        },
        *final(ctx) == old(ctx).after_play(GameType::DiceRoll, prediction, bet_amount),
        r is Err ==> *final(ctx) == *old(ctx),
        bet_amount < MIN_BET ==> r == Err::<Settlement, CustomError>(CustomError::BetTooSmall),
        bet_amount > MAX_BET ==> r == Err::<Settlement, CustomError>(CustomError::BetTooLarge),
        MIN_BET <= bet_amount <= MAX_BET && !(1 <= prediction <= 6) ==> r == Err::<
            Settlement,
            CustomError,
        >(CustomError::InvalidPrediction),
        r is Ok ==> old(ctx).settlement_laws(*final(ctx), bet_amount),
{
    play(ctx, GameType::DiceRoll, prediction, bet_amount)
}

/// A stake outside the limits is refused before anything else is looked at,
/// and no balance, counter or record changes.
pub proof fn bet_outside_limits_is_refused(
    ctx: PlayGame,
    game_type: GameType,
    prediction: u8,
    stake: u64,
)
    requires
        stake < MIN_BET || stake > MAX_BET,
    ensures
        stake < MIN_BET ==> ctx.refusal(game_type, prediction, stake) == Some(
            CustomError::BetTooSmall,
        ),
        stake > MAX_BET ==> ctx.refusal(game_type, prediction, stake) == Some(
            CustomError::BetTooLarge,
        ),
        ctx.after_play(game_type, prediction, stake) == ctx,
{
}

/// A prediction that the game cannot have as its outcome is refused on the
/// request alone: whatever the entropy, the balances and the ledger are, the
/// answer is the same, and nothing changes.
pub proof fn invalid_prediction_is_refused(
    ctx: PlayGame,
    other: PlayGame,
    game_type: GameType,
    prediction: u8,
    stake: u64,
)
    requires
        MIN_BET <= stake <= MAX_BET,
        !in_outcome_domain(game_type, prediction),
    ensures
        ctx.refusal(game_type, prediction, stake) == Some(CustomError::InvalidPrediction),
        other.refusal(game_type, prediction, stake) == ctx.refusal(game_type, prediction, stake),
        ctx.after_play(game_type, prediction, stake) == ctx,
{
}

/// Every settled game obeys the settlement laws.
pub proof fn settled_game_obeys_laws(
    ctx: PlayGame,
    game_type: GameType,
    prediction: u8,
    stake: u64,
)
    requires
        ctx.refusal(game_type, prediction, stake) is None,
    ensures
        ctx.settlement_laws(ctx.settled_state(game_type, prediction, stake), stake),
        ctx.after_play(game_type, prediction, stake) == ctx.settled_state(
            game_type,
            prediction,
            stake,
        ),
{
    accepted_stake_pays(game_type, stake);
    outcome_in_domain(game_type, seed_of(ctx.recent_blockhashes@) as u64);
}

/// A settlement is all or nothing: where the payout cannot be made because
/// custody, the stake included, does not cover it, the request is refused, and
/// neither the stake transfer nor the ledger update is to be seen afterwards.
pub proof fn failed_payout_undoes_the_stake(
    ctx: PlayGame,
    game_type: GameType,
    prediction: u8,
    stake: u64,
)
    requires
        MIN_BET <= stake <= MAX_BET,
        in_outcome_domain(game_type, prediction),
        ctx.player_is_signer,
        ctx.player_lamports >= stake,
        ctx.game_state_lamports + stake <= u64::MAX,
        ctx.recent_blockhashes@.len() >= 8,
        ctx.wins(game_type, prediction),
        ctx.game_state_lamports + stake < winning_payout(game_type, stake),
    ensures
        ctx.refusal(game_type, prediction, stake) == Some(CustomError::InsufficientFunds),
        ctx.after_play(game_type, prediction, stake) == ctx,
{
}

/// Whatever the request and whatever the reason, a refusal changes nothing.
pub proof fn refusal_changes_nothing(
    ctx: PlayGame,
    game_type: GameType,
    prediction: u8,
    stake: u64,
)
    requires
        ctx.refusal(game_type, prediction, stake) is Some,
    ensures
        ctx.after_play(game_type, prediction, stake) == ctx,
{
}

/// Whatever the request, settled or refused, the ledger keeps its authority
/// and its counters never fall, the request's own values (addresses,
/// signature, entropy, clock) stay as they are, and a record that stands in
/// its slot is never written over.
pub proof fn play_keeps_what_is_settled(
    ctx: PlayGame,
    game_type: GameType,
    prediction: u8,
    stake: u64,
)
    ensures
        ({
            let post = ctx.after_play(game_type, prediction, stake);
            &&& post.game_state.authority == ctx.game_state.authority
            &&& post.game_state.total_games >= ctx.game_state.total_games
            &&& post.game_state.total_volume >= ctx.game_state.total_volume
            &&& post.player == ctx.player
            &&& post.player_is_signer == ctx.player_is_signer
            &&& post.game_state_key == ctx.game_state_key
            &&& post.game_state_bump == ctx.game_state_bump
            &&& post.recent_blockhashes == ctx.recent_blockhashes
            &&& post.unix_timestamp == ctx.unix_timestamp
            &&& ctx.game_result is Some ==> post == ctx
        }),
{
    if ctx.refusal(game_type, prediction, stake) is None {
        settled_game_obeys_laws(ctx, game_type, prediction, stake);
    }
}

/// The outcome of a game depends on the game and on the first eight bytes of
/// entropy, and on nothing else in the state.
pub proof fn same_entropy_same_outcome(a: PlayGame, b: PlayGame, game_type: GameType)
    requires
        a.recent_blockhashes@.len() >= 8,
        b.recent_blockhashes@.len() >= 8,
        a.recent_blockhashes@.subrange(0, 8) == b.recent_blockhashes@.subrange(0, 8),
    ensures
        a.outcome(game_type) == b.outcome(game_type),
{
    outcome_is_pure(game_type, a.recent_blockhashes@, b.recent_blockhashes@);
}

} // verus!
