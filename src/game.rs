//! The game record of one player and the rule that resolves a turn.

use vstd::prelude::*;

use crate::choice::{derive_choice, house_choice, EnvironmentalEntropy};

verus! {

/// The stored record of one player's current game.
#[derive(Clone, Copy, Debug)]
pub struct GameAccount {
    /// The identity that owns the game.
    pub player: [u8; 32],
    /// Runs scored in the current (or last) game.
    pub score: u32,
    /// Whether the player is still batting.
    pub is_active: bool,
}

/// What one turn produced.
#[derive(Clone, Copy, Debug, PartialEq, Eq, Structural)]
pub enum TurnOutcome {
    /// The numbers differed; the player's new score.
    ScoreUpdated(u32),
    /// The numbers met; the score that stands as final.
    Out(u32),
}

/// Why a turn or a query was refused.
#[derive(Clone, Copy, Debug, PartialEq, Eq, Structural)]
pub enum HandCricketError {
    /// A score was asked of a game that is not being played.
    GameNotActive,
    /// The player's number is not from one to six.
    InvalidChoice,
    /// The score would pass the largest value it can hold.
    ArithmeticOverflow,
    /// The environment could not supply the turn's readings.
    EnvironmentUnavailable,
}

/// One turn's context: the record it acts on and the identity playing it.
#[derive(Clone, Copy, Debug)]
pub struct PlayTurn {
    pub game_account: GameAccount,
    pub player: [u8; 32],
}

/// The record after the implicit start of a game by `player`: a game that
/// is not active is begun afresh, an active one is kept as it is.
pub open spec fn started(acct: GameAccount, player: [u8; 32]) -> GameAccount {
    if acct.is_active {
        acct
    } else {
        GameAccount { player, score: 0, is_active: true }
    }
}

/// A number the player may name.
pub open spec fn valid_choice(choice: u8) -> bool {
    1 <= choice <= 6
}

/// The record and the result of a turn in which `player` names `choice` and
/// the house names `house`. Every refused turn leaves the record as it was.
pub open spec fn turn_result(acct: GameAccount, player: [u8; 32], choice: u8, house: u8) -> (
    GameAccount,
    Result<TurnOutcome, HandCricketError>,
) {
    if !valid_choice(choice) {
        (acct, Err(HandCricketError::InvalidChoice))
    } else {
        let g = started(acct, player);
        if choice == house {
            (GameAccount { is_active: false, ..g }, Ok(TurnOutcome::Out(g.score)))
        } else if g.score + choice > u32::MAX {
            (acct, Err(HandCricketError::ArithmeticOverflow))
        } else {
            let score = (g.score + choice) as u32;
            (GameAccount { score, ..g }, Ok(TurnOutcome::ScoreUpdated(score)))
        }
    }
}

impl GameAccount {
    /// Begins a new game for `identity` unless one is being played.
    pub fn ensure_started(&mut self, identity: [u8; 32])
        ensures
            *final(self) == started(*old(self), identity),
            !old(self).is_active ==> final(self).score == 0 && final(self).player == identity,
            final(self).is_active,
    {
        if !self.is_active {
            self.player = identity;
            self.score = 0;
            self.is_active = true;
        }
    }

    /// The score of the game being played; refused when no game is.
    pub fn current_score(&self) -> (r: Result<u32, HandCricketError>)
        ensures
            r == (if self.is_active {
                Ok::<u32, HandCricketError>(self.score)
            } else {
                Err(HandCricketError::GameNotActive)
            }),
    {
        if self.is_active {
            Ok(self.score)
        } else {
            Err(HandCricketError::GameNotActive)
        }
    }
}

/// Resolves a turn in which the house has named `house`.
pub fn resolve_turn(ctx: &mut PlayTurn, player_choice: u8, house: u8) -> (r: Result<
    TurnOutcome,
    HandCricketError,
>)
    ensures
        (final(ctx).game_account, r) == turn_result(
            old(ctx).game_account,
            old(ctx).player,
            player_choice,
            house,
        ),
        final(ctx).player == old(ctx).player,
{
    if player_choice < 1 || player_choice > 6 {
        return Err(HandCricketError::InvalidChoice);
    }
    let mut game = ctx.game_account;
    game.ensure_started(ctx.player);
    if player_choice == house {
        game.is_active = false;
        ctx.game_account = game;
        Ok(TurnOutcome::Out(game.score))
    } else {
        match game.score.checked_add(player_choice as u32) {
            Some(score) => {
                game.score = score;
                ctx.game_account = game;
                Ok(TurnOutcome::ScoreUpdated(score))
            },
            None => Err(HandCricketError::ArithmeticOverflow),
        }
    }
}

/// Plays one turn: starts a game if none is being played, draws the house's
/// number from `entropy`, and scores the player's number or puts them out.
pub fn play_turn(ctx: &mut PlayTurn, player_choice: u8, entropy: EnvironmentalEntropy) -> (r:
    Result<TurnOutcome, HandCricketError>)
    ensures
        (final(ctx).game_account, r) == turn_result(
            old(ctx).game_account,
            old(ctx).player,
            player_choice,
            house_choice(entropy),
        ),
        final(ctx).player == old(ctx).player,
{
    let house = derive_choice(entropy);
    resolve_turn(ctx, player_choice, house)
}

/// A valid turn either adds the player's number to the score of the game it
/// is played in, leaving the game active, or leaves that score as it was
/// and puts the player out; nothing else can come of it so long as the sum
/// fits in the score.
pub proof fn lemma_valid_turn_scores_or_outs(
    acct: GameAccount,
    player: [u8; 32],
    choice: u8,
    entropy: EnvironmentalEntropy,
)
    requires
        valid_choice(choice),
        started(acct, player).score + choice <= u32::MAX,
    ensures
        ({
            let g = started(acct, player);
            let (next, r) = turn_result(acct, player, choice, house_choice(entropy));
            (choice != house_choice(entropy) && next.score == g.score + choice && next.is_active
                && r == Ok::<TurnOutcome, HandCricketError>(TurnOutcome::ScoreUpdated(next.score)))
                || (choice == house_choice(entropy) && next.score == g.score && !next.is_active
                && r == Ok::<TurnOutcome, HandCricketError>(TurnOutcome::Out(next.score)))
        }),
{
}

/// A number outside one to six is refused, and the record is left as it was.
pub proof fn lemma_invalid_choice_rejected(
    acct: GameAccount,
    player: [u8; 32],
    choice: u8,
    entropy: EnvironmentalEntropy,
)
    requires
        !valid_choice(choice),
    ensures
        turn_result(acct, player, choice, house_choice(entropy)) == (
            acct,
            Err::<TurnOutcome, HandCricketError>(HandCricketError::InvalidChoice),
        ),
{
}

/// A game started after the player was out begins at a score of zero,
/// whatever the score was.
pub proof fn lemma_restart_resets_score(acct: GameAccount, player: [u8; 32])
    requires
        !acct.is_active,
    ensures
        started(acct, player).score == 0,
        started(acct, player).is_active,
        started(acct, player).player == player,
{
}

/// Two turns in a row of an active game, with the same number and the same
/// readings, end the same way: both score or both put the player out.
pub proof fn lemma_repeated_turn_same_outcome(
    acct: GameAccount,
    player: [u8; 32],
    choice: u8,
    entropy: EnvironmentalEntropy,
)
    requires
        acct.is_active,
        valid_choice(choice),
        acct.score + 2 * choice <= u32::MAX,
    ensures
        ({
            let house = house_choice(entropy);
            let (first, r1) = turn_result(acct, player, choice, house);
            let (second, r2) = turn_result(first, player, choice, house);
            (r1 is Ok && r2 is Ok) && ((r1->Ok_0 is ScoreUpdated && r2->Ok_0 is ScoreUpdated) || (
            r1->Ok_0 is Out && r2->Ok_0 is Out))
        }),
{
}

} // verus!
