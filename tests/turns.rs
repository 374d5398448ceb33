use hand_cricket::choice::{derive_choice, EnvironmentalEntropy};
use hand_cricket::game::{
    play_turn, resolve_turn, GameAccount, HandCricketError, PlayTurn, TurnOutcome,
};

const ALICE: [u8; 32] = [7u8; 32];
const BOB: [u8; 32] = [9u8; 32];
const TS: u64 = 1_700_000_000;

fn fresh(player: [u8; 32]) -> PlayTurn {
    PlayTurn {
        game_account: GameAccount { player: [0u8; 32], score: 0, is_active: false },
        player,
    }
}

fn readings(slot: u64) -> EnvironmentalEntropy {
    EnvironmentalEntropy { slot, unix_timestamp: TS }
}

fn same(a: &GameAccount, b: &GameAccount) -> bool {
    a.player == b.player && a.score == b.score && a.is_active == b.is_active
}

#[test]
fn scenario_score_out_and_restart() {
    let five = readings(19);
    let four = readings(5);
    assert_eq!(derive_choice(five), 5);
    assert_eq!(derive_choice(four), 4);

    let mut ctx = fresh(ALICE);
    assert_eq!(play_turn(&mut ctx, 3, five), Ok(TurnOutcome::ScoreUpdated(3)));
    assert!(ctx.game_account.is_active);
    assert_eq!(ctx.game_account.score, 3);
    assert_eq!(ctx.game_account.player, ALICE);

    assert_eq!(play_turn(&mut ctx, 5, five), Ok(TurnOutcome::Out(3)));
    assert!(!ctx.game_account.is_active);
    assert_eq!(ctx.game_account.score, 3);

    assert_eq!(play_turn(&mut ctx, 2, four), Ok(TurnOutcome::ScoreUpdated(2)));
    assert!(ctx.game_account.is_active);
    assert_eq!(ctx.game_account.score, 2);
}

#[test]
fn scenario_with_house_number_given() {
    let mut ctx = fresh(ALICE);
    assert_eq!(resolve_turn(&mut ctx, 3, 5), Ok(TurnOutcome::ScoreUpdated(3)));
    assert_eq!(resolve_turn(&mut ctx, 5, 5), Ok(TurnOutcome::Out(3)));
    assert_eq!(ctx.game_account.score, 3);
    assert!(!ctx.game_account.is_active);
    assert_eq!(resolve_turn(&mut ctx, 2, 4), Ok(TurnOutcome::ScoreUpdated(2)));
    assert_eq!(ctx.game_account.score, 2);
    assert!(ctx.game_account.is_active);
}

#[test]
fn out_of_range_choices_are_refused() {
    let states = [
        GameAccount { player: [0u8; 32], score: 0, is_active: false },
        GameAccount { player: ALICE, score: 12, is_active: true },
        GameAccount { player: BOB, score: 40, is_active: false },
    ];
    for acct in states.iter() {
        for choice in [0u8, 7, 255] {
            let mut ctx = PlayTurn { game_account: *acct, player: ALICE };
            assert_eq!(play_turn(&mut ctx, choice, readings(19)), Err(HandCricketError::InvalidChoice));
            assert!(same(&ctx.game_account, acct));
            assert_eq!(ctx.player, ALICE);
        }
    }
}

#[test]
fn restart_after_out_resets_score_and_owner() {
    let mut ctx = PlayTurn {
        game_account: GameAccount { player: BOB, score: 4_000_000, is_active: false },
        player: ALICE,
    };
    assert_eq!(resolve_turn(&mut ctx, 6, 1), Ok(TurnOutcome::ScoreUpdated(6)));
    assert_eq!(ctx.game_account.player, ALICE);
    assert_eq!(ctx.game_account.score, 6);
}

#[test]
fn active_game_keeps_its_owner() {
    let mut ctx = PlayTurn {
        game_account: GameAccount { player: BOB, score: 10, is_active: true },
        player: ALICE,
    };
    assert_eq!(resolve_turn(&mut ctx, 1, 2), Ok(TurnOutcome::ScoreUpdated(11)));
    assert_eq!(ctx.game_account.player, BOB);
}

#[test]
fn ensure_started_on_inactive_and_active() {
    let mut acct = GameAccount { player: BOB, score: 99, is_active: false };
    acct.ensure_started(ALICE);
    assert!(same(&acct, &GameAccount { player: ALICE, score: 0, is_active: true }));
    acct.score = 5;
    acct.ensure_started(BOB);
    assert!(same(&acct, &GameAccount { player: ALICE, score: 5, is_active: true }));
}

#[test]
fn current_score_of_active_and_dormant_games() {
    let active = GameAccount { player: ALICE, score: 8, is_active: true };
    assert_eq!(active.current_score(), Ok(8));
    let dormant = GameAccount { player: ALICE, score: 8, is_active: false };
    assert_eq!(dormant.current_score(), Err(HandCricketError::GameNotActive));
}

#[test]
fn overflow_is_reported_and_state_kept() {
    let acct = GameAccount { player: ALICE, score: u32::MAX - 2, is_active: true };
    let mut ctx = PlayTurn { game_account: acct, player: ALICE };
    assert_eq!(resolve_turn(&mut ctx, 3, 1), Err(HandCricketError::ArithmeticOverflow));
    assert!(same(&ctx.game_account, &acct));
    assert_eq!(resolve_turn(&mut ctx, 2, 1), Ok(TurnOutcome::ScoreUpdated(u32::MAX)));
    // a matching number puts the player out even at the largest score
    assert_eq!(resolve_turn(&mut ctx, 4, 4), Ok(TurnOutcome::Out(u32::MAX)));
}

#[test]
fn repeated_turn_with_same_readings_ends_the_same_way() {
    let e = readings(19);
    let mut ctx = PlayTurn { game_account: GameAccount { player: ALICE, score: 10, is_active: true }, player: ALICE };
    assert_eq!(play_turn(&mut ctx, 2, e), Ok(TurnOutcome::ScoreUpdated(12)));
    assert_eq!(play_turn(&mut ctx, 2, e), Ok(TurnOutcome::ScoreUpdated(14)));

    let mut ctx = PlayTurn { game_account: GameAccount { player: ALICE, score: 10, is_active: true }, player: ALICE };
    assert_eq!(play_turn(&mut ctx, 5, e), Ok(TurnOutcome::Out(10)));
    assert_eq!(play_turn(&mut ctx, 5, e), Ok(TurnOutcome::Out(0)));
}

#[test]
fn each_valid_turn_scores_or_puts_out() {
    for house in 1u8..=6 {
        for choice in 1u8..=6 {
            let mut ctx = PlayTurn { game_account: GameAccount { player: ALICE, score: 20, is_active: true }, player: ALICE };
            let r = resolve_turn(&mut ctx, choice, house);
            if choice == house {
                assert_eq!(r, Ok(TurnOutcome::Out(20)));
                assert!(!ctx.game_account.is_active);
                assert_eq!(ctx.game_account.score, 20);
            } else {
                assert_eq!(r, Ok(TurnOutcome::ScoreUpdated(20 + choice as u32)));
                assert!(ctx.game_account.is_active);
            }
        }
    }
}
