use dice_game::dice::{roll, unpack_dice_rolls};
use dice_game::error::CustomError;
use dice_game::game::{
    create_game_state, game_over, initialize_game, roll_dice, score_roll, send_payment_to_play,
    CreateGameState, GameOver, InitializeGame, RollDice, ScoreRoll, SendPaymentToPlay,
};
use dice_game::leaderboard::Leaderboard;
use dice_game::scoring::score_dice;
use dice_game::state::{Address, GameState, GlobalState};

fn who(n: u8) -> Address {
    Address::new([n; 32])
}

fn idle(owner: Address) -> GameState {
    GameState {
        owner,
        credit: 0,
        can_roll: false,
        upper_score: 0,
        lower_score: 0,
        roll_dice_compressed: 0,
        last_roll_time: 0,
    }
}

fn ledger(price: u64, highest: u64) -> GlobalState {
    GlobalState {
        dev: who(200),
        current_jackpot: 0,
        highest_score: highest,
        current_winner: Address::zero(),
        games_till_jackpot: 5,
        round_start_time: 0,
        round: 1,
        price_to_play: price,
    }
}

#[test]
fn initialize_sets_first_round() {
    let mut ctx = InitializeGame { global_state: ledger(0, 77) };
    ctx.global_state.current_winner = who(4);
    initialize_game(&mut ctx, who(9), 100, 12, 1234);
    let g = ctx.global_state;
    assert!(g.dev == who(9));
    assert_eq!(g.price_to_play, 100);
    assert_eq!(g.games_till_jackpot, 12);
    assert_eq!(g.round, 1);
    assert_eq!(g.current_jackpot, 0);
    assert_eq!(g.highest_score, 0);
    assert!(g.current_winner == Address::zero());
    assert_eq!(g.round_start_time, 1234);
}

#[test]
fn create_session_is_idle() {
    let mut gs = idle(who(0));
    gs.credit = 1;
    gs.can_roll = true;
    gs.upper_score = 5;
    gs.last_roll_time = 99;
    let mut ctx = CreateGameState { game_state: gs, player: who(3) };
    create_game_state(&mut ctx);
    assert!(ctx.game_state.owner == who(3));
    assert_eq!(ctx.game_state.credit, 0);
    assert!(!ctx.game_state.can_roll);
    assert_eq!(ctx.game_state.upper_score, 0);
    assert_eq!(ctx.game_state.lower_score, 0);
    assert_eq!(ctx.game_state.roll_dice_compressed, 0);
    assert_eq!(ctx.game_state.last_roll_time, 0);
}

#[test]
fn pay_twice_is_already_in_game() {
    let mut gs = idle(who(1));
    gs.credit = 1;
    let mut ctx = SendPaymentToPlay {
        game_state: gs,
        global_state: ledger(100, 0),
        jackpot_lamports: 0,
        player: who(1),
        player_lamports: 1000,
        dev_lamports: 0,
    };
    assert_eq!(send_payment_to_play(&mut ctx), Err(CustomError::AlreadyInGame));
    assert_eq!(ctx.player_lamports, 1000);
    assert_eq!(ctx.jackpot_lamports, 0);
}

#[test]
fn pay_without_funds_is_insufficient() {
    let mut ctx = SendPaymentToPlay {
        game_state: idle(who(1)),
        global_state: ledger(100, 0),
        jackpot_lamports: 0,
        player: who(1),
        player_lamports: 99,
        dev_lamports: 0,
    };
    assert_eq!(send_payment_to_play(&mut ctx), Err(CustomError::InsufficientFunds));
    assert_eq!(ctx.game_state.credit, 0);
    assert_eq!(ctx.player_lamports, 99);
}

#[test]
fn roll_without_payment_is_not_paid() {
    let mut ctx = RollDice { game_state: idle(who(1)), player: who(1) };
    assert_eq!(roll_dice(&mut ctx, 100), Err(CustomError::NotPaid));
}

#[test]
fn roll_twice_is_already_rolled() {
    let mut gs = idle(who(1));
    gs.credit = 1;
    let mut ctx = RollDice { game_state: gs, player: who(1) };
    assert_eq!(roll_dice(&mut ctx, 100), Ok(()));
    assert_eq!(roll_dice(&mut ctx, 200), Err(CustomError::AlreadyRolled));
}

#[test]
fn roll_within_ten_seconds_is_cooldown() {
    let mut gs = idle(who(1));
    gs.credit = 1;
    gs.last_roll_time = 1000;
    let mut ctx = RollDice { game_state: gs, player: who(1) };
    assert_eq!(roll_dice(&mut ctx, 1005), Err(CustomError::CooldownActive));
    assert_eq!(roll_dice(&mut ctx, 1010), Err(CustomError::CooldownActive));
    assert_eq!(ctx.game_state.last_roll_time, 1000);
    assert!(!ctx.game_state.can_roll);
    assert_eq!(roll_dice(&mut ctx, 1011), Ok(()));
    assert_eq!(ctx.game_state.last_roll_time, 1011);
    assert!(ctx.game_state.can_roll);
    assert_eq!(ctx.game_state.roll_dice_compressed, roll(&who(1), 1011));
}

#[test]
fn roll_with_latest_last_time_is_cooldown() {
    let mut gs = idle(who(1));
    gs.credit = 1;
    gs.last_roll_time = i64::MAX - 3;
    let mut ctx = RollDice { game_state: gs, player: who(1) };
    assert_eq!(roll_dice(&mut ctx, i64::MAX), Err(CustomError::CooldownActive));
}

#[test]
fn score_before_roll_is_not_rolled() {
    let mut gs = idle(who(1));
    gs.credit = 1;
    let mut ctx = ScoreRoll { game_state: gs, player: who(1) };
    assert_eq!(score_roll(&mut ctx, 3), Err(CustomError::NotRolled));
}

#[test]
fn score_with_bad_category_is_invalid() {
    let mut gs = idle(who(1));
    gs.credit = 1;
    gs.can_roll = true;
    gs.roll_dice_compressed = 0o54321;
    let mut ctx = ScoreRoll { game_state: gs, player: who(1) };
    assert_eq!(score_roll(&mut ctx, 7), Err(CustomError::InvalidScoreType));
    assert_eq!(score_roll(&mut ctx, 0), Err(CustomError::InvalidScoreType));
    assert!(ctx.game_state.can_roll);
    assert_eq!(ctx.game_state.upper_score, 0);
}

#[test]
fn scores_accumulate_over_rolls() {
    let mut gs = idle(who(1));
    gs.credit = 1;
    gs.can_roll = true;
    gs.roll_dice_compressed = 0o33311;
    gs.upper_score = 500;
    let mut ctx = ScoreRoll { game_state: gs, player: who(1) };
    assert_eq!(score_roll(&mut ctx, 3), Ok(()));
    assert_eq!(ctx.game_state.upper_score, 9500);
    assert!(!ctx.game_state.can_roll);
    assert_eq!(ctx.game_state.credit, 1);
}

#[test]
fn full_game_then_reset() {
    let p = who(1);
    let mut pay = SendPaymentToPlay {
        game_state: idle(p),
        global_state: ledger(100, 0),
        jackpot_lamports: 0,
        player: p,
        player_lamports: 1000,
        dev_lamports: 0,
    };
    assert_eq!(send_payment_to_play(&mut pay), Ok(()));
    let mut r = RollDice { game_state: pay.game_state, player: p };
    assert_eq!(roll_dice(&mut r, 50), Ok(()));
    let dice = unpack_dice_rolls(r.game_state.roll_dice_compressed);
    let expected = score_dice(&dice, dice[0]).unwrap();
    let mut s = ScoreRoll { game_state: r.game_state, player: p };
    assert_eq!(score_roll(&mut s, dice[0]), Ok(()));
    assert_eq!(s.game_state.upper_score, expected);
    let mut r2 = RollDice { game_state: s.game_state, player: p };
    assert_eq!(roll_dice(&mut r2, 61), Ok(()));
    let mut over = GameOver {
        game_state: r2.game_state,
        global_state: pay.global_state,
        leaderboard: Leaderboard::new(),
        player: p,
    };
    game_over(&mut over);
    let g = over.game_state;
    assert_eq!(g.credit, 0);
    assert!(!g.can_roll);
    assert_eq!(g.upper_score, 0);
    assert_eq!(g.lower_score, 0);
    assert_eq!(g.roll_dice_compressed, 0);
    assert!(g.owner == p);
    assert_eq!(over.global_state.highest_score, expected);
    assert!(over.global_state.current_winner == p);
    assert_eq!(over.leaderboard.top_scores[0].1, expected);
}

#[test]
fn game_over_without_new_best_keeps_winner() {
    let mut gs = idle(who(1));
    gs.upper_score = 40;
    gs.lower_score = 5;
    let mut g = ledger(100, 50);
    g.current_winner = who(8);
    let mut over = GameOver { game_state: gs, global_state: g, leaderboard: Leaderboard::new(), player: who(1) };
    game_over(&mut over);
    assert_eq!(over.global_state.highest_score, 50);
    assert!(over.global_state.current_winner == who(8));
    assert_eq!(over.leaderboard.top_scores[0].1, 45);
    assert!(over.leaderboard.top_scores[0].0 == who(1));
}

fn end(g: GlobalState, b: Leaderboard, p: Address, score: u64) -> (GlobalState, Leaderboard) {
    let mut gs = idle(p);
    gs.credit = 1;
    gs.upper_score = score;
    let mut over = GameOver { game_state: gs, global_state: g, leaderboard: b, player: p };
    game_over(&mut over);
    (over.global_state, over.leaderboard)
}

#[test]
fn concurrent_game_overs_either_order() {
    let a = who(7);
    let b = who(9);
    let (g1, b1) = end(ledger(100, 50), Leaderboard::new(), a, 70);
    let (g1, b1) = end(g1, b1, b, 90);
    let (g2, b2) = end(ledger(100, 50), Leaderboard::new(), b, 90);
    let (g2, b2) = end(g2, b2, a, 70);
    for (g, board) in [(g1, b1), (g2, b2)] {
        assert_eq!(g.highest_score, 90);
        assert!(g.current_winner == b);
        assert!(board.top_scores.iter().any(|e| e.0 == a && e.1 == 70));
        assert!(board.top_scores.iter().any(|e| e.0 == b && e.1 == 90));
        assert_eq!(board.top_scores[0].1, 90);
        assert_eq!(board.top_scores[1].1, 70);
    }
}
