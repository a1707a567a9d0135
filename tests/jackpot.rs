use dice_game::error::CustomError;
use dice_game::game::{send_payment_to_play, withdraw_jackpot, SendPaymentToPlay, WithdrawJackpot};
use dice_game::state::{Address, GameState, GlobalState};

fn who(n: u8) -> Address {
    Address::new([n; 32])
}

fn ledger(price: u64, winner: Address) -> GlobalState {
    GlobalState {
        dev: who(200),
        current_jackpot: 0,
        highest_score: 0,
        current_winner: winner,
        games_till_jackpot: 5,
        round_start_time: 0,
        round: 1,
        price_to_play: price,
    }
}

fn payment(price: u64, pool: u64) -> SendPaymentToPlay {
    SendPaymentToPlay {
        game_state: GameState {
            owner: who(1),
            credit: 0,
            can_roll: false,
            upper_score: 0,
            lower_score: 0,
            roll_dice_compressed: 0,
            last_roll_time: 0,
        },
        global_state: ledger(price, Address::zero()),
        jackpot_lamports: pool,
        player: who(1),
        player_lamports: 1000,
        dev_lamports: 10,
    }
}

#[test]
fn pay_splits_quarter_to_operator() {
    let mut ctx = payment(100, 5);
    assert_eq!(send_payment_to_play(&mut ctx), Ok(()));
    assert_eq!(ctx.dev_lamports, 10 + 25);
    assert_eq!(ctx.jackpot_lamports, 5 + 75);
    assert_eq!(ctx.player_lamports, 900);
    assert_eq!(ctx.game_state.credit, 1);
    assert!(!ctx.game_state.can_roll);
}

#[test]
fn pay_of_one_goes_all_to_pool() {
    let mut ctx = payment(1, 0);
    assert_eq!(send_payment_to_play(&mut ctx), Ok(()));
    assert_eq!(ctx.dev_lamports, 10);
    assert_eq!(ctx.jackpot_lamports, 1);
    assert_eq!(ctx.player_lamports, 999);
}

#[test]
fn pay_rounds_operator_share_down() {
    let mut ctx = payment(7, 0);
    assert_eq!(send_payment_to_play(&mut ctx), Ok(()));
    assert_eq!(ctx.dev_lamports, 11);
    assert_eq!(ctx.jackpot_lamports, 6);
}

#[test]
fn pay_with_exact_balance_succeeds() {
    let mut ctx = payment(1000, 0);
    assert_eq!(send_payment_to_play(&mut ctx), Ok(()));
    assert_eq!(ctx.player_lamports, 0);
}

#[test]
fn withdraw_by_other_is_not_winner() {
    let mut ctx = WithdrawJackpot {
        global_state: ledger(100, who(5)),
        jackpot_lamports: 300,
        player: who(6),
        player_lamports: 1,
    };
    assert_eq!(withdraw_jackpot(&mut ctx), Err(CustomError::NotWinner));
    assert_eq!(ctx.jackpot_lamports, 300);
    assert_eq!(ctx.player_lamports, 1);
}

#[test]
fn withdraw_from_empty_pool_is_no_jackpot() {
    let mut ctx = WithdrawJackpot {
        global_state: ledger(100, who(5)),
        jackpot_lamports: 0,
        player: who(5),
        player_lamports: 1,
    };
    assert_eq!(withdraw_jackpot(&mut ctx), Err(CustomError::NoJackpot));
}

#[test]
fn withdraw_pays_whole_pool() {
    let mut ctx = WithdrawJackpot {
        global_state: ledger(100, who(5)),
        jackpot_lamports: 300,
        player: who(5),
        player_lamports: 1,
    };
    assert_eq!(withdraw_jackpot(&mut ctx), Ok(()));
    assert_eq!(ctx.jackpot_lamports, 0);
    assert_eq!(ctx.player_lamports, 301);
    assert_eq!(withdraw_jackpot(&mut ctx), Err(CustomError::NoJackpot));
}
