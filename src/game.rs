use crate::dice::{rolled_dice, roll, unpack, unpack_dice_rolls};
use crate::error::CustomError;
use crate::leaderboard::{descending, lemma_two_submissions_both_kept, submitted, Leaderboard};
use crate::scoring::{category_score, score_dice, valid_category};
use crate::state::{nobody, Address, GameState, GlobalState};
use vstd::prelude::*;

verus! {

/// The price of a game that goes to the operator: a quarter, rounded down.
pub open spec fn dev_share(price: u64) -> u64 {
    (price / 4) as u64
}

/// The price of a game that goes to the jackpot pool: the rest.
pub open spec fn jackpot_share(price: u64) -> u64 {
    (price - price / 4) as u64
}

/// The ledger after `player` finished a game with `score`: a new best score
/// makes the player the current winner.
pub open spec fn record_score(g: GlobalState, player: Address, score: u64) -> GlobalState {
    if score > g.highest_score {
        GlobalState { highest_score: score, current_winner: player, ..g }
    } else {
        g
    }
}

/// The accounts that setting up the game touches.
pub struct InitializeGame {
    pub global_state: GlobalState,
}

/// The accounts that opening a player's session touches.
pub struct CreateGameState {
    pub game_state: GameState,
    pub player: Address,
}

/// The accounts and balances that paying for a game touches.
pub struct SendPaymentToPlay {
    pub game_state: GameState,
    pub global_state: GlobalState,
    pub jackpot_lamports: u64,
    pub player: Address,
    pub player_lamports: u64,
    pub dev_lamports: u64,
}

/// The accounts that a roll touches.
pub struct RollDice {
    pub game_state: GameState,
    pub player: Address,
}

/// The accounts that scoring a roll touches.
pub struct ScoreRoll {
    pub game_state: GameState,
    pub player: Address,
}

/// The accounts that ending a game touches.
pub struct GameOver {
    pub game_state: GameState,
    pub global_state: GlobalState,
    pub leaderboard: Leaderboard,
    pub player: Address,
}

/// The accounts and balances that paying out the jackpot touches.
pub struct WithdrawJackpot {
    pub global_state: GlobalState,
    pub jackpot_lamports: u64,
    pub player: Address,
    pub player_lamports: u64,
}

/// Sets up the shared ledger: first round, no best score, no winner.
pub fn initialize_game(
    ctx: &mut InitializeGame,
    dev: Address,
    price_to_play: u64,
    games_till_jackpot: u64,
    now: i64,
)
    ensures
        final(ctx).global_state.dev == dev,
        final(ctx).global_state.price_to_play == price_to_play,
        final(ctx).global_state.games_till_jackpot == games_till_jackpot,
        final(ctx).global_state.round == 1,
        final(ctx).global_state.current_jackpot == 0,
        final(ctx).global_state.highest_score == 0,
        final(ctx).global_state.current_winner@ == nobody(),
        final(ctx).global_state.round_start_time == now,
{
    ctx.global_state.dev = dev;
    ctx.global_state.price_to_play = price_to_play;
    ctx.global_state.games_till_jackpot = games_till_jackpot;
    ctx.global_state.round = 1;
    ctx.global_state.current_jackpot = 0;
    ctx.global_state.highest_score = 0;
    ctx.global_state.current_winner = Address::zero();
    ctx.global_state.round_start_time = now;
}

/// Opens a session for the player, idle and never rolled.
pub fn create_game_state(ctx: &mut CreateGameState)
    ensures
        final(ctx).player == old(ctx).player,
        final(ctx).game_state.owner == old(ctx).player,
        final(ctx).game_state.is_idle(),
        final(ctx).game_state.last_roll_time == 0,
        final(ctx).game_state.wf(),
{
    ctx.game_state.owner = ctx.player;
    ctx.game_state.credit = 0;
    ctx.game_state.can_roll = false;
    ctx.game_state.upper_score = 0;
    ctx.game_state.lower_score = 0;
    ctx.game_state.roll_dice_compressed = 0;
    ctx.game_state.last_roll_time = 0;
}

/// Pays for a game: a quarter of the price goes to the operator, the rest to
/// the jackpot pool, and the session gets its credit.
pub fn send_payment_to_play(ctx: &mut SendPaymentToPlay) -> (r: Result<(), CustomError>)
    requires
        old(ctx).player_lamports + old(ctx).jackpot_lamports + old(ctx).dev_lamports <= u64::MAX,
    ensures
        old(ctx).game_state.credit != 0 ==> r == Err::<(), CustomError>(CustomError::AlreadyInGame),
        old(ctx).game_state.credit == 0 && old(ctx).player_lamports
            < old(ctx).global_state.price_to_play ==> r == Err::<(), CustomError>(
            CustomError::InsufficientFunds,
        ),
        r is Err ==> *final(ctx) == *old(ctx),
        old(ctx).game_state.credit == 0 && old(ctx).player_lamports
            >= old(ctx).global_state.price_to_play ==> {
            let price = old(ctx).global_state.price_to_play;
            &&& r == Ok::<(), CustomError>(())
            &&& final(ctx).game_state == (GameState { credit: 1, ..old(ctx).game_state })
            &&& final(ctx).player_lamports == old(ctx).player_lamports - price
            &&& final(ctx).dev_lamports == old(ctx).dev_lamports + dev_share(price)
            &&& final(ctx).jackpot_lamports == old(ctx).jackpot_lamports + jackpot_share(price)
            &&& final(ctx).global_state == old(ctx).global_state
            &&& final(ctx).player == old(ctx).player
        },
        old(ctx).game_state.wf() ==> final(ctx).game_state.wf(),
{
    if ctx.game_state.credit != 0 {
        return Err(CustomError::AlreadyInGame);
    }
    let price = ctx.global_state.price_to_play;
    if ctx.player_lamports < price {
        return Err(CustomError::InsufficientFunds);
    }
    let amount_to_dev = price / 4;
    let amount_to_jackpot = price - amount_to_dev;
    ctx.player_lamports = ctx.player_lamports - price;
    ctx.jackpot_lamports = ctx.jackpot_lamports + amount_to_jackpot;
    ctx.dev_lamports = ctx.dev_lamports + amount_to_dev;
    ctx.game_state.credit = 1;
    Ok(())
}

/// Rolls the dice of a paid session, at most once every ten seconds.
pub fn roll_dice(ctx: &mut RollDice, now: i64) -> (r: Result<(), CustomError>)
    ensures
        old(ctx).game_state.credit != 1 ==> r == Err::<(), CustomError>(CustomError::NotPaid),
        old(ctx).game_state.credit == 1 && old(ctx).game_state.can_roll ==> r == Err::<
            (),
            CustomError,
        >(CustomError::AlreadyRolled),
        old(ctx).game_state.credit == 1 && !old(ctx).game_state.can_roll && now
            <= old(ctx).game_state.last_roll_time + 10 ==> r == Err::<(), CustomError>(
            CustomError::CooldownActive,
        ),
        r is Err ==> *final(ctx) == *old(ctx),
        old(ctx).game_state.credit == 1 && !old(ctx).game_state.can_roll && now
            > old(ctx).game_state.last_roll_time + 10 ==> {
            &&& r == Ok::<(), CustomError>(())
            &&& final(ctx).game_state == (GameState {
                roll_dice_compressed: rolled_dice(old(ctx).player@, now),
                can_roll: true,
                last_roll_time: now,
                ..old(ctx).game_state
            })
            &&& final(ctx).player == old(ctx).player
        },
        old(ctx).game_state.wf() ==> final(ctx).game_state.wf(),
{
    if ctx.game_state.credit != 1 {
        return Err(CustomError::NotPaid);
    }
    if ctx.game_state.can_roll {
        return Err(CustomError::AlreadyRolled);
    }
    if now as i128 <= ctx.game_state.last_roll_time as i128 + 10 {
        return Err(CustomError::CooldownActive);
    }
    let rolls = roll(&ctx.player, now);
    ctx.game_state.roll_dice_compressed = rolls;
    ctx.game_state.can_roll = true;
    ctx.game_state.last_roll_time = now;
    Ok(())
}

/// Scores the rolled dice in a category and adds the result to the session's
/// score; the session may then roll again.
pub fn score_roll(ctx: &mut ScoreRoll, score_type: u8) -> (r: Result<(), CustomError>)
    requires
        old(ctx).game_state.upper_score + 30000 <= u64::MAX,
    ensures
        !old(ctx).game_state.can_roll ==> r == Err::<(), CustomError>(CustomError::NotRolled),
        old(ctx).game_state.can_roll && !valid_category(score_type) ==> r == Err::<
            (),
            CustomError,
        >(CustomError::InvalidScoreType),
        r is Err ==> *final(ctx) == *old(ctx),
        old(ctx).game_state.can_roll && valid_category(score_type) ==> {
            let g = old(ctx).game_state;
            &&& r == Ok::<(), CustomError>(())
            &&& final(ctx).game_state == (GameState {
                upper_score: (g.upper_score + category_score(
                    unpack(g.roll_dice_compressed),
                    score_type,
                )) as u64,
                can_roll: false,
                ..g
            })
            &&& final(ctx).player == old(ctx).player
        },
        old(ctx).game_state.wf() ==> final(ctx).game_state.wf(),
{
    if !ctx.game_state.can_roll {
        return Err(CustomError::NotRolled);
    }
    let dice = unpack_dice_rolls(ctx.game_state.roll_dice_compressed);
    let score = match score_dice(&dice, score_type) {
        Ok(s) => s,
        Err(e) => {
            return Err(e);
        },
    };
    ctx.game_state.upper_score = ctx.game_state.upper_score + score;
    ctx.game_state.can_roll = false;
    Ok(())
}

/// Ends the player's game: the final score may become the best one, is
/// submitted to the leaderboard, and the session goes back to idle.
pub fn game_over(ctx: &mut GameOver)
    requires
        old(ctx).game_state.upper_score + old(ctx).game_state.lower_score <= u64::MAX,
    ensures
        ({
            let g = old(ctx).game_state;
            let score = (g.upper_score + g.lower_score) as u64;
            &&& final(ctx).global_state == record_score(old(ctx).global_state, old(ctx).player, score)
            &&& final(ctx).leaderboard.top_scores@ == submitted(
                old(ctx).leaderboard.top_scores@,
                old(ctx).player,
                score,
            )
        }),
        final(ctx).game_state.is_idle(),
        final(ctx).game_state.owner == old(ctx).game_state.owner,
        final(ctx).game_state.last_roll_time == old(ctx).game_state.last_roll_time,
        final(ctx).game_state.wf(),
        final(ctx).player == old(ctx).player,
        old(ctx).leaderboard.wf() ==> final(ctx).leaderboard.wf(),
{
    let final_score = ctx.game_state.upper_score + ctx.game_state.lower_score;
    if final_score > ctx.global_state.highest_score {
        ctx.global_state.highest_score = final_score;
        ctx.global_state.current_winner = ctx.player;
    }
    ctx.leaderboard.update(ctx.player, final_score);
    ctx.game_state.credit = 0;
    ctx.game_state.can_roll = false;
    ctx.game_state.upper_score = 0;
    ctx.game_state.lower_score = 0;
    ctx.game_state.roll_dice_compressed = 0;
}

/// Pays the whole jackpot pool to the current winner.
pub fn withdraw_jackpot(ctx: &mut WithdrawJackpot) -> (r: Result<(), CustomError>)
    requires
        old(ctx).player_lamports + old(ctx).jackpot_lamports <= u64::MAX,
    ensures
        old(ctx).global_state.current_winner@ != old(ctx).player@ ==> r == Err::<(), CustomError>(
            CustomError::NotWinner,
        ),
        old(ctx).global_state.current_winner@ == old(ctx).player@ && old(ctx).jackpot_lamports == 0
            ==> r == Err::<(), CustomError>(CustomError::NoJackpot),
        r is Err ==> *final(ctx) == *old(ctx),
        old(ctx).global_state.current_winner@ == old(ctx).player@ && old(ctx).jackpot_lamports > 0
            ==> {
            &&& r == Ok::<(), CustomError>(())
            &&& final(ctx).jackpot_lamports == 0
            &&& final(ctx).player_lamports == old(ctx).player_lamports + old(ctx).jackpot_lamports
            &&& final(ctx).global_state == old(ctx).global_state
            &&& final(ctx).player == old(ctx).player
        },
{
    if !(ctx.global_state.current_winner == ctx.player) {
        return Err(CustomError::NotWinner);
    }
    if ctx.jackpot_lamports == 0 {
        return Err(CustomError::NoJackpot);
    }
    let jackpot_amount = ctx.jackpot_lamports;
    ctx.jackpot_lamports = 0;
    ctx.player_lamports = ctx.player_lamports + jackpot_amount;
    Ok(())
}

/// Two games that end one after the other, the second with the higher score
/// above the best so far: whichever commits first, the higher score is the
/// best one and its player the winner, and both scores stand on a leaderboard
/// where each beats the second-to-last entry.
pub proof fn lemma_game_over_order(
    g: GlobalState,
    board: Seq<(Address, u64)>,
    a: Address,
    sa: u64,
    b: Address,
    sb: u64,
)
    requires
        sa < sb,
        g.highest_score < sb,
        descending(board),
        board.len() >= 2,
        sa > board[board.len() - 2].1,
        sb > board[board.len() - 2].1,
    ensures
        record_score(record_score(g, a, sa), b, sb).highest_score == sb,
        record_score(record_score(g, a, sa), b, sb).current_winner == b,
        record_score(record_score(g, b, sb), a, sa).highest_score == sb,
        record_score(record_score(g, b, sb), a, sa).current_winner == b,
        submitted(submitted(board, a, sa), b, sb).contains((a, sa)),
        submitted(submitted(board, a, sa), b, sb).contains((b, sb)),
        submitted(submitted(board, b, sb), a, sa).contains((a, sa)),
        submitted(submitted(board, b, sb), a, sa).contains((b, sb)),
{
    lemma_two_submissions_both_kept(board, a, sa, b, sb);
}

/// The best score never goes down when a game ends.
pub proof fn lemma_record_score_monotone(g: GlobalState, player: Address, score: u64)
    ensures
        record_score(g, player, score).highest_score >= g.highest_score,
        record_score(g, player, score).highest_score > g.highest_score ==> record_score(
            g,
            player,
            score,
        ).current_winner == player,
{
}

} // verus!
