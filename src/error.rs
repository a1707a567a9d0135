use vstd::prelude::*;

verus! {

/// Every way an instruction of the game can be rejected.
#[derive(Debug, Clone, Copy, PartialEq, Eq, Structural)]
pub enum CustomError {
    /// The session has already paid for a game.
    AlreadyInGame,
    /// The player cannot cover the price of a game.
    InsufficientFunds,
    /// The session has not paid for a game.
    NotPaid,
    /// The dice were rolled and not yet scored.
    AlreadyRolled,
    /// There is no roll to score.
    NotRolled,
    /// The scoring category is outside 1 to 6.
    InvalidScoreType,
    /// The jackpot pool is empty.
    NoJackpot,
    /// The caller is not the current winner.
    NotWinner,
    /// The previous roll was too recent.
    CooldownActive,
}

} // verus!
