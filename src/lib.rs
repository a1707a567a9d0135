//! A turn-based dice game: per-player sessions, a hash-seeded dice roller,
//! category scoring, a top-ten leaderboard and a pooled jackpot.

pub mod dice;
pub mod error;
pub mod game;
pub mod leaderboard;
pub mod scoring;
pub mod state;
