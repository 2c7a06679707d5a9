//! Rock-Paper-Scissors wager game: account state, access control and settlement.
//!
//! A player commits a choice to a game account, escrows a fixed reward in a reward
//! account, and later settles against a choice drawn from the host clock. Every
//! function states its effect on the accounts in its contract.

pub mod account;
pub mod choice;
pub mod draw;
pub mod lifecycle;
pub mod settle;
