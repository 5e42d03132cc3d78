//! A verified engine for a timed, prize-backed ticket lottery.
//!
//! An organizer stakes prize tokens and opens a game; participants buy
//! tickets in the native currency or one fungible asset, with bonus tickets
//! from a shared per-ledger pool and from a staked freely allowance. A game
//! whose takings reach its threshold by the deadline settles (fees split by
//! prize tier, prizes claimed by winners); one that does not is cancelled
//! (bidders refunded, prizes returned or carried into a new game).
//!
//! Every operation is a function from the records it reads, the current time
//! and the balances it needs to the updated records and the amounts to move;
//! performing the moves is left to the caller.

pub mod address;
pub mod error;
pub mod state;

pub mod ata;
pub mod freely;
pub mod merkle;
pub mod provenance;

pub mod bid;
pub mod fees;

pub mod admin;
pub mod organizer;
pub mod user;

pub mod laws;
