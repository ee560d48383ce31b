//! A raffle over a fixed pool of tickets backing one asset: the ticket ledger, winner
//! selection from one random value, the closure state machine, per-holder settlement of a
//! partial sale and the payout split.

pub mod accounts;
pub mod chain;
pub mod error;
pub mod events;
pub mod key;
pub mod ledger;
pub mod payout;
pub mod raffle;
pub mod selection;
pub mod settlement;
