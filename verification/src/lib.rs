//! An escrow auction and the factory that spawns auctions, as state machines
//! over plain values.
//!
//! Every operation takes the state it works on and the facts of the call
//! (block height, caller, attached funds) and hands back the messages to
//! send. Reading and writing the ledger's storage, and sending the messages,
//! is left to the caller.
//!
//! - [`sale`] and [`registry`] say what an auction and a factory are, what
//!   each operation makes of them, and what holds of every run of
//!   operations.
//! - [`auction`] and [`factory`] are the contracts that carry the
//!   operations out.
//! - [`shared`], [`chain`] and [`error`] hold the values that pass in and
//!   out.
//! - [`codec`] holds the calls whose contracts are taken on trust.

pub mod auction;
pub mod chain;
pub mod codec;
pub mod error;
pub mod factory;
pub mod registry;
pub mod sale;
pub mod shared;
