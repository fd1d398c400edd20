//! A two-party wagering escrow: two players lock equal stakes against a binary
//! prediction, an oracle commits the outcome, and the combined stake goes to
//! the winner, or an unjoined wager is refunded to its creator.
//!
//! Every function of this crate is verified. The contracts describe the byte
//! layouts of the records and of the instructions (`codec`, `state`,
//! `instruction`), the movements of value (`escrow`), and the lifecycle of a
//! game (`processor`). What follows from them for every sequence of calls
//! stands in `laws`, `table` and `ledger`.

pub mod account;
pub mod codec;
pub mod error;
pub mod escrow;
pub mod instruction;
pub mod laws;
pub mod ledger;
pub mod processor;
pub mod pubkey;
pub mod state;
pub mod table;
