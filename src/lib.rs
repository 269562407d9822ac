//! A fee-gated voting ledger: vote cards that collect votes for a fee, an
//! admin configuration that sets the fees, and the split of each creation fee
//! between the fee receiver and the card's escrow. Every instruction either
//! applies in full or leaves all accounts as they were.

pub mod error;
pub mod fee;
pub mod instructions;
pub mod laws;
pub mod pubkey;
pub mod state;
