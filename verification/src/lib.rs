//! An escrow for SPL token swaps with a protocol fee, a fee vault that the
//! admin withdraws from, and a lamport vault.  Every instruction handler is a
//! verified function from the accounts it reads to the transfers it asks the
//! runtime for and the account data it writes back.

pub mod constants;
pub mod pubkey;
pub mod error;
pub mod state;
pub mod cpi;
pub mod ledger;
pub mod instructions;
pub mod laws;
pub mod fee_ledger;
pub mod instruction_laws;
