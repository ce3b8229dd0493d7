//! Verified core of two Solana programs: a token escrow (make / take) and a
//! flash loan that checks its own repayment through instruction introspection.
//!
//! The library decides and computes; the transfers it asks for are carried out
//! by the program around it.

pub mod account;
pub mod cpi;
pub mod escrow;
pub mod flash_loan;
pub mod pubkey;
pub mod sysvar;
