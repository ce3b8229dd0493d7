//! The flash-loan program: a borrower takes tokens from the protocol's pool
//! and must pay them back, with a fee, within the same transaction.

pub mod state;
pub mod error;
pub mod borrow;
pub mod repay;
