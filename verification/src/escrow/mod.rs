//! The escrow program: a maker deposits tokens under stated terms, a taker
//! pays those terms and receives the deposit.

pub mod state;
pub mod error;
pub mod make;
pub mod take;
