use vstd::prelude::*;

verus! {

/// Why the flash-loan program refuses an instruction.
#[derive(Clone, Copy, Debug, PartialEq, Eq, Structural)]
pub enum ProtocolError {
    /// The borrow is not the first instruction, or the last instruction is not a repay.
    InvalidIx,
    /// The last instruction calls another program.
    InvalidProgram,
    /// The repay instruction names another borrower token account.
    InvalidBorrowerAta,
    /// The repay instruction names another protocol token account.
    InvalidProtocolAta,
    /// The transaction holds no repay instruction.
    MissingRepayIx,
    /// The transaction holds no borrow instruction.
    MissingBorrowIx,
    /// The amount to borrow is zero.
    InvalidAmount,
    /// The amount to pay back does not fit in 64 bits.
    Overflow,
}

} // verus!
