use vstd::prelude::*;

verus! {

/// Why the escrow program refuses an instruction.
#[derive(Clone, Copy, Debug, PartialEq, Eq, Structural)]
pub enum EscrowError {
    /// An amount of the offer is zero.
    InvalidAmount,
    /// The maker passed in is not the escrow's maker.
    InvalidMaker,
    /// The deposited mint passed in is not the escrow's.
    InvalidMintA,
    /// The wanted mint passed in is not the escrow's.
    InvalidMintB,
}

} // verus!
