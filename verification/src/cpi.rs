//! Token-program calls that the programs ask for. The library decides each
//! call and its arguments; the program around it performs them.

use vstd::prelude::*;
use crate::pubkey::Pubkey;

verus! {

/// The seeds a program signs with, each as its bytes.
pub open spec fn seeds_view(seeds: Vec<Vec<u8>>) -> Seq<Seq<u8>> {
    seeds@.map_values(|s: Vec<u8>| s@)
}

/// `token::transfer`: move `amount` tokens from `from` to `to`, authorised by
/// `authority` (signed with `signer_seeds` when the authority is a program address).
pub struct Transfer {
    pub from: Pubkey,
    pub to: Pubkey,
    pub authority: Pubkey,
    pub amount: u64,
    pub signer_seeds: Vec<Vec<u8>>,
}

/// `token::transfer_checked`: as a transfer, with the mint and its decimals
/// checked by the token program.
pub struct TransferChecked {
    pub from: Pubkey,
    pub mint: Pubkey,
    pub to: Pubkey,
    pub authority: Pubkey,
    pub amount: u64,
    pub decimals: u8,
    pub signer_seeds: Vec<Vec<u8>>,
}

/// `token::close_account`: close `account`, sending its rent to `destination`.
pub struct CloseAccount {
    pub account: Pubkey,
    pub destination: Pubkey,
    pub authority: Pubkey,
    pub signer_seeds: Vec<Vec<u8>>,
}

} // verus!
