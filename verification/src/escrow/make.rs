//! Making an offer: record the terms and deposit the offered tokens in the vault.

use vstd::prelude::*;
use crate::cpi::{TransferChecked, seeds_view};
use crate::pubkey::Pubkey;
use super::error::EscrowError;
use super::state::Escrow;

verus! {

/// What making an offer reads from its accounts: their addresses, the
/// deposited mint's decimals and the bump of the escrow's address.
#[derive(Clone, Copy, Debug)]
pub struct Make {
    /// The user who sets the terms and deposits.
    pub maker: Pubkey,
    /// The token the maker deposits.
    pub mint_a: Pubkey,
    /// The token the maker wants in exchange.
    pub mint_b: Pubkey,
    /// The maker's token account for `mint_a`, the deposit's source.
    pub maker_ata_a: Pubkey,
    /// The escrow's token account for `mint_a`, where the deposit is parked.
    pub vault: Pubkey,
    /// Decimals of `mint_a`.
    pub mint_a_decimals: u8,
    /// The bump of the escrow's program address.
    pub escrow_bump: u8,
}

/// What a successful make leaves behind: the escrow's terms and the deposit.
pub struct MadeOffer {
    pub escrow: Escrow,
    pub deposit: TransferChecked,
}

/// The refusal of a make, if any: both amounts must be positive, the wanted
/// amount is checked first.
pub open spec fn spec_make_error(receive: u64, amount: u64) -> Option<EscrowError> {
    if receive == 0 {
        Some(EscrowError::InvalidAmount)
    } else if amount == 0 {
        Some(EscrowError::InvalidAmount)
    } else {
        None
    }
}

/// The escrow that records an offer.
pub open spec fn is_escrow_of(e: Escrow, ctx: Make, seed: u64, receive: u64, bump: u8) -> bool {
    &&& e.seed == seed
    &&& e.maker == ctx.maker
    &&& e.mint_a == ctx.mint_a
    &&& e.mint_b == ctx.mint_b
    &&& e.receive == receive
    &&& e.bump == bump
}

/// The deposit of an offer: `amount` of `mint_a` from the maker's account to
/// the vault, signed by the maker.
pub open spec fn is_deposit(t: TransferChecked, ctx: Make, amount: u64) -> bool {
    &&& t.from == ctx.maker_ata_a
    &&& t.mint == ctx.mint_a
    &&& t.to == ctx.vault
    &&& t.authority == ctx.maker
    &&& t.amount == amount
    &&& t.decimals == ctx.mint_a_decimals
    &&& seeds_view(t.signer_seeds) == Seq::<Seq<u8>>::empty()
}

impl Make {
    /// The escrow's terms: the maker, both mints, the seed, the wanted amount
    /// and the bump of the escrow's address.
    pub fn populate_escrow(&self, seed: u64, amount: u64, bump: u8) -> (r: Escrow)
        ensures
            is_escrow_of(r, *self, seed, amount, bump),
    {
        Escrow {
            seed,
            maker: self.maker,
            mint_a: self.mint_a,
            mint_b: self.mint_b,
            receive: amount,
            bump,
        }
    }

    /// The deposit: `amount` tokens of `mint_a` from the maker's token account
    /// into the vault.
    pub fn deposit_tokens(&self, amount: u64) -> (r: TransferChecked)
        ensures
            is_deposit(r, *self, amount),
    {
        let seeds: Vec<Vec<u8>> = Vec::new();
        assert(seeds_view(seeds) =~= Seq::<Seq<u8>>::empty());
        TransferChecked {
            from: self.maker_ata_a,
            mint: self.mint_a,
            to: self.vault,
            authority: self.maker,
            amount,
            decimals: self.mint_a_decimals,
            signer_seeds: seeds,
        }
    }
}

/// Makes an offer of `amount` tokens of `mint_a` for `recieve` tokens of
/// `mint_b`: refuses zero amounts, else records the terms and deposits.
pub fn handler(ctx: &Make, seed: u64, recieve: u64, amount: u64) -> (r: Result<MadeOffer, EscrowError>)
    ensures
        match spec_make_error(recieve, amount) {
            Some(e) => r matches Err(e2) && e2 == e,
            None => r matches Ok(m) && is_escrow_of(m.escrow, *ctx, seed, recieve, ctx.escrow_bump)
                && is_deposit(m.deposit, *ctx, amount),
        },
{
    if recieve == 0 {
        return Err(EscrowError::InvalidAmount);
    }
    if amount == 0 {
        return Err(EscrowError::InvalidAmount);
    }
    let escrow = ctx.populate_escrow(seed, recieve, ctx.escrow_bump);
    let deposit = ctx.deposit_tokens(amount);
    Ok(MadeOffer { escrow, deposit })
}

/// A make is refused, always with `InvalidAmount`, exactly when the wanted
/// amount or the deposited amount is zero.
pub proof fn lemma_make_refusal(receive: u64, amount: u64)
    ensures
        spec_make_error(receive, amount) is None <==> receive > 0 && amount > 0,
        spec_make_error(receive, amount) is Some ==> spec_make_error(receive, amount) == Some(
            EscrowError::InvalidAmount,
        ),
{
}

/// The escrow a make records holds the seed, the maker, both mints, the
/// wanted amount and the bump it was given, unchanged.
pub proof fn lemma_escrow_records_terms(e: Escrow, ctx: Make, seed: u64, receive: u64, bump: u8)
    requires
        is_escrow_of(e, ctx, seed, receive, bump),
    ensures
        e.seed == seed,
        e.maker.bytes == ctx.maker.bytes,
        e.mint_a.bytes == ctx.mint_a.bytes,
        e.mint_b.bytes == ctx.mint_b.bytes,
        e.receive == receive,
        e.bump == bump,
{
}

/// The deposit moves exactly the offered amount of the offered mint, checked
/// against that mint's decimals, from the maker's token account into the
/// vault, authorised by the maker, with no signer seeds.
pub proof fn lemma_deposit_moves_offer(t: TransferChecked, ctx: Make, amount: u64)
    requires
        is_deposit(t, ctx, amount),
    ensures
        t.amount == amount,
        t.decimals == ctx.mint_a_decimals,
        t.mint == ctx.mint_a,
        t.from == ctx.maker_ata_a,
        t.to == ctx.vault,
        t.authority == ctx.maker,
        t.signer_seeds@.len() == 0,
{
    assert(seeds_view(t.signer_seeds).len() == t.signer_seeds@.len());
}

} // verus!
