//! Taking an offer: the taker pays the maker, receives the vault's tokens, and
//! the vault is closed to the maker.

use vstd::prelude::*;
use vstd::bytes::{spec_u64_to_le_bytes, spec_u64_to_le_bytes_to_open, u64_to_le_bytes};
use vstd::slice::slice_to_vec;
use crate::cpi::{TransferChecked, CloseAccount, seeds_view};
use crate::pubkey::{Pubkey, keys_eq};
use super::error::EscrowError;
use super::make::{Make, is_deposit, is_escrow_of};
use super::state::Escrow;

verus! {

/// The first seed of an escrow's program address: the bytes of `"escrow"`.
pub const ESCROW_SEED: [u8; 6] = [101u8, 115u8, 99u8, 114u8, 111u8, 119u8];

/// What taking an offer reads from its accounts: their addresses, the
/// escrow's terms, the vault's balance and both mints' decimals.
#[derive(Clone, Copy, Debug)]
pub struct Take {
    /// The user who accepts the terms.
    pub taker: Pubkey,
    /// The user who set the terms.
    pub maker: Pubkey,
    /// The escrow's own address, authority over the vault.
    pub escrow: Pubkey,
    /// The terms the escrow account holds.
    pub escrow_state: Escrow,
    /// The token the maker deposited.
    pub mint_a: Pubkey,
    /// The token the maker wants.
    pub mint_b: Pubkey,
    /// The escrow's token account for `mint_a`.
    pub vault: Pubkey,
    /// The taker's token account for `mint_a`.
    pub taker_ata_a: Pubkey,
    /// The taker's token account for `mint_b`.
    pub taker_ata_b: Pubkey,
    /// The maker's token account for `mint_b`.
    pub maker_ata_b: Pubkey,
    /// The vault's balance.
    pub vault_amount: u64,
    /// Decimals of `mint_a`.
    pub mint_a_decimals: u8,
    /// Decimals of `mint_b`.
    pub mint_b_decimals: u8,
}

/// The token-program calls of a take, in the order they are made.
pub struct TakenOffer {
    /// The wanted tokens, from the taker to the maker.
    pub to_maker: TransferChecked,
    /// The vault's tokens, to the taker.
    pub to_taker: TransferChecked,
    /// The vault's closing, its rent to the maker.
    pub close_vault: CloseAccount,
}

/// The big-endian bytes of a `u64`.
pub open spec fn spec_u64_to_be_bytes(x: u64) -> Seq<u8> {
    spec_u64_to_le_bytes(x).reverse()
}

/// The seeds of the escrow's address, as its account constraint states them:
/// `"escrow"`, the maker, the seed's little-endian bytes, the bump.
pub open spec fn escrow_address_seeds(maker: Pubkey, seed: u64, bump: u8) -> Seq<Seq<u8>> {
    seq![ESCROW_SEED@, maker@, spec_u64_to_le_bytes(seed), seq![bump]]
}

/// The seeds the escrow signs with when it empties and closes the vault:
/// `"escrow"`, the maker, the seed's big-endian bytes, the bump.
pub open spec fn take_signer_seeds(maker: Pubkey, seed: u64, bump: u8) -> Seq<Seq<u8>> {
    seq![ESCROW_SEED@, maker@, spec_u64_to_be_bytes(seed), seq![bump]]
}

/// The refusal of a take whose accounts do not match the escrow's terms, if
/// any, checked in this order: maker, deposited mint, wanted mint.
pub open spec fn spec_terms_error(ctx: Take) -> Option<EscrowError> {
    if ctx.escrow_state.maker != ctx.maker {
        Some(EscrowError::InvalidMaker)
    } else if ctx.escrow_state.mint_a != ctx.mint_a {
        Some(EscrowError::InvalidMintA)
    } else if ctx.escrow_state.mint_b != ctx.mint_b {
        Some(EscrowError::InvalidMintB)
    } else {
        None
    }
}

/// The payment to the maker: the wanted amount of `mint_b`, from the taker.
pub open spec fn is_payment_to_maker(t: TransferChecked, ctx: Take) -> bool {
    &&& t.from == ctx.taker_ata_b
    &&& t.mint == ctx.mint_b
    &&& t.to == ctx.maker_ata_b
    &&& t.authority == ctx.taker
    &&& t.amount == ctx.escrow_state.receive
    &&& t.decimals == ctx.mint_b_decimals
    &&& seeds_view(t.signer_seeds) == Seq::<Seq<u8>>::empty()
}

/// The withdrawal: the vault's whole balance of `mint_a`, from the vault to
/// the taker, signed by the escrow.
pub open spec fn is_withdrawal(t: TransferChecked, ctx: Take) -> bool {
    &&& t.from == ctx.vault
    &&& t.mint == ctx.mint_a
    &&& t.to == ctx.taker_ata_a
    &&& t.authority == ctx.escrow
    &&& t.amount == ctx.vault_amount
    &&& t.decimals == ctx.mint_a_decimals
    &&& seeds_view(t.signer_seeds) == take_signer_seeds(ctx.maker, ctx.escrow_state.seed, ctx.escrow_state.bump)
}

/// The vault's closing, its rent to the maker, signed by the escrow.
pub open spec fn is_vault_closing(c: CloseAccount, ctx: Take) -> bool {
    &&& c.account == ctx.vault
    &&& c.destination == ctx.maker
    &&& c.authority == ctx.escrow
    &&& seeds_view(c.signer_seeds) == take_signer_seeds(ctx.maker, ctx.escrow_state.seed, ctx.escrow_state.bump)
}

/// The big-endian bytes of `x`.
fn u64_to_be_bytes(x: u64) -> (r: Vec<u8>)
    ensures
        r@ == spec_u64_to_be_bytes(x),
{
    let le = u64_to_le_bytes(x);
    let mut out: Vec<u8> = Vec::new();
    let mut i: usize = le.len();
    while i > 0
        invariant
            i <= le@.len(),
            out@ == le@.subrange(i as int, le@.len() as int).reverse(),
        decreases i,
    {
        i = i - 1;
        out.push(le[i]);
        assert(out@ =~= le@.subrange(i as int, le@.len() as int).reverse());
    }
    assert(le@.subrange(0, le@.len() as int) =~= le@);
    out
}

/// The seeds the escrow signs with for the vault.
fn escrow_signer_seeds(maker: &Pubkey, seed: u64, bump: u8) -> (r: Vec<Vec<u8>>)
    ensures
        seeds_view(r) == take_signer_seeds(*maker, seed, bump),
{
    let mut seeds: Vec<Vec<u8>> = Vec::new();
    seeds.push(slice_to_vec(&ESCROW_SEED));
    seeds.push(maker.to_vec());
    seeds.push(u64_to_be_bytes(seed));
    let mut b: Vec<u8> = Vec::new();
    b.push(bump);
    seeds.push(b);
    assert(seeds_view(seeds) =~= take_signer_seeds(*maker, seed, bump));
    seeds
}

impl Take {
    /// Checks that the accounts passed are the escrow's: its maker and both of
    /// its mints (the escrow account's `has_one` constraints).
    pub fn check_escrow_terms(&self) -> (r: Result<(), EscrowError>)
        ensures
            r == match spec_terms_error(*self) {
                Some(e) => Err(e),
                None => Ok(()),
            },
    {
        if !keys_eq(&self.escrow_state.maker, &self.maker) {
            return Err(EscrowError::InvalidMaker);
        }
        if !keys_eq(&self.escrow_state.mint_a, &self.mint_a) {
            return Err(EscrowError::InvalidMintA);
        }
        if !keys_eq(&self.escrow_state.mint_b, &self.mint_b) {
            return Err(EscrowError::InvalidMintB);
        }
        Ok(())
    }

    /// Pays the maker: the escrow's wanted amount of `mint_b` from the taker's
    /// account to the maker's.
    pub fn transfer_to_maker(&self) -> (r: TransferChecked)
        ensures
            is_payment_to_maker(r, *self),
    {
        let seeds: Vec<Vec<u8>> = Vec::new();
        assert(seeds_view(seeds) =~= Seq::<Seq<u8>>::empty());
        TransferChecked {
            from: self.taker_ata_b,
            mint: self.mint_b,
            to: self.maker_ata_b,
            authority: self.taker,
            amount: self.escrow_state.receive,
            decimals: self.mint_b_decimals,
            signer_seeds: seeds,
        }
    }

    /// Empties the vault to the taker and closes it to the maker, both signed
    /// by the escrow.
    pub fn withdraw_and_close_vault(&self) -> (r: (TransferChecked, CloseAccount))
        ensures
            is_withdrawal(r.0, *self),
            is_vault_closing(r.1, *self),
    {
        let withdrawal = TransferChecked {
            from: self.vault,
            mint: self.mint_a,
            to: self.taker_ata_a,
            authority: self.escrow,
            amount: self.vault_amount,
            decimals: self.mint_a_decimals,
            signer_seeds: escrow_signer_seeds(&self.maker, self.escrow_state.seed, self.escrow_state.bump),
        };
        let closing = CloseAccount {
            account: self.vault,
            destination: self.maker,
            authority: self.escrow,
            signer_seeds: escrow_signer_seeds(&self.maker, self.escrow_state.seed, self.escrow_state.bump),
        };
        (withdrawal, closing)
    }
}

/// Takes the offer: pays the maker, then empties the vault to the taker and
/// closes it.
pub fn handler(ctx: &Take) -> (r: TakenOffer)
    ensures
        is_payment_to_maker(r.to_maker, *ctx),
        is_withdrawal(r.to_taker, *ctx),
        is_vault_closing(r.close_vault, *ctx),
{
    let to_maker = ctx.transfer_to_maker();
    let (to_taker, close_vault) = ctx.withdraw_and_close_vault();
    TakenOffer { to_maker, to_taker, close_vault }
}

/// The escrow signs for the vault with the seeds of its own address exactly
/// when the seed's little-endian and big-endian bytes are the same (for
/// instance a seed of 0); for any other seed the signer seeds derive another
/// address.
pub proof fn lemma_take_signs_as_escrow(maker: Pubkey, seed: u64, bump: u8)
    ensures
        take_signer_seeds(maker, seed, bump) == escrow_address_seeds(maker, seed, bump)
            <==> spec_u64_to_be_bytes(seed) == spec_u64_to_le_bytes(seed),
{
    if take_signer_seeds(maker, seed, bump) == escrow_address_seeds(maker, seed, bump) {
        assert(take_signer_seeds(maker, seed, bump)[2] == escrow_address_seeds(maker, seed, bump)[2]);
    }
    if spec_u64_to_be_bytes(seed) == spec_u64_to_le_bytes(seed) {
        assert(take_signer_seeds(maker, seed, bump) =~= escrow_address_seeds(maker, seed, bump));
    }
}

/// A take honours the offer that make recorded: once the accounts pass the
/// escrow's terms and the vault is the one make deposited into, the maker is
/// paid the wanted amount in the wanted mint into the maker's account for that
/// mint, the taker receives the deposited mint out of that vault (all of it:
/// the deposit, where the vault still holds just that), and the vault's rent
/// returns to the maker.
pub proof fn lemma_take_honours_offer(
    make: Make,
    seed: u64,
    receive: u64,
    amount: u64,
    deposit: TransferChecked,
    take: Take,
    taken: TakenOffer,
)
    requires
        is_escrow_of(take.escrow_state, make, seed, receive, make.escrow_bump),
        is_deposit(deposit, make, amount),
        spec_terms_error(take) is None,
        take.vault == make.vault,
        is_payment_to_maker(taken.to_maker, take),
        is_withdrawal(taken.to_taker, take),
        is_vault_closing(taken.close_vault, take),
    ensures
        taken.to_maker.amount == receive,
        taken.to_maker.mint == make.mint_b,
        taken.to_maker.to == take.maker_ata_b,
        taken.to_taker.mint == deposit.mint,
        taken.to_taker.from == deposit.to,
        taken.to_taker.amount == take.vault_amount,
        take.vault_amount == amount ==> taken.to_taker.amount == amount,
        taken.close_vault.account == deposit.to,
        taken.close_vault.destination == make.maker,
{
}

/// A take's accounts are refused exactly when the maker or one of the mints
/// passed in is not the escrow's, with the error naming the first mismatch in
/// the order maker, deposited mint, wanted mint.
pub proof fn lemma_terms_check(ctx: Take)
    ensures
        spec_terms_error(ctx) is None <==> {
            &&& ctx.escrow_state.maker == ctx.maker
            &&& ctx.escrow_state.mint_a == ctx.mint_a
            &&& ctx.escrow_state.mint_b == ctx.mint_b
        },
        (spec_terms_error(ctx) == Some(EscrowError::InvalidMaker)) <==> ctx.escrow_state.maker != ctx.maker,
        (spec_terms_error(ctx) == Some(EscrowError::InvalidMintA)) <==> (ctx.escrow_state.maker == ctx.maker
            && ctx.escrow_state.mint_a != ctx.mint_a),
        (spec_terms_error(ctx) == Some(EscrowError::InvalidMintB)) <==> (ctx.escrow_state.maker == ctx.maker
            && ctx.escrow_state.mint_a == ctx.mint_a && ctx.escrow_state.mint_b != ctx.mint_b),
{
}

/// The maker is paid exactly the wanted amount of the wanted mint, checked
/// against that mint's decimals, from the taker's account for it into the
/// maker's, authorised by the taker, with no signer seeds.
pub proof fn lemma_maker_is_paid(t: TransferChecked, ctx: Take)
    requires
        is_payment_to_maker(t, ctx),
    ensures
        t.amount == ctx.escrow_state.receive,
        t.decimals == ctx.mint_b_decimals,
        t.mint == ctx.mint_b,
        t.from == ctx.taker_ata_b,
        t.to == ctx.maker_ata_b,
        t.authority == ctx.taker,
        t.signer_seeds@.len() == 0,
{
    assert(seeds_view(t.signer_seeds).len() == t.signer_seeds@.len());
}

proof fn lemma_take_signer_seeds_are(seeds: Vec<Vec<u8>>, maker: Pubkey, seed: u64, bump: u8)
    requires
        seeds_view(seeds) == take_signer_seeds(maker, seed, bump),
    ensures
        seeds@.len() == 4,
        seeds@[0]@ == seq![101u8, 115u8, 99u8, 114u8, 111u8, 119u8],
        seeds@[1]@ == maker.bytes@,
        seeds@[2]@ == seq![
            ((seed >> 56u64) & 0xff) as u8,
            ((seed >> 48u64) & 0xff) as u8,
            ((seed >> 40u64) & 0xff) as u8,
            ((seed >> 32u64) & 0xff) as u8,
            ((seed >> 24u64) & 0xff) as u8,
            ((seed >> 16u64) & 0xff) as u8,
            ((seed >> 8u64) & 0xff) as u8,
            (seed & 0xff) as u8,
        ],
        seeds@[3]@ == seq![bump],
{
    spec_u64_to_le_bytes_to_open(seed);
    assert(seeds_view(seeds).len() == seeds@.len());
    assert(seeds_view(seeds)[0] == seeds@[0]@);
    assert(seeds_view(seeds)[1] == seeds@[1]@);
    assert(seeds_view(seeds)[2] == seeds@[2]@);
    assert(seeds_view(seeds)[3] == seeds@[3]@);
    assert(ESCROW_SEED@ =~= seq![101u8, 115u8, 99u8, 114u8, 111u8, 119u8]);
    assert(spec_u64_to_be_bytes(seed) =~= seq![
        ((seed >> 56u64) & 0xff) as u8,
        ((seed >> 48u64) & 0xff) as u8,
        ((seed >> 40u64) & 0xff) as u8,
        ((seed >> 32u64) & 0xff) as u8,
        ((seed >> 24u64) & 0xff) as u8,
        ((seed >> 16u64) & 0xff) as u8,
        ((seed >> 8u64) & 0xff) as u8,
        (seed & 0xff) as u8,
    ]);
}

/// The taker receives the vault's whole balance of the deposited mint,
/// checked against that mint's decimals, out of the vault into the taker's
/// account for it, authorised by the escrow and signed with its seeds.
pub proof fn lemma_taker_receives_vault(t: TransferChecked, ctx: Take)
    requires
        is_withdrawal(t, ctx),
    ensures
        t.amount == ctx.vault_amount,
        t.decimals == ctx.mint_a_decimals,
        t.mint == ctx.mint_a,
        t.from == ctx.vault,
        t.to == ctx.taker_ata_a,
        t.authority == ctx.escrow,
        t.signer_seeds@.len() == 4,
        t.signer_seeds@[0]@ == seq![101u8, 115u8, 99u8, 114u8, 111u8, 119u8],
        t.signer_seeds@[1]@ == ctx.maker.bytes@,
        t.signer_seeds@[2]@ == seq![
            ((ctx.escrow_state.seed >> 56u64) & 0xff) as u8,
            ((ctx.escrow_state.seed >> 48u64) & 0xff) as u8,
            ((ctx.escrow_state.seed >> 40u64) & 0xff) as u8,
            ((ctx.escrow_state.seed >> 32u64) & 0xff) as u8,
            ((ctx.escrow_state.seed >> 24u64) & 0xff) as u8,
            ((ctx.escrow_state.seed >> 16u64) & 0xff) as u8,
            ((ctx.escrow_state.seed >> 8u64) & 0xff) as u8,
            (ctx.escrow_state.seed & 0xff) as u8,
        ],
        t.signer_seeds@[3]@ == seq![ctx.escrow_state.bump],
{
    lemma_take_signer_seeds_are(t.signer_seeds, ctx.maker, ctx.escrow_state.seed, ctx.escrow_state.bump);
}

/// The vault is closed, its rent going to the maker, authorised by the escrow
/// and signed with its seeds.
pub proof fn lemma_vault_is_closed(c: CloseAccount, ctx: Take)
    requires
        is_vault_closing(c, ctx),
    ensures
        c.account == ctx.vault,
        c.destination == ctx.maker,
        c.authority == ctx.escrow,
        c.signer_seeds@.len() == 4,
        c.signer_seeds@[0]@ == seq![101u8, 115u8, 99u8, 114u8, 111u8, 119u8],
        c.signer_seeds@[1]@ == ctx.maker.bytes@,
        c.signer_seeds@[2]@ == seq![
            ((ctx.escrow_state.seed >> 56u64) & 0xff) as u8,
            ((ctx.escrow_state.seed >> 48u64) & 0xff) as u8,
            ((ctx.escrow_state.seed >> 40u64) & 0xff) as u8,
            ((ctx.escrow_state.seed >> 32u64) & 0xff) as u8,
            ((ctx.escrow_state.seed >> 24u64) & 0xff) as u8,
            ((ctx.escrow_state.seed >> 16u64) & 0xff) as u8,
            ((ctx.escrow_state.seed >> 8u64) & 0xff) as u8,
            (ctx.escrow_state.seed & 0xff) as u8,
        ],
        c.signer_seeds@[3]@ == seq![ctx.escrow_state.bump],
{
    lemma_take_signer_seeds_are(c.signer_seeds, ctx.maker, ctx.escrow_state.seed, ctx.escrow_state.bump);
}

} // verus!
