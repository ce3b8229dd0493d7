//! Repaying: the borrower pays back what the transaction's first instruction
//! borrowed, plus a fee of 500 basis points.

use vstd::prelude::*;
use vstd::bytes::spec_u64_from_le_bytes;
use crate::account::read_u64_le;
use crate::cpi::{Transfer, seeds_view};
use crate::pubkey::Pubkey;
use crate::sysvar::{
    Instruction, InstructionView, load_instruction_at, opt_instruction_view, spec_num_instructions,
    sysvar_instruction_at,
};
use super::borrow::{Borrow, is_loan_payout, spec_borrow_check};
use super::error::ProtocolError;

verus! {

/// The fee, in basis points of the borrowed amount.
pub const FEE_BASIS_POINTS: u128 = 500u128;

/// Basis points in a whole.
pub const BASIS_POINTS: u128 = 10_000u128;

/// What a repayment reads from its accounts: their addresses and the
/// instructions sysvar's data.
#[derive(Debug)]
pub struct Repay {
    /// The borrower, who signs the repayment.
    pub borrower: Pubkey,
    /// The borrower's token account for the mint.
    pub borrower_ata: Pubkey,
    /// The protocol's token account for the mint (the pool).
    pub protocol_ata: Pubkey,
    /// The instructions sysvar's data.
    pub instructions: Vec<u8>,
}

/// The fee on a borrowed amount: 500 basis points, rounded down.
pub open spec fn spec_fee(amount: u64) -> int {
    (amount as int) * (FEE_BASIS_POINTS as int) / (BASIS_POINTS as int)
}

/// What is owed back for a borrowed amount, or `Overflow` where it does not
/// fit in 64 bits.
pub open spec fn spec_repay_amount(amount: u64) -> Result<u64, ProtocolError> {
    if amount + spec_fee(amount) > u64::MAX {
        Err(ProtocolError::Overflow)
    } else {
        Ok((amount + spec_fee(amount)) as u64)
    }
}

/// The amount a repayment reads as borrowed: bytes 8 to 16 of the first
/// instruction's data, little-endian.
pub open spec fn spec_amount_borrowed(borrow_ix: InstructionView) -> u64 {
    spec_u64_from_le_bytes(borrow_ix.data.subrange(8, 16))
}

/// What a repayment decides from the transaction's first instruction (`None`
/// there if none could be read): `MissingBorrowIx`; `None` where its data is
/// shorter than 16 bytes (the program panics there); else the amount owed for
/// what it says was borrowed, or `Overflow`.
pub open spec fn spec_repay_decision(borrow_ix: Option<InstructionView>) -> Option<Result<u64, ProtocolError>> {
    match borrow_ix {
        None => Some(Err(ProtocolError::MissingBorrowIx)),
        Some(ix) => if ix.data.len() < 16 {
            None
        } else {
            Some(spec_repay_amount(spec_amount_borrowed(ix)))
        },
    }
}

/// What a repayment decides from the instructions sysvar's data.
pub open spec fn spec_refund_check(sysvar_data: Seq<u8>) -> Option<Result<u64, ProtocolError>> {
    spec_repay_decision(sysvar_instruction_at(sysvar_data, 0))
}

/// The transfer of a repayment: `amount` from the borrower to the pool,
/// signed by the borrower.
pub open spec fn is_loan_repayment(t: Transfer, ctx: Repay, amount: u64) -> bool {
    &&& t.from == ctx.borrower_ata
    &&& t.to == ctx.protocol_ata
    &&& t.authority == ctx.borrower
    &&& t.amount == amount
    &&& seeds_view(t.signer_seeds) == Seq::<Seq<u8>>::empty()
}

/// A repayment's result carries out the decision `d`: no result where the
/// program panics, the refusal, or the repayment of the amount owed.
pub open spec fn is_repay_outcome(
    r: Option<Result<Transfer, ProtocolError>>,
    d: Option<Result<u64, ProtocolError>>,
    ctx: Repay,
) -> bool {
    match d {
        None => r is None,
        Some(Err(e)) => r == Some(Err::<Transfer, ProtocolError>(e)),
        Some(Ok(total)) => r matches Some(Ok(t)) && is_loan_repayment(t, ctx, total),
    }
}

/// The amount owed back for `amount_borrowed`: the amount plus its fee.
pub fn repay_amount(amount_borrowed: u64) -> (r: Result<u64, ProtocolError>)
    ensures
        r == spec_repay_amount(amount_borrowed),
        r matches Ok(total) ==> amount_borrowed <= total,
        r matches Ok(total) ==> total - amount_borrowed == amount_borrowed / 20,
{
    let wide: u128 = amount_borrowed as u128;
    assert(wide * FEE_BASIS_POINTS <= u128::MAX) by (nonlinear_arith)
        requires wide <= u64::MAX;
    let fee: u128 = match wide.checked_mul(FEE_BASIS_POINTS).unwrap().checked_div(BASIS_POINTS) {
        Some(f) => f,
        None => return Err(ProtocolError::Overflow),
    };
    assert(fee == spec_fee(amount_borrowed));
    assert(fee <= wide) by (nonlinear_arith)
        requires fee == wide * 500 / 10000;
    assert(wide * 500 / 10000 == wide / 20) by (nonlinear_arith);
    match amount_borrowed.checked_add(fee as u64) {
        Some(total) => Ok(total),
        None => Err(ProtocolError::Overflow),
    }
}

impl Repay {
    /// Decides a repayment from the transaction's first instruction (`None` if
    /// none could be read): refuses it, or transfers the amount owed from the
    /// borrower to the pool. `None` where the program panics.
    pub fn settle(&self, borrow_ix: Option<Instruction>) -> (r: Option<Result<Transfer, ProtocolError>>)
        ensures
            is_repay_outcome(r, spec_repay_decision(opt_instruction_view(borrow_ix)), *self),
    {
        let borrow_ix = match borrow_ix {
            Some(ix) => ix,
            None => return Some(Err(ProtocolError::MissingBorrowIx)),
        };
        if borrow_ix.data.len() < 16 {
            return None;
        }
        let amount_borrowed = read_u64_le(borrow_ix.data.as_slice(), 8);
        let total = match repay_amount(amount_borrowed) {
            Ok(t) => t,
            Err(e) => return Some(Err(e)),
        };
        let seeds: Vec<Vec<u8>> = Vec::new();
        assert(seeds_view(seeds) =~= Seq::<Seq<u8>>::empty());
        Some(Ok(Transfer {
            from: self.borrower_ata,
            to: self.protocol_ata,
            authority: self.borrower,
            amount: total,
            signer_seeds: seeds,
        }))
    }

    /// Pays the loan back: reads the borrowed amount out of the transaction's
    /// first instruction and transfers it, with the fee, from the borrower to
    /// the pool.
    ///
    /// `None` where the program panics: the first instruction's data is
    /// shorter than 16 bytes.
    pub fn refund_to_protocol(&self) -> (r: Option<Result<Transfer, ProtocolError>>)
        ensures
            is_repay_outcome(r, spec_refund_check(self.instructions@), *self),
    {
        let borrow_ix = load_instruction_at(0, self.instructions.as_slice());
        self.settle(borrow_ix)
    }
}

/// Handles a repayment.
pub fn handler(ctx: &Repay) -> (r: Option<Result<Transfer, ProtocolError>>)
    ensures
        is_repay_outcome(r, spec_refund_check(ctx.instructions@), *ctx),
{
    ctx.refund_to_protocol()
}

/// The pool is paid back, with the fee, into the account the loan left from,
/// provided the first instruction's bytes 8 to 16 hold the amount lent.
///
/// In one transaction (the same sysvar data), when a borrow of
/// `borrow_amount` is granted and the repay that closes the transaction (run
/// with the token accounts that instruction names, its fourth and fifth)
/// succeeds, the repayment moves from the account the loan was paid into back
/// to the pool it was paid from, and moves the amount lent plus 500 basis
/// points of it, so never less than was lent.
///
/// The first instruction is the borrow itself; repay reads its bytes 8 to 16,
/// which hold the amount lent only for data laid out that way (a borrow whose
/// data is its one-byte discriminator and the amount has 9 bytes, and there
/// repay does not succeed).
pub proof fn lemma_pool_is_repaid(
    borrow: Borrow,
    borrow_amount: u64,
    bump: u8,
    loan: Transfer,
    repay: Repay,
    total: u64,
    repayment: Transfer,
)
    requires
        repay.instructions@ == borrow.instructions@,
        spec_borrow_check(borrow, borrow_amount) == Some(Ok::<(), ProtocolError>(())),
        is_loan_payout(loan, borrow, borrow_amount, bump),
        sysvar_instruction_at(borrow.instructions@, spec_num_instructions(borrow.instructions@) - 1)
            matches Some(ix)
            && ix.accounts.len() > 4
            && repay.borrower_ata == ix.accounts[3].pubkey
            && repay.protocol_ata == ix.accounts[4].pubkey,
        spec_refund_check(repay.instructions@) == Some(Ok::<u64, ProtocolError>(total)),
        is_loan_repayment(repayment, repay, total),
        sysvar_instruction_at(repay.instructions@, 0) matches Some(first)
            && spec_amount_borrowed(first) == borrow_amount,
    ensures
        repayment.from == loan.to,
        repayment.to == loan.from,
        repayment.authority == repay.borrower,
        repayment.amount == loan.amount + loan.amount / 20,
        repayment.amount >= loan.amount,
{
    assert(borrow_amount * 500 / 10000 == borrow_amount / 20) by (nonlinear_arith);
}

/// What a repayment returns: nothing where the decision is that the program
/// panics, the refusal as decided, and for an amount owed one transfer of
/// exactly that amount from the borrower's token account to the pool,
/// authorised by the borrower who signs the repay, with no signer seeds.
pub proof fn lemma_repay_outcome(
    r: Option<Result<Transfer, ProtocolError>>,
    d: Option<Result<u64, ProtocolError>>,
    ctx: Repay,
)
    requires
        is_repay_outcome(r, d, ctx),
    ensures
        d is None ==> r is None,
        d matches Some(Err(e)) ==> r == Some(Err::<Transfer, ProtocolError>(e)),
        d matches Some(Ok(total)) ==> (r matches Some(Ok(t))
            && t.authority == ctx.borrower
            && t.from == ctx.borrower_ata
            && t.to == ctx.protocol_ata
            && t.amount == total
            && t.signer_seeds@.len() == 0),
{
    if let Some(Ok(total)) = d {
        let t = r->Some_0->Ok_0;
        assert(is_loan_repayment(t, ctx, total));
        assert(seeds_view(t.signer_seeds).len() == t.signer_seeds@.len());
    }
}

/// What a repayment decides from the first instruction: `MissingBorrowIx`
/// when there is none; the panic (`None`) when its data is shorter than 16
/// bytes; else, for the amount `a` in its bytes 8 to 16 (little-endian),
/// `a + a / 20` (the amount and 500 basis points of it), or `Overflow` when
/// that exceeds 64 bits.
pub proof fn lemma_repay_decision(ix: InstructionView)
    ensures
        spec_repay_decision(None) == Some(Err::<u64, ProtocolError>(ProtocolError::MissingBorrowIx)),
        ix.data.len() < 16 ==> spec_repay_decision(Some(ix)) is None,
        ix.data.len() >= 16 ==> {
            let a = spec_u64_from_le_bytes(ix.data.subrange(8, 16));
            &&& a + a / 20 <= u64::MAX ==> spec_repay_decision(Some(ix)) == Some(
                Ok::<u64, ProtocolError>((a + a / 20) as u64),
            )
            &&& a + a / 20 > u64::MAX ==> spec_repay_decision(Some(ix)) == Some(
                Err::<u64, ProtocolError>(ProtocolError::Overflow),
            )
        },
{
    if ix.data.len() >= 16 {
        let a = spec_u64_from_le_bytes(ix.data.subrange(8, 16));
        assert(a * 500 / 10000 == a / 20) by (nonlinear_arith);
    }
}

/// A repayment decides from the transaction's first instruction, the one at
/// index 0 of the instructions sysvar's data.
pub proof fn lemma_refund_reads_first_instruction(sysvar_data: Seq<u8>)
    ensures
        spec_refund_check(sysvar_data) == spec_repay_decision(sysvar_instruction_at(sysvar_data, 0)),
{
}

} // verus!
