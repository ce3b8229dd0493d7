//! Borrowing: the protocol lends only to a transaction that starts with the
//! borrow and ends with a matching repay to this program.

use vstd::prelude::*;
use vstd::bytes::{spec_u16_from_le_bytes, u16_from_le_bytes};
use vstd::slice::{slice_subrange, slice_to_vec};
use crate::cpi::{Transfer, seeds_view};
use crate::pubkey::{Pubkey, keys_eq};
use crate::sysvar::{
    Instruction, InstructionView, load_current_index, load_instruction_at, opt_instruction_view,
    spec_current_index, spec_num_instructions, sysvar_instruction_at,
};
use super::error::ProtocolError;

verus! {

/// The first eight bytes of a repay instruction's data (Anchor's instruction
/// discriminator for `repay`).
pub const REPAY_DISCRIMINATOR: [u8; 8] = [234u8, 103u8, 67u8, 82u8, 208u8, 234u8, 219u8, 166u8];

/// The seed of the protocol's program address: the bytes of `"protocol"`.
pub const PROTOCOL_SEED: [u8; 8] = [112u8, 114u8, 111u8, 116u8, 111u8, 99u8, 111u8, 108u8];

/// What a borrow reads from its accounts: their addresses, the instructions
/// sysvar's data, the program's own id and the protocol address's bump.
#[derive(Debug)]
pub struct Borrow {
    /// The user who borrows.
    pub borrower: Pubkey,
    /// The protocol's program address, owner of the pool.
    pub protocol: Pubkey,
    /// The borrower's token account for the mint.
    pub borrower_ata: Pubkey,
    /// The protocol's token account for the mint (the pool).
    pub protocol_ata: Pubkey,
    /// The instructions sysvar's data.
    pub instructions: Vec<u8>,
    /// The id of this program.
    pub program_id: Pubkey,
    /// The bump of the protocol's program address.
    pub protocol_bump: u8,
}

/// The seeds the protocol signs with: `"protocol"` and the bump.
pub open spec fn protocol_signer_seeds(bump: u8) -> Seq<Seq<u8>> {
    seq![PROTOCOL_SEED@, seq![bump]]
}

/// What the checks of the instruction found at the end of the transaction
/// decide, in the order they are made: its program (`InvalidProgram`); then its
/// data must hold a discriminator (`None`: the program panics slicing it);
/// then the discriminator must be repay's (`InvalidIx`), its fourth account the
/// borrower's token account (`InvalidBorrowerAta`) and its fifth the
/// protocol's (`InvalidProtocolAta`).
pub open spec fn spec_repay_ix_check(ix: InstructionView, ctx: Borrow) -> Option<Result<(), ProtocolError>> {
    if ix.program_id != ctx.program_id {
        Some(Err(ProtocolError::InvalidProgram))
    } else if ix.data.len() < 8 {
        None
    } else if ix.data.subrange(0, 8) != REPAY_DISCRIMINATOR@ {
        Some(Err(ProtocolError::InvalidIx))
    } else if ix.accounts.len() <= 3 || ix.accounts[3].pubkey != ctx.borrower_ata {
        Some(Err(ProtocolError::InvalidBorrowerAta))
    } else if ix.accounts.len() <= 4 || ix.accounts[4].pubkey != ctx.protocol_ata {
        Some(Err(ProtocolError::InvalidProtocolAta))
    } else {
        Some(Ok(()))
    }
}

/// What a borrow decides from the instruction read at the end of the
/// transaction (`None` there if none could be read): `MissingRepayIx`, the
/// outcome of its checks, or, once they pass, `InvalidAmount` for a zero
/// amount and `Ok` otherwise.
pub open spec fn spec_lend_decision(
    ctx: Borrow,
    repay_ix: Option<InstructionView>,
    borrow_amount: u64,
) -> Option<Result<(), ProtocolError>> {
    match repay_ix {
        None => Some(Err(ProtocolError::MissingRepayIx)),
        Some(ix) => match spec_repay_ix_check(ix, ctx) {
            Some(Ok(())) => if borrow_amount == 0 {
                Some(Err(ProtocolError::InvalidAmount))
            } else {
                Some(Ok(()))
            },
            other => other,
        },
    }
}

/// What a borrow decides from the instructions sysvar's data: `InvalidIx`
/// unless this is the first instruction, else the decision on the last one.
/// `None` stands where the program panics.
pub open spec fn spec_borrow_check(ctx: Borrow, borrow_amount: u64) -> Option<Result<(), ProtocolError>> {
    let data = ctx.instructions@;
    if spec_current_index(data) != 0 {
        Some(Err(ProtocolError::InvalidIx))
    } else {
        spec_lend_decision(ctx, sysvar_instruction_at(data, spec_num_instructions(data) - 1), borrow_amount)
    }
}

/// The transfer a granted borrow makes: `amount` from the pool to the
/// borrower, signed by the protocol's address.
pub open spec fn is_loan_payout(t: Transfer, ctx: Borrow, amount: u64, bump: u8) -> bool {
    &&& t.from == ctx.protocol_ata
    &&& t.to == ctx.borrower_ata
    &&& t.authority == ctx.protocol
    &&& t.amount == amount
    &&& seeds_view(t.signer_seeds) == protocol_signer_seeds(bump)
}

/// A borrow's result carries out the decision `d`: no result where the
/// program panics, the refusal, or the payout.
pub open spec fn is_borrow_outcome(
    r: Option<Result<Transfer, ProtocolError>>,
    d: Option<Result<(), ProtocolError>>,
    ctx: Borrow,
    amount: u64,
    bump: u8,
) -> bool {
    match d {
        None => r is None,
        Some(Err(e)) => r == Some(Err::<Transfer, ProtocolError>(e)),
        Some(Ok(())) => r matches Some(Ok(t)) && is_loan_payout(t, ctx, amount, bump),
    }
}

/// The preconditions of a borrow: the sysvar data holds the current index,
/// and the instruction count the subtraction starts from is not zero while
/// this instruction is the first (the program panics otherwise).
pub open spec fn borrow_requires(ctx: Borrow) -> bool {
    &&& ctx.instructions@.len() >= 2
    &&& spec_current_index(ctx.instructions@) == 0 ==> spec_num_instructions(ctx.instructions@) > 0
}

/// Checks the instruction that must repay the loan: it calls this program,
/// holds a discriminator, is a repay, and names the same borrower and
/// protocol token accounts. `None` where the program panics.
pub fn check_repay_instruction(ix: &Instruction, ctx: &Borrow) -> (r: Option<Result<(), ProtocolError>>)
    ensures
        r == spec_repay_ix_check(ix@, *ctx),
{
    if !keys_eq(&ix.program_id, &ctx.program_id) {
        return Some(Err(ProtocolError::InvalidProgram));
    }
    if ix.data.len() < 8 {
        return None;
    }
    let mut i: usize = 0;
    while i < 8
        invariant
            i <= 8,
            ix.data@.len() >= 8,
            ix.program_id == ctx.program_id,
            forall|j: int| 0 <= j < i ==> ix.data@[j] == REPAY_DISCRIMINATOR[j],
        decreases 8 - i,
    {
        if ix.data[i] != REPAY_DISCRIMINATOR[i] {
            assert(ix.data@.subrange(0, 8)[i as int] != REPAY_DISCRIMINATOR@[i as int]);
            return Some(Err(ProtocolError::InvalidIx));
        }
        i = i + 1;
    }
    assert(ix.data@.subrange(0, 8) =~= REPAY_DISCRIMINATOR@);
    if ix.accounts.len() <= 3 || !keys_eq(&ix.accounts[3].pubkey, &ctx.borrower_ata) {
        return Some(Err(ProtocolError::InvalidBorrowerAta));
    }
    if ix.accounts.len() <= 4 || !keys_eq(&ix.accounts[4].pubkey, &ctx.protocol_ata) {
        return Some(Err(ProtocolError::InvalidProtocolAta));
    }
    Some(Ok(()))
}

/// The seeds the protocol signs with, as vectors.
fn protocol_seeds(bump: u8) -> (r: Vec<Vec<u8>>)
    ensures
        seeds_view(r) == protocol_signer_seeds(bump),
{
    let mut seeds: Vec<Vec<u8>> = Vec::new();
    seeds.push(slice_to_vec(&PROTOCOL_SEED));
    let mut b: Vec<u8> = Vec::new();
    b.push(bump);
    seeds.push(b);
    assert(seeds_view(seeds) =~= protocol_signer_seeds(bump));
    seeds
}

impl Borrow {
    /// Decides a borrow from the instruction read at the end of the
    /// transaction (`None` if none could be read): refuses it, or lends
    /// `borrow_amount` from the pool to the borrower, signed with `bump`.
    /// `None` where the program panics.
    pub fn lend(&self, repay_ix: Option<Instruction>, borrow_amount: u64, bump: u8) -> (r: Option<
        Result<Transfer, ProtocolError>,
    >)
        ensures
            is_borrow_outcome(
                r,
                spec_lend_decision(*self, opt_instruction_view(repay_ix), borrow_amount),
                *self,
                borrow_amount,
                bump,
            ),
    {
        let repay_ix = match repay_ix {
            Some(ix) => ix,
            None => return Some(Err(ProtocolError::MissingRepayIx)),
        };
        match check_repay_instruction(&repay_ix, self) {
            None => return None,
            Some(Err(e)) => return Some(Err(e)),
            Some(Ok(())) => {},
        }
        if borrow_amount == 0 {
            return Some(Err(ProtocolError::InvalidAmount));
        }
        Some(Ok(Transfer {
            from: self.protocol_ata,
            to: self.borrower_ata,
            authority: self.protocol,
            amount: borrow_amount,
            signer_seeds: protocol_seeds(bump),
        }))
    }

    /// Lends `borrow_amount` from the pool to the borrower once the
    /// transaction is seen to be well formed: this instruction comes first and
    /// the last one repays to this program with the same token accounts.
    /// `bump` is the protocol address's bump.
    ///
    /// `None` where the program panics: the repay instruction, addressed to
    /// this program, has data shorter than its discriminator. The program also
    /// panics on sysvar data shorter than two bytes, and on an empty
    /// instruction list; `requires` leaves those out.
    pub fn transfer_from_protocol(&self, borrow_amount: u64, bump: u8) -> (r: Option<Result<Transfer, ProtocolError>>)
        requires
            borrow_requires(*self),
        ensures
            is_borrow_outcome(r, spec_borrow_check(*self, borrow_amount), *self, borrow_amount, bump),
    {
        let sysvar_data = self.instructions.as_slice();
        // The borrow must be the first instruction.
        let current_index = load_current_index(sysvar_data).unwrap();
        if current_index != 0 {
            return Some(Err(ProtocolError::InvalidIx));
        }
        // The repay must be the last instruction.
        let n = u16_from_le_bytes(slice_subrange(sysvar_data, 0, 2));
        let repay_ix = load_instruction_at((n - 1) as usize, sysvar_data);
        self.lend(repay_ix, borrow_amount, bump)
    }
}

/// Handles a borrow: lends `borrow_amount` with the protocol address's bump.
pub fn handler(ctx: &Borrow, borrow_amount: u64) -> (r: Option<Result<Transfer, ProtocolError>>)
    requires
        borrow_requires(*ctx),
    ensures
        is_borrow_outcome(r, spec_borrow_check(*ctx, borrow_amount), *ctx, borrow_amount, ctx.protocol_bump),
{
    ctx.transfer_from_protocol(borrow_amount, ctx.protocol_bump)
}

/// The repay check refuses with `InvalidProgram` exactly when the last
/// instruction calls a program other than this one.
pub proof fn lemma_repay_check_refuses_other_programs(ix: InstructionView, ctx: Borrow)
    ensures
        (spec_repay_ix_check(ix, ctx) == Some(Err::<(), ProtocolError>(ProtocolError::InvalidProgram)))
            <==> ix.program_id != ctx.program_id,
{
}

/// The repay check accepts the last instruction exactly when it calls this
/// program, its data starts with repay's discriminator, and its fourth and
/// fifth accounts are the borrower's and the protocol's token accounts.
pub proof fn lemma_repay_check_accepts(ix: InstructionView, ctx: Borrow)
    ensures
        (spec_repay_ix_check(ix, ctx) == Some(Ok::<(), ProtocolError>(()))) <==> {
            &&& ix.program_id == ctx.program_id
            &&& ix.data.len() >= 8
            &&& forall|j: int| 0 <= j < 8 ==> ix.data[j] == REPAY_DISCRIMINATOR[j]
            &&& ix.accounts.len() > 4
            &&& ix.accounts[3].pubkey == ctx.borrower_ata
            &&& ix.accounts[4].pubkey == ctx.protocol_ata
        },
{
    if ix.data.len() >= 8 {
        if forall|j: int| 0 <= j < 8 ==> ix.data[j] == REPAY_DISCRIMINATOR[j] {
            assert(ix.data.subrange(0, 8) =~= REPAY_DISCRIMINATOR@);
        }
        if ix.data.subrange(0, 8) == REPAY_DISCRIMINATOR@ {
            assert forall|j: int| 0 <= j < 8 implies ix.data[j] == REPAY_DISCRIMINATOR[j] by {
                assert(ix.data.subrange(0, 8)[j] == ix.data[j]);
            }
        }
    }
}

/// A borrow is granted exactly when this is the transaction's first
/// instruction (the sysvar's last two bytes, little-endian, are 0), the last
/// instruction (at the count in the first two bytes, less one) can be read and
/// is a repay of this program naming the borrower's and the protocol's token
/// accounts, and the amount is positive.
pub proof fn lemma_borrow_granted(ctx: Borrow, borrow_amount: u64)
    ensures
        (spec_borrow_check(ctx, borrow_amount) == Some(Ok::<(), ProtocolError>(()))) <==> {
            let data = ctx.instructions@;
            &&& spec_u16_from_le_bytes(data.subrange(data.len() - 2, data.len() as int)) == 0
            &&& (sysvar_instruction_at(data, spec_u16_from_le_bytes(data.subrange(0, 2)) - 1) matches Some(ix)
                && ix.program_id == ctx.program_id
                && ix.data.len() >= 8
                && (forall|j: int| 0 <= j < 8 ==> ix.data[j] == REPAY_DISCRIMINATOR[j])
                && ix.accounts.len() > 4
                && ix.accounts[3].pubkey == ctx.borrower_ata
                && ix.accounts[4].pubkey == ctx.protocol_ata)
            &&& borrow_amount > 0
        },
{
    let data = ctx.instructions@;
    if let Some(ix) = sysvar_instruction_at(data, spec_num_instructions(data) - 1) {
        lemma_repay_check_accepts(ix, ctx);
    }
}

/// What a borrow returns: nothing where the decision is that the program
/// panics, the refusal as decided, and for a granted loan one transfer of
/// exactly the amount from the protocol's token account to the borrower's,
/// authorised by the protocol's address and signed with the seeds `"protocol"`
/// and the bump.
pub proof fn lemma_borrow_outcome(
    r: Option<Result<Transfer, ProtocolError>>,
    d: Option<Result<(), ProtocolError>>,
    ctx: Borrow,
    amount: u64,
    bump: u8,
)
    requires
        is_borrow_outcome(r, d, ctx, amount, bump),
    ensures
        d is None ==> r is None,
        d matches Some(Err(e)) ==> r == Some(Err::<Transfer, ProtocolError>(e)),
        d == Some(Ok::<(), ProtocolError>(())) ==> (r matches Some(Ok(t))
            && t.from == ctx.protocol_ata
            && t.to == ctx.borrower_ata
            && t.authority == ctx.protocol
            && t.amount == amount
            && t.signer_seeds@.len() == 2
            && t.signer_seeds@[0]@ == seq![112u8, 114u8, 111u8, 116u8, 111u8, 99u8, 111u8, 108u8]
            && t.signer_seeds@[1]@ == seq![bump]),
{
    if d == Some(Ok::<(), ProtocolError>(())) {
        let t = r->Some_0->Ok_0;
        assert(is_loan_payout(t, ctx, amount, bump));
        assert(seeds_view(t.signer_seeds) == protocol_signer_seeds(bump));
        assert(seeds_view(t.signer_seeds).len() == t.signer_seeds@.len());
        assert(seeds_view(t.signer_seeds)[0] == t.signer_seeds@[0]@);
        assert(seeds_view(t.signer_seeds)[1] == t.signer_seeds@[1]@);
        assert(PROTOCOL_SEED@ =~= seq![112u8, 114u8, 111u8, 116u8, 111u8, 99u8, 111u8, 108u8]);
    }
}

/// The refusals of the repay check, in the order the checks are made: another
/// program gives `InvalidProgram`; then data shorter than 8 bytes, the panic
/// (`None`); then a first 8 bytes other than repay's discriminator,
/// `InvalidIx`; then a missing or other fourth account, `InvalidBorrowerAta`;
/// then a missing or other fifth account, `InvalidProtocolAta`.
pub proof fn lemma_repay_check_refusals(ix: InstructionView, ctx: Borrow)
    ensures
        ix.program_id == ctx.program_id && ix.data.len() < 8 ==> spec_repay_ix_check(ix, ctx) is None,
        ix.program_id == ctx.program_id && ix.data.len() >= 8 && (exists|j: int|
            0 <= j < 8 && ix.data[j] != REPAY_DISCRIMINATOR[j]) ==> spec_repay_ix_check(ix, ctx) == Some(
            Err::<(), ProtocolError>(ProtocolError::InvalidIx),
        ),
        ix.program_id == ctx.program_id && ix.data.len() >= 8 && (forall|j: int|
            0 <= j < 8 ==> ix.data[j] == REPAY_DISCRIMINATOR[j]) && (ix.accounts.len() <= 3
            || ix.accounts[3].pubkey != ctx.borrower_ata) ==> spec_repay_ix_check(ix, ctx) == Some(
            Err::<(), ProtocolError>(ProtocolError::InvalidBorrowerAta),
        ),
        ix.program_id == ctx.program_id && ix.data.len() >= 8 && (forall|j: int|
            0 <= j < 8 ==> ix.data[j] == REPAY_DISCRIMINATOR[j]) && ix.accounts.len() > 3
            && ix.accounts[3].pubkey == ctx.borrower_ata && (ix.accounts.len() <= 4
            || ix.accounts[4].pubkey != ctx.protocol_ata) ==> spec_repay_ix_check(ix, ctx) == Some(
            Err::<(), ProtocolError>(ProtocolError::InvalidProtocolAta),
        ),
{
    if ix.data.len() >= 8 {
        if exists|j: int| 0 <= j < 8 && ix.data[j] != REPAY_DISCRIMINATOR[j] {
            let j = choose|j: int| 0 <= j < 8 && ix.data[j] != REPAY_DISCRIMINATOR[j];
            assert(ix.data.subrange(0, 8)[j] != REPAY_DISCRIMINATOR@[j]);
        }
        if forall|j: int| 0 <= j < 8 ==> ix.data[j] == REPAY_DISCRIMINATOR[j] {
            assert(ix.data.subrange(0, 8) =~= REPAY_DISCRIMINATOR@);
        }
    }
}

/// The refusals of a borrow: `InvalidIx` when it is not the transaction's
/// first instruction (the sysvar's last two bytes, little-endian, are not 0);
/// `MissingRepayIx` when the last instruction cannot be read; the repay
/// check's refusal or panic when that instruction fails it; `InvalidAmount`
/// for a zero amount once the check passes.
pub proof fn lemma_borrow_refusals(ctx: Borrow, borrow_amount: u64)
    ensures
        ({
            let data = ctx.instructions@;
            spec_u16_from_le_bytes(data.subrange(data.len() - 2, data.len() as int)) != 0
        }) ==> spec_borrow_check(ctx, borrow_amount) == Some(Err::<(), ProtocolError>(ProtocolError::InvalidIx)),
        ({
            let data = ctx.instructions@;
            &&& spec_u16_from_le_bytes(data.subrange(data.len() - 2, data.len() as int)) == 0
            &&& sysvar_instruction_at(data, spec_u16_from_le_bytes(data.subrange(0, 2)) - 1) is None
        }) ==> spec_borrow_check(ctx, borrow_amount) == Some(Err::<(), ProtocolError>(ProtocolError::MissingRepayIx)),
        ({
            let data = ctx.instructions@;
            &&& spec_u16_from_le_bytes(data.subrange(data.len() - 2, data.len() as int)) == 0
            &&& sysvar_instruction_at(data, spec_u16_from_le_bytes(data.subrange(0, 2)) - 1) is Some
        }) ==> {
            let data = ctx.instructions@;
            let ix = sysvar_instruction_at(data, spec_u16_from_le_bytes(data.subrange(0, 2)) - 1)->Some_0;
            &&& spec_repay_ix_check(ix, ctx) != Some(Ok::<(), ProtocolError>(())) ==> spec_borrow_check(
                ctx,
                borrow_amount,
            ) == spec_repay_ix_check(ix, ctx)
            &&& spec_repay_ix_check(ix, ctx) == Some(Ok::<(), ProtocolError>(())) && borrow_amount == 0
                ==> spec_borrow_check(ctx, borrow_amount) == Some(
                Err::<(), ProtocolError>(ProtocolError::InvalidAmount),
            )
        },
{
}

} // verus!
