//! The loan account of the flash-loan program.

use vstd::prelude::*;
use crate::account::{AccountError, push_pubkey, read_pubkey};
use crate::pubkey::Pubkey;

verus! {

/// The first byte of every loan account (`#[account(discriminator = 1)]`).
pub const LOAN_STATE_DISCRIMINATOR: u8 = 1u8;

/// Bytes taken by the fields: three addresses and a bump.
pub const LOAN_STATE_INIT_SPACE: usize = 97usize;

/// Bytes of a whole loan account: the one-byte discriminator and the fields.
pub const LOAN_STATE_SPACE: usize = 98usize;

/// A loan between a borrower and the protocol, in one token.
#[derive(Clone, Copy, Debug)]
pub struct LoanState {
    pub borrower: Pubkey,
    pub protocol: Pubkey,
    pub mint: Pubkey,
    pub bump: u8,
}

impl LoanState {
    /// The account bytes of this loan: the discriminator, then the fields.
    pub open spec fn spec_bytes(self) -> Seq<u8> {
        seq![LOAN_STATE_DISCRIMINATOR] + self.borrower@ + self.protocol@ + self.mint@ + seq![self.bump]
    }

    /// Why `buf` cannot be read as a loan, if it cannot.
    pub open spec fn spec_read_error(buf: Seq<u8>) -> Option<AccountError> {
        if buf.len() < 1 {
            Some(AccountError::DiscriminatorNotFound)
        } else if buf[0] != LOAN_STATE_DISCRIMINATOR {
            Some(AccountError::DiscriminatorMismatch)
        } else if buf.len() < LOAN_STATE_SPACE {
            Some(AccountError::DidNotDeserialize)
        } else {
            None
        }
    }

    /// The fields after the discriminator are those of this loan (bytes past
    /// the account's size are ignored; the discriminator is not looked at).
    pub open spec fn fields_read_from(self, buf: Seq<u8>) -> bool {
        &&& buf.len() >= LOAN_STATE_SPACE
        &&& self.borrower@ == buf.subrange(1, 33)
        &&& self.protocol@ == buf.subrange(33, 65)
        &&& self.mint@ == buf.subrange(65, 97)
        &&& self.bump == buf[97]
    }

    /// This loan is what `buf` holds: the discriminator and its fields.
    pub open spec fn is_read_from(self, buf: Seq<u8>) -> bool {
        &&& self.fields_read_from(buf)
        &&& buf[0] == LOAN_STATE_DISCRIMINATOR
    }

    /// Writes the loan as account bytes.
    pub fn try_serialize(&self) -> (r: Vec<u8>)
        ensures
            r@ == self.spec_bytes(),
            r@.len() == LOAN_STATE_SPACE,
            LOAN_STATE_SPACE == LOAN_STATE_INIT_SPACE + 1,
    {
        let mut out: Vec<u8> = Vec::new();
        out.push(LOAN_STATE_DISCRIMINATOR);
        push_pubkey(&mut out, &self.borrower);
        push_pubkey(&mut out, &self.protocol);
        push_pubkey(&mut out, &self.mint);
        out.push(self.bump);
        out
    }

    /// Reads a loan back from account bytes, checking the discriminator.
    pub fn try_deserialize(buf: &[u8]) -> (r: Result<LoanState, AccountError>)
        ensures
            match r {
                Ok(s) => Self::spec_read_error(buf@) is None && s.is_read_from(buf@),
                Err(err) => Self::spec_read_error(buf@) == Some(err),
            },
    {
        let n = buf.len();
        if n < 1 {
            return Err(AccountError::DiscriminatorNotFound);
        }
        if buf[0] != LOAN_STATE_DISCRIMINATOR {
            return Err(AccountError::DiscriminatorMismatch);
        }
        Self::try_deserialize_unchecked(buf)
    }

    /// Reads the fields after the discriminator without looking at it.
    /// Slicing off the discriminator panics on empty data; `requires` leaves
    /// that out.
    pub fn try_deserialize_unchecked(buf: &[u8]) -> (r: Result<LoanState, AccountError>)
        requires
            buf@.len() >= 1,
        ensures
            match r {
                Ok(s) => s.fields_read_from(buf@),
                Err(err) => err == AccountError::DidNotDeserialize && buf@.len() < LOAN_STATE_SPACE,
            },
    {
        if buf.len() < LOAN_STATE_SPACE {
            return Err(AccountError::DidNotDeserialize);
        }
        Ok(LoanState {
            borrower: read_pubkey(buf, 1),
            protocol: read_pubkey(buf, 33),
            mint: read_pubkey(buf, 65),
            bump: buf[97],
        })
    }
}

/// Reading back what `try_serialize` wrote gives the same loan, and nothing
/// else can be read from those bytes.
pub proof fn lemma_loan_state_bytes_round_trip(s: LoanState)
    ensures
        LoanState::spec_read_error(s.spec_bytes()) is None,
        s.is_read_from(s.spec_bytes()),
        forall|s2: LoanState| #[trigger] s2.fields_read_from(s.spec_bytes()) ==> s2 == s,
{
    let b = s.spec_bytes();
    assert(b.subrange(1, 33) =~= s.borrower@);
    assert(b.subrange(33, 65) =~= s.protocol@);
    assert(b.subrange(65, 97) =~= s.mint@);
    assert forall|s2: LoanState| #[trigger] s2.fields_read_from(b) implies s2 == s by {
        broadcast use vstd::array::axiom_array_ext_equal;

        assert(s2.borrower.bytes =~= s.borrower.bytes);
        assert(s2.protocol.bytes =~= s.protocol.bytes);
        assert(s2.mint.bytes =~= s.mint.bytes);
    }
}

/// The loan's account bytes, field by field: 98 bytes; the discriminator `1`;
/// the borrower's, the protocol's and the mint's address bytes, in order, at
/// 1..33, 33..65 and 65..97; the bump at 97.
pub proof fn lemma_loan_state_layout(s: LoanState)
    ensures
        s.spec_bytes().len() == 98,
        s.spec_bytes()[0] == 1u8,
        forall|i: int| 0 <= i < 32 ==> #[trigger] s.spec_bytes()[1 + i] == s.borrower.bytes[i],
        forall|i: int| 0 <= i < 32 ==> #[trigger] s.spec_bytes()[33 + i] == s.protocol.bytes[i],
        forall|i: int| 0 <= i < 32 ==> #[trigger] s.spec_bytes()[65 + i] == s.mint.bytes[i],
        s.spec_bytes()[97] == s.bump,
{
}

/// Reading a loan takes each field from its place in the bytes; a read that
/// checks the discriminator also finds `1` first. Bytes are refused exactly
/// when they are fewer than 98 or do not start with `1`.
pub proof fn lemma_loan_state_read(s: LoanState, buf: Seq<u8>)
    ensures
        LoanState::spec_read_error(buf) is None <==> (buf.len() >= 98 && buf[0] == 1u8),
        s.fields_read_from(buf) ==> {
            &&& buf.len() >= 98
            &&& forall|i: int| 0 <= i < 32 ==> #[trigger] s.borrower.bytes[i] == buf[1 + i]
            &&& forall|i: int| 0 <= i < 32 ==> #[trigger] s.protocol.bytes[i] == buf[33 + i]
            &&& forall|i: int| 0 <= i < 32 ==> #[trigger] s.mint.bytes[i] == buf[65 + i]
            &&& s.bump == buf[97]
        },
        s.is_read_from(buf) ==> buf[0] == 1u8,
{
    if s.fields_read_from(buf) {
        assert forall|i: int| 0 <= i < 32 implies #[trigger] s.borrower.bytes[i] == buf[1 + i] by {
            assert(s.borrower@[i] == buf.subrange(1, 33)[i]);
        }
        assert forall|i: int| 0 <= i < 32 implies #[trigger] s.protocol.bytes[i] == buf[33 + i] by {
            assert(s.protocol@[i] == buf.subrange(33, 65)[i]);
        }
        assert forall|i: int| 0 <= i < 32 implies #[trigger] s.mint.bytes[i] == buf[65 + i] by {
            assert(s.mint@[i] == buf.subrange(65, 97)[i]);
        }
    }
}

} // verus!
