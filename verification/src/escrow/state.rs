//! The escrow account: the terms a maker offers, kept on chain.

use vstd::prelude::*;
use vstd::bytes::{spec_u64_from_le_bytes, spec_u64_to_le_bytes, lemma_auto_spec_u64_to_from_le_bytes};
use crate::account::{
    ESCROW_DISCRIMINATOR, AccountError, push_escrow_discriminator, push_pubkey, push_u64_le, read_pubkey,
    read_u64_le, starts_with_escrow_discriminator,
};
use crate::pubkey::Pubkey;

verus! {

/// Bytes taken by the fields: seed, three addresses, amount and bump.
pub const ESCROW_INIT_SPACE: usize = 113usize;

/// Bytes of a whole escrow account: the 4-byte discriminator and the fields.
pub const ESCROW_SPACE: usize = 117usize;

/// The exchange terms: the maker deposits `mint_a` tokens and wants `receive`
/// tokens of `mint_b` in return.
#[derive(Clone, Copy, Debug)]
pub struct Escrow {
    /// Chosen by the maker; part of the escrow's address seeds.
    pub seed: u64,
    /// The user who set the terms and deposited the `mint_a` tokens.
    pub maker: Pubkey,
    /// The token the maker deposits.
    pub mint_a: Pubkey,
    /// The token the maker wants in exchange.
    pub mint_b: Pubkey,
    /// How many `mint_b` tokens the maker wants.
    pub receive: u64,
    /// The bump of the escrow's program address.
    pub bump: u8,
}

impl Escrow {
    /// The account bytes of this escrow: the discriminator, then the fields in
    /// order, integers little-endian.
    pub open spec fn spec_bytes(self) -> Seq<u8> {
        ESCROW_DISCRIMINATOR@ + spec_u64_to_le_bytes(self.seed) + self.maker@ + self.mint_a@
            + self.mint_b@ + spec_u64_to_le_bytes(self.receive) + seq![self.bump]
    }

    /// Why `buf` cannot be read as an escrow, if it cannot.
    pub open spec fn spec_read_error(buf: Seq<u8>) -> Option<AccountError> {
        if buf.len() < 4 {
            Some(AccountError::DiscriminatorNotFound)
        } else if buf.subrange(0, 4) != ESCROW_DISCRIMINATOR@ {
            Some(AccountError::DiscriminatorMismatch)
        } else if buf.len() < ESCROW_SPACE {
            Some(AccountError::DidNotDeserialize)
        } else {
            None
        }
    }

    /// The fields after the discriminator are those of this escrow (bytes past
    /// the account's size are ignored; the discriminator is not looked at).
    pub open spec fn fields_read_from(self, buf: Seq<u8>) -> bool {
        &&& buf.len() >= ESCROW_SPACE
        &&& self.seed == spec_u64_from_le_bytes(buf.subrange(4, 12))
        &&& self.maker@ == buf.subrange(12, 44)
        &&& self.mint_a@ == buf.subrange(44, 76)
        &&& self.mint_b@ == buf.subrange(76, 108)
        &&& self.receive == spec_u64_from_le_bytes(buf.subrange(108, 116))
        &&& self.bump == buf[116]
    }

    /// This escrow is what `buf` holds: the discriminator and its fields.
    pub open spec fn is_read_from(self, buf: Seq<u8>) -> bool {
        &&& self.fields_read_from(buf)
        &&& buf.subrange(0, 4) == ESCROW_DISCRIMINATOR@
    }

    /// Writes the escrow as account bytes.
    pub fn try_serialize(&self) -> (r: Vec<u8>)
        ensures
            r@ == self.spec_bytes(),
            r@.len() == ESCROW_SPACE,
            ESCROW_SPACE == ESCROW_INIT_SPACE + ESCROW_DISCRIMINATOR@.len(),
    {
        proof {
            lemma_auto_spec_u64_to_from_le_bytes();
        }
        let mut out: Vec<u8> = Vec::new();
        push_escrow_discriminator(&mut out);
        push_u64_le(&mut out, self.seed);
        push_pubkey(&mut out, &self.maker);
        push_pubkey(&mut out, &self.mint_a);
        push_pubkey(&mut out, &self.mint_b);
        push_u64_le(&mut out, self.receive);
        out.push(self.bump);
        out
    }

    /// Reads an escrow back from account bytes, checking the discriminator.
    pub fn try_deserialize(buf: &[u8]) -> (r: Result<Escrow, AccountError>)
        ensures
            match r {
                Ok(e) => Self::spec_read_error(buf@) is None && e.is_read_from(buf@),
                Err(err) => Self::spec_read_error(buf@) == Some(err),
            },
    {
        let n = buf.len();
        if n < 4 {
            return Err(AccountError::DiscriminatorNotFound);
        }
        if !starts_with_escrow_discriminator(buf) {
            return Err(AccountError::DiscriminatorMismatch);
        }
        Self::try_deserialize_unchecked(buf)
    }

    /// Reads the fields after the discriminator without looking at it (the
    /// read of an account just created, still zeroed). Slicing off the
    /// discriminator panics on fewer than 4 bytes; `requires` leaves that out.
    pub fn try_deserialize_unchecked(buf: &[u8]) -> (r: Result<Escrow, AccountError>)
        requires
            buf@.len() >= 4,
        ensures
            match r {
                Ok(e) => e.fields_read_from(buf@),
                Err(err) => err == AccountError::DidNotDeserialize && buf@.len() < ESCROW_SPACE,
            },
    {
        if buf.len() < ESCROW_SPACE {
            return Err(AccountError::DidNotDeserialize);
        }
        Ok(Escrow {
            seed: read_u64_le(buf, 4),
            maker: read_pubkey(buf, 12),
            mint_a: read_pubkey(buf, 44),
            mint_b: read_pubkey(buf, 76),
            receive: read_u64_le(buf, 108),
            bump: buf[116],
        })
    }
}

/// Reading back what `try_serialize` wrote gives the same escrow, and nothing
/// else can be read from those bytes.
pub proof fn lemma_escrow_bytes_round_trip(e: Escrow)
    ensures
        Escrow::spec_read_error(e.spec_bytes()) is None,
        e.is_read_from(e.spec_bytes()),
        forall|e2: Escrow| #[trigger] e2.fields_read_from(e.spec_bytes()) ==> e2 == e,
{
    lemma_auto_spec_u64_to_from_le_bytes();
    let b = e.spec_bytes();
    assert(b.subrange(0, 4) =~= ESCROW_DISCRIMINATOR@);
    assert(b.subrange(4, 12) =~= spec_u64_to_le_bytes(e.seed));
    assert(b.subrange(12, 44) =~= e.maker@);
    assert(b.subrange(44, 76) =~= e.mint_a@);
    assert(b.subrange(76, 108) =~= e.mint_b@);
    assert(b.subrange(108, 116) =~= spec_u64_to_le_bytes(e.receive));
    assert forall|e2: Escrow| #[trigger] e2.fields_read_from(b) implies e2 == e by {
        broadcast use vstd::array::axiom_array_ext_equal;

        assert(e2.maker.bytes =~= e.maker.bytes);
        assert(e2.mint_a.bytes =~= e.mint_a.bytes);
        assert(e2.mint_b.bytes =~= e.mint_b.bytes);
    }
}

/// The escrow's account bytes, field by field: 117 bytes; the discriminator
/// `[1, 0, 0, 0]`; the seed's little-endian bytes at 4..12; the maker's,
/// the deposited mint's and the wanted mint's address bytes, in order, at
/// 12..44, 44..76 and 76..108; the wanted amount's little-endian bytes at
/// 108..116; the bump at 116.
pub proof fn lemma_escrow_layout(e: Escrow)
    ensures
        e.spec_bytes().len() == 117,
        e.spec_bytes()[0] == 1u8,
        e.spec_bytes()[1] == 0u8,
        e.spec_bytes()[2] == 0u8,
        e.spec_bytes()[3] == 0u8,
        e.spec_bytes().subrange(4, 12) == spec_u64_to_le_bytes(e.seed),
        forall|i: int| 0 <= i < 32 ==> #[trigger] e.spec_bytes()[12 + i] == e.maker.bytes[i],
        forall|i: int| 0 <= i < 32 ==> #[trigger] e.spec_bytes()[44 + i] == e.mint_a.bytes[i],
        forall|i: int| 0 <= i < 32 ==> #[trigger] e.spec_bytes()[76 + i] == e.mint_b.bytes[i],
        e.spec_bytes().subrange(108, 116) == spec_u64_to_le_bytes(e.receive),
        e.spec_bytes()[116] == e.bump,
{
    lemma_auto_spec_u64_to_from_le_bytes();
    let b = e.spec_bytes();
    assert(b.subrange(4, 12) =~= spec_u64_to_le_bytes(e.seed));
    assert(b.subrange(108, 116) =~= spec_u64_to_le_bytes(e.receive));
}

/// Reading an escrow takes each field from its place in the bytes: the seed
/// from 4..12 and the wanted amount from 108..116 (little-endian), the
/// addresses' bytes, in order, from 12..44, 44..76 and 76..108, the bump from
/// 116; a read that checks the discriminator also finds `[1, 0, 0, 0]` first.
pub proof fn lemma_escrow_read(e: Escrow, buf: Seq<u8>)
    requires
        e.fields_read_from(buf),
    ensures
        buf.len() >= 117,
        e.seed == spec_u64_from_le_bytes(buf.subrange(4, 12)),
        forall|i: int| 0 <= i < 32 ==> #[trigger] e.maker.bytes[i] == buf[12 + i],
        forall|i: int| 0 <= i < 32 ==> #[trigger] e.mint_a.bytes[i] == buf[44 + i],
        forall|i: int| 0 <= i < 32 ==> #[trigger] e.mint_b.bytes[i] == buf[76 + i],
        e.receive == spec_u64_from_le_bytes(buf.subrange(108, 116)),
        e.bump == buf[116],
        e.is_read_from(buf) ==> buf[0] == 1u8 && buf[1] == 0u8 && buf[2] == 0u8 && buf[3] == 0u8,
{
    assert forall|i: int| 0 <= i < 32 implies #[trigger] e.maker.bytes[i] == buf[12 + i] by {
        assert(e.maker@[i] == buf.subrange(12, 44)[i]);
    }
    assert forall|i: int| 0 <= i < 32 implies #[trigger] e.mint_a.bytes[i] == buf[44 + i] by {
        assert(e.mint_a@[i] == buf.subrange(44, 76)[i]);
    }
    assert forall|i: int| 0 <= i < 32 implies #[trigger] e.mint_b.bytes[i] == buf[76 + i] by {
        assert(e.mint_b@[i] == buf.subrange(76, 108)[i]);
    }
    if e.is_read_from(buf) {
        assert(buf.subrange(0, 4)[0] == ESCROW_DISCRIMINATOR@[0]);
        assert(buf.subrange(0, 4)[1] == ESCROW_DISCRIMINATOR@[1]);
        assert(buf.subrange(0, 4)[2] == ESCROW_DISCRIMINATOR@[2]);
        assert(buf.subrange(0, 4)[3] == ESCROW_DISCRIMINATOR@[3]);
    }
}

/// Bytes are refused as an escrow exactly when they are fewer than 117 or do
/// not start with `[1, 0, 0, 0]`.
pub proof fn lemma_escrow_read_accepts(buf: Seq<u8>)
    ensures
        Escrow::spec_read_error(buf) is None <==> (buf.len() >= 117 && buf[0] == 1u8 && buf[1] == 0u8
            && buf[2] == 0u8 && buf[3] == 0u8),
{
    if buf.len() >= 4 && buf[0] == 1u8 && buf[1] == 0u8 && buf[2] == 0u8 && buf[3] == 0u8 {
        assert(buf.subrange(0, 4) =~= ESCROW_DISCRIMINATOR@);
    }
    if buf.len() >= 4 && buf.subrange(0, 4) == ESCROW_DISCRIMINATOR@ {
        assert(buf.subrange(0, 4)[0] == buf[0]);
        assert(buf.subrange(0, 4)[1] == buf[1]);
        assert(buf.subrange(0, 4)[2] == buf[2]);
        assert(buf.subrange(0, 4)[3] == buf[3]);
    }
}

} // verus!
