//! Byte layout of program-owned accounts: a discriminator followed by the
//! fields in declaration order (integers little-endian, addresses as their 32
//! bytes). The programs store their accounts through these encoders.

use vstd::prelude::*;
use vstd::bytes::{spec_u64_from_le_bytes, spec_u64_to_le_bytes, u64_from_le_bytes, u64_to_le_bytes};
use vstd::slice::slice_subrange;
use crate::pubkey::Pubkey;

verus! {

/// Why the bytes of an account could not be read back as a value.
#[derive(Clone, Copy, Debug, PartialEq, Eq, Structural)]
pub enum AccountError {
    /// The data is shorter than the discriminator.
    DiscriminatorNotFound,
    /// The data does not start with the type's discriminator.
    DiscriminatorMismatch,
    /// The fields after the discriminator are cut short.
    DidNotDeserialize,
}

/// The discriminator an escrow account starts with: `[0x01, 0x00, 0x00, 0x00]`.
pub const ESCROW_DISCRIMINATOR: [u8; 4] = [1u8, 0u8, 0u8, 0u8];

/// Whether `buf` starts with the escrow discriminator.
pub fn starts_with_escrow_discriminator(buf: &[u8]) -> (r: bool)
    requires
        buf@.len() >= 4,
    ensures
        r == (buf@.subrange(0, 4) == ESCROW_DISCRIMINATOR@),
{
    let mut i: usize = 0;
    while i < 4
        invariant
            i <= 4,
            buf@.len() >= 4,
            forall|j: int| 0 <= j < i ==> buf@[j] == ESCROW_DISCRIMINATOR@[j],
        decreases 4 - i,
    {
        if buf[i] != ESCROW_DISCRIMINATOR[i] {
            assert(buf@.subrange(0, 4)[i as int] != ESCROW_DISCRIMINATOR@[i as int]);
            return false;
        }
        i = i + 1;
    }
    assert(buf@.subrange(0, 4) =~= ESCROW_DISCRIMINATOR@);
    true
}

/// Appends the escrow discriminator.
pub fn push_escrow_discriminator(out: &mut Vec<u8>)
    ensures
        final(out)@ == old(out)@ + ESCROW_DISCRIMINATOR@,
{
    let mut i: usize = 0;
    while i < 4
        invariant
            i <= 4,
            out@ == old(out)@ + ESCROW_DISCRIMINATOR@.take(i as int),
        decreases 4 - i,
    {
        out.push(ESCROW_DISCRIMINATOR[i]);
        assert(out@ =~= old(out)@ + ESCROW_DISCRIMINATOR@.take(i + 1));
        i = i + 1;
    }
    assert(ESCROW_DISCRIMINATOR@.take(4) =~= ESCROW_DISCRIMINATOR@);
}

/// Reads the 32-byte address that starts at `off`.
pub fn read_pubkey(buf: &[u8], off: usize) -> (r: Pubkey)
    requires
        off + 32 <= buf@.len(),
    ensures
        r@ == buf@.subrange(off as int, off + 32),
{
    let n = buf.len();
    let mut bytes: [u8; 32] = [0u8; 32];
    let mut i: usize = 0;
    while i < 32
        invariant
            i <= 32,
            off + 32 <= n,
            n == buf@.len(),
            forall|j: int| 0 <= j < i ==> bytes[j] == buf@[off + j],
        decreases 32 - i,
    {
        bytes[i] = buf[off + i];
        i = i + 1;
    }
    let r = Pubkey::new(bytes);
    assert(r@ =~= buf@.subrange(off as int, off + 32));
    r
}

/// Reads the little-endian `u64` that starts at `off`.
pub fn read_u64_le(buf: &[u8], off: usize) -> (r: u64)
    requires
        off + 8 <= buf@.len(),
    ensures
        r == spec_u64_from_le_bytes(buf@.subrange(off as int, off + 8)),
{
    let n = buf.len();
    assert(off + 8 <= n);
    u64_from_le_bytes(slice_subrange(buf, off, off + 8))
}

/// Appends the little-endian bytes of `x`.
pub fn push_u64_le(out: &mut Vec<u8>, x: u64)
    ensures
        final(out)@ == old(out)@ + spec_u64_to_le_bytes(x),
{
    let mut bytes = u64_to_le_bytes(x);
    out.append(&mut bytes);
}

/// Appends the bytes of an address.
pub fn push_pubkey(out: &mut Vec<u8>, k: &Pubkey)
    ensures
        final(out)@ == old(out)@ + k@,
{
    let mut bytes = k.to_vec();
    out.append(&mut bytes);
}

} // verus!
