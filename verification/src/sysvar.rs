//! Instruction introspection: reading the instructions of the running
//! transaction out of the instructions sysvar's account data.

use vstd::prelude::*;
use vstd::bytes::spec_u16_from_le_bytes;
use anchor_lang::solana_program::account_info::AccountInfo;
use anchor_lang::solana_program::pubkey::Pubkey as SolanaPubkey;
use anchor_lang::solana_program::sysvar::instructions::{
    load_current_index_checked, load_instruction_at_checked, ID as INSTRUCTIONS_SYSVAR_ID,
};
use crate::pubkey::Pubkey;

verus! {

/// An account an instruction names, with its signer and writable flags.
#[derive(Clone, Copy, Debug)]
pub struct AccountMeta {
    pub pubkey: Pubkey,
    pub is_signer: bool,
    pub is_writable: bool,
}

impl AccountMeta {
    pub fn new(pubkey: Pubkey, is_signer: bool, is_writable: bool) -> (r: AccountMeta)
        ensures
            r == (AccountMeta { pubkey, is_signer, is_writable }),
    {
        AccountMeta { pubkey, is_signer, is_writable }
    }
}

/// An instruction of the transaction: the program it calls, the accounts it
/// passes and its data.
#[derive(Debug)]
pub struct Instruction {
    pub program_id: Pubkey,
    pub accounts: Vec<AccountMeta>,
    pub data: Vec<u8>,
}

/// An instruction as a value.
pub struct InstructionView {
    pub program_id: Pubkey,
    pub accounts: Seq<AccountMeta>,
    pub data: Seq<u8>,
}

impl View for Instruction {
    type V = InstructionView;

    open spec fn view(&self) -> InstructionView {
        InstructionView { program_id: self.program_id, accounts: self.accounts@, data: self.data@ }
    }
}

/// The view of an optional instruction.
pub open spec fn opt_instruction_view(ix: Option<Instruction>) -> Option<InstructionView> {
    match ix {
        Some(ix) => Some(ix@),
        None => None,
    }
}

/// The instruction at `index` that the sysvar data `data` holds, or `None`
/// where the data holds none there.
pub uninterp spec fn sysvar_instruction_at(data: Seq<u8>, index: int) -> Option<InstructionView>;

/// The index of the running instruction: the last two bytes of the sysvar data,
/// little-endian.
pub open spec fn spec_current_index(data: Seq<u8>) -> u16 {
    spec_u16_from_le_bytes(data.subrange(data.len() - 2, data.len() as int))
}

/// The number of instructions: the first two bytes of the sysvar data,
/// little-endian.
pub open spec fn spec_num_instructions(data: Seq<u8>) -> u16 {
    spec_u16_from_le_bytes(data.subrange(0, 2))
}

/// Calls `sysvar::instructions::load_current_index_checked` on an account that
/// holds `data` at the instructions sysvar's address. The contract states what
/// the function's source does there: the address check passes, borrowing the
/// fresh data succeeds, and it reads the last two bytes, little-endian (it
/// would panic on fewer than two bytes, which `requires` leaves out).
#[verifier::external_body]
pub(crate) fn load_current_index(data: &[u8]) -> (r: Option<u16>)
    requires
        data@.len() >= 2,
    ensures
        r == Some(spec_current_index(data@)),
{
    let (key, owner) = (INSTRUCTIONS_SYSVAR_ID, SolanaPubkey::default());
    let (mut lamports, mut bytes) = (0u64, data.to_vec());
    let info = AccountInfo::new(&key, false, false, &mut lamports, &mut bytes, &owner, false, 0);
    load_current_index_checked(&info).ok()
}

/// Calls `sysvar::instructions::load_instruction_at_checked` on an account that
/// holds `data` at the instructions sysvar's address, turning the solana
/// instruction into the library's and any error into `None`. What it decodes
/// (the offset table, the accounts with their flags, the program id and the
/// data) is named, not stated; stated is only what its source shows plainly:
/// an index at or past the instruction count (or data too short to hold the
/// count) yields no instruction.
#[verifier::external_body]
pub(crate) fn load_instruction_at(index: usize, data: &[u8]) -> (r: Option<Instruction>)
    ensures
        opt_instruction_view(r) == sysvar_instruction_at(data@, index as int),
        data@.len() < 2 || index >= spec_num_instructions(data@) ==> r is None,
{
    let (key, owner) = (INSTRUCTIONS_SYSVAR_ID, SolanaPubkey::default());
    let (mut lamports, mut bytes) = (0u64, data.to_vec());
    let info = AccountInfo::new(&key, false, false, &mut lamports, &mut bytes, &owner, false, 0);
    load_instruction_at_checked(index, &info).ok().map(|ix| Instruction {
        program_id: Pubkey::new(ix.program_id.to_bytes()),
        accounts: ix.accounts.iter().map(|m| AccountMeta::new(Pubkey::new(m.pubkey.to_bytes()), m.is_signer, m.is_writable)).collect(),
        data: ix.data,
    })
}

} // verus!
