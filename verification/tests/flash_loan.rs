use blueshift_anchor::flash_loan::borrow::{self, check_repay_instruction, Borrow, PROTOCOL_SEED, REPAY_DISCRIMINATOR};
use blueshift_anchor::flash_loan::error::ProtocolError;
use blueshift_anchor::flash_loan::repay::{self, repay_amount, Repay};
use blueshift_anchor::pubkey::Pubkey;
use blueshift_anchor::sysvar::{AccountMeta, Instruction};

fn key(b: u8) -> Pubkey {
    Pubkey::new([b; 32])
}

struct Ix {
    program_id: Pubkey,
    accounts: Vec<Pubkey>,
    data: Vec<u8>,
}

/// Instructions sysvar data: instruction count, offset table, each
/// instruction (accounts, program id, data), then the current index.
fn sysvar_data(ixs: &[Ix], current: u16) -> Vec<u8> {
    let mut out = Vec::new();
    out.extend_from_slice(&(ixs.len() as u16).to_le_bytes());
    for _ in ixs {
        out.extend_from_slice(&[0, 0]);
    }
    for (i, ix) in ixs.iter().enumerate() {
        let start = out.len() as u16;
        out[2 + 2 * i..4 + 2 * i].copy_from_slice(&start.to_le_bytes());
        out.extend_from_slice(&(ix.accounts.len() as u16).to_le_bytes());
        for a in &ix.accounts {
            out.push(0);
            out.extend_from_slice(&a.bytes);
        }
        out.extend_from_slice(&ix.program_id.bytes);
        out.extend_from_slice(&(ix.data.len() as u16).to_le_bytes());
        out.extend_from_slice(&ix.data);
    }
    out.extend_from_slice(&current.to_le_bytes());
    out
}

const PROGRAM: u8 = 7;
const BORROWER: u8 = 1;
const PROTOCOL: u8 = 2;
const MINT: u8 = 3;
const BORROWER_ATA: u8 = 4;
const PROTOCOL_ATA: u8 = 5;

fn borrow_ctx(instructions: Vec<u8>) -> Borrow {
    Borrow {
        borrower: key(BORROWER),
        protocol: key(PROTOCOL),
        borrower_ata: key(BORROWER_ATA),
        protocol_ata: key(PROTOCOL_ATA),
        instructions,
        program_id: key(PROGRAM),
        protocol_bump: 254,
    }
}

fn repay_ctx(instructions: Vec<u8>) -> Repay {
    Repay { borrower: key(BORROWER), borrower_ata: key(BORROWER_ATA), protocol_ata: key(PROTOCOL_ATA), instructions }
}

fn refund_to_protocol(data: &[u8]) -> Option<Result<blueshift_anchor::cpi::Transfer, ProtocolError>> {
    repay_ctx(data.to_vec()).refund_to_protocol()
}

fn borrow_data(amount: u64) -> Vec<u8> {
    let mut d = vec![0u8];
    d.extend_from_slice(&amount.to_le_bytes());
    d
}

fn borrow_ix(data: Vec<u8>) -> Ix {
    Ix { program_id: key(PROGRAM), accounts: vec![key(BORROWER), key(PROTOCOL), key(MINT), key(BORROWER_ATA), key(PROTOCOL_ATA)], data }
}

fn repay_ix() -> Ix {
    Ix {
        program_id: key(PROGRAM),
        accounts: vec![key(BORROWER), key(PROTOCOL), key(MINT), key(BORROWER_ATA), key(PROTOCOL_ATA)],
        data: REPAY_DISCRIMINATOR.to_vec(),
    }
}

fn borrow_result(ixs: &[Ix], current: u16, amount: u64) -> Option<Result<u64, ProtocolError>> {
    borrow::handler(&borrow_ctx(sysvar_data(ixs, current)), amount).map(|r| r.map(|t| t.amount))
}

#[test]
fn repay_discriminator_is_anchor_sighash() {
    let h = anchor_lang::solana_program::hash::hash(b"global:repay");
    assert_eq!(&h.to_bytes()[..8], &REPAY_DISCRIMINATOR[..]);
    assert_eq!(&PROTOCOL_SEED[..], b"protocol");
}

#[test]
fn borrow_pays_out_when_repay_closes_the_transaction() {
    let data = sysvar_data(&[borrow_ix(borrow_data(100)), repay_ix()], 0);
    let t = borrow_ctx(data).transfer_from_protocol(100, 254).unwrap().unwrap();
    assert_eq!(t.from.bytes, key(PROTOCOL_ATA).bytes);
    assert_eq!(t.to.bytes, key(BORROWER_ATA).bytes);
    assert_eq!(t.authority.bytes, key(PROTOCOL).bytes);
    assert_eq!(t.amount, 100);
    assert_eq!(t.signer_seeds, vec![b"protocol".to_vec(), vec![254u8]]);
}

#[test]
fn borrow_refused_when_not_first() {
    assert_eq!(borrow_result(&[repay_ix(), borrow_ix(borrow_data(5)), repay_ix()], 1, 5), Some(Err(ProtocolError::InvalidIx)));
}

#[test]
fn borrow_refused_when_last_calls_another_program() {
    let mut last = repay_ix();
    last.program_id = key(9);
    assert_eq!(borrow_result(&[borrow_ix(borrow_data(5)), last], 0, 5), Some(Err(ProtocolError::InvalidProgram)));
}

#[test]
fn borrow_refused_when_last_is_not_repay() {
    // A transaction that holds only the borrow: the last instruction is the borrow itself.
    let only = borrow_ix(vec![0, 5, 0, 0, 0, 0, 0, 0, 0]);
    assert_eq!(borrow_result(&[only], 0, 5), Some(Err(ProtocolError::InvalidIx)));
}

#[test]
fn borrow_refused_on_other_borrower_account() {
    let mut last = repay_ix();
    last.accounts[3] = key(8);
    assert_eq!(borrow_result(&[borrow_ix(borrow_data(5)), last], 0, 5), Some(Err(ProtocolError::InvalidBorrowerAta)));
    let mut short = repay_ix();
    short.accounts.truncate(3);
    assert_eq!(borrow_result(&[borrow_ix(borrow_data(5)), short], 0, 5), Some(Err(ProtocolError::InvalidBorrowerAta)));
}

#[test]
fn borrow_refused_on_other_protocol_account() {
    let mut last = repay_ix();
    last.accounts[4] = key(8);
    assert_eq!(borrow_result(&[borrow_ix(borrow_data(5)), last], 0, 5), Some(Err(ProtocolError::InvalidProtocolAta)));
    let mut short = repay_ix();
    short.accounts.truncate(4);
    assert_eq!(borrow_result(&[borrow_ix(borrow_data(5)), short], 0, 5), Some(Err(ProtocolError::InvalidProtocolAta)));
}

#[test]
fn borrow_refused_for_zero() {
    assert_eq!(borrow_result(&[borrow_ix(borrow_data(0)), repay_ix()], 0, 0), Some(Err(ProtocolError::InvalidAmount)));
}

#[test]
fn borrow_refused_when_repay_cannot_be_read() {
    let mut data = sysvar_data(&[borrow_ix(borrow_data(5)), repay_ix()], 0);
    // Cut the last instruction short; keep the current index at the end.
    let n = data.len();
    data.drain(n - 20..n - 2);
    let r = borrow::handler(&borrow_ctx(data), 5).map(|r| r.map(|t| t.amount));
    assert_eq!(r, Some(Err(ProtocolError::MissingRepayIx)));
}

#[test]
fn borrow_panics_where_repay_data_is_short() {
    let mut last = repay_ix();
    last.data.truncate(7);
    assert_eq!(borrow_result(&[borrow_ix(borrow_data(5)), last], 0, 5), None);
}

#[test]
fn borrow_checks_program_before_data_length() {
    // The last instruction belongs to another program and holds fewer than
    // 8 data bytes: the program check refuses it first.
    let other = Ix { program_id: key(9), accounts: vec![], data: vec![1] };
    assert_eq!(borrow_result(&[borrow_ix(borrow_data(5)), other], 0, 5), Some(Err(ProtocolError::InvalidProgram)));
}

#[test]
fn lend_from_decoded_instruction() {
    let ctx = borrow_ctx(vec![]);
    assert_eq!(ctx.lend(None, 5, 1).map(|r| r.map(|t| t.amount)), Some(Err(ProtocolError::MissingRepayIx)));
    let ix = Instruction {
        program_id: key(PROGRAM),
        accounts: [BORROWER, PROTOCOL, MINT, BORROWER_ATA, PROTOCOL_ATA].iter().map(|b| AccountMeta::new(key(*b), false, true)).collect(),
        data: REPAY_DISCRIMINATOR.to_vec(),
    };
    let t = ctx.lend(Some(ix), 5, 1).unwrap().unwrap();
    assert_eq!(t.amount, 5);
    assert_eq!(t.signer_seeds, vec![b"protocol".to_vec(), vec![1u8]]);
}

#[test]
fn settle_from_decoded_instruction() {
    let ctx = repay_ctx(vec![]);
    assert_eq!(ctx.settle(None).map(|r| r.map(|t| t.amount)), Some(Err(ProtocolError::MissingBorrowIx)));
    let short = Instruction { program_id: key(PROGRAM), accounts: vec![], data: borrow_data(7) };
    assert!(ctx.settle(Some(short)).is_none());
    let mut data = vec![0u8; 8];
    data.extend_from_slice(&40u64.to_le_bytes());
    let ix = Instruction { program_id: key(PROGRAM), accounts: vec![], data };
    assert_eq!(ctx.settle(Some(ix)).unwrap().unwrap().amount, 42);
}

#[test]
fn repay_check_alone() {
    let ix = Instruction {
        program_id: key(PROGRAM),
        accounts: (0..5u8)
            .map(|i| AccountMeta::new(key([BORROWER, PROTOCOL, MINT, BORROWER_ATA, PROTOCOL_ATA][i as usize]), false, false))
            .collect(),
        data: REPAY_DISCRIMINATOR.to_vec(),
    };
    assert_eq!(check_repay_instruction(&ix, &borrow_ctx(vec![])), Some(Ok(())));
    let mut other = borrow_ctx(vec![]);
    other.program_id = key(6);
    assert_eq!(check_repay_instruction(&ix, &other), Some(Err(ProtocolError::InvalidProgram)));
    let short = Instruction { program_id: key(PROGRAM), accounts: vec![], data: vec![1, 2, 3] };
    assert_eq!(check_repay_instruction(&short, &borrow_ctx(vec![])), None);
}

#[test]
fn repay_amount_adds_five_percent() {
    assert_eq!(repay_amount(0), Ok(0));
    assert_eq!(repay_amount(19), Ok(19));
    assert_eq!(repay_amount(20), Ok(21));
    assert_eq!(repay_amount(1_000), Ok(1_050));
    assert_eq!(repay_amount(10_000), Ok(10_500));
    assert_eq!(repay_amount(u64::MAX), Err(ProtocolError::Overflow));
    let largest = u64::MAX / 21 * 20;
    assert_eq!(repay_amount(largest), Ok(largest + largest / 20));
}

#[test]
fn repay_charges_amount_and_fee_from_bytes_8_to_16() {
    let mut first = vec![0u8; 8];
    first.extend_from_slice(&1_000u64.to_le_bytes());
    let data = sysvar_data(&[borrow_ix(first), repay_ix()], 1);
    let t = refund_to_protocol(&data).unwrap().unwrap();
    assert_eq!(t.amount, 1_050);
    assert_eq!(t.from.bytes, key(BORROWER_ATA).bytes);
    assert_eq!(t.to.bytes, key(PROTOCOL_ATA).bytes);
    assert_eq!(t.authority.bytes, key(BORROWER).bytes);
    assert!(t.signer_seeds.is_empty());
}

#[test]
fn repay_panics_on_the_borrow_instructions_own_data() {
    // A borrow's data is its one-byte discriminator and the amount: 9 bytes,
    // shorter than the 16 the repay reads.
    let data = sysvar_data(&[borrow_ix(borrow_data(1_000)), repay_ix()], 1);
    assert!(refund_to_protocol(&data).is_none());
}

#[test]
fn repay_overflow() {
    let mut first = vec![0u8; 8];
    first.extend_from_slice(&u64::MAX.to_le_bytes());
    let data = sysvar_data(&[borrow_ix(first), repay_ix()], 1);
    assert_eq!(refund_to_protocol(&data).map(|r| r.map(|t| t.amount)), Some(Err(ProtocolError::Overflow)));
}

#[test]
fn repay_without_instructions() {
    let data = sysvar_data(&[], 0);
    assert_eq!(refund_to_protocol(&data).map(|r| r.map(|t| t.amount)), Some(Err(ProtocolError::MissingBorrowIx)));
    assert_eq!(repay::handler(&repay_ctx(vec![])).map(|r| r.map(|t| t.amount)), Some(Err(ProtocolError::MissingBorrowIx)));
}
