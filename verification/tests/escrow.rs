use blueshift_anchor::account::{AccountError, ESCROW_DISCRIMINATOR};
use blueshift_anchor::escrow::error::EscrowError;
use blueshift_anchor::escrow::make::{self, Make};
use blueshift_anchor::escrow::state::{Escrow, ESCROW_INIT_SPACE, ESCROW_SPACE};
use blueshift_anchor::escrow::take::{self, Take, ESCROW_SEED};
use blueshift_anchor::flash_loan::state::{LoanState, LOAN_STATE_SPACE};
use blueshift_anchor::pubkey::{keys_eq, Pubkey};

fn key(b: u8) -> Pubkey {
    Pubkey::new([b; 32])
}

fn make_ctx() -> Make {
    Make { maker: key(1), mint_a: key(2), mint_b: key(3), maker_ata_a: key(4), vault: key(5), mint_a_decimals: 6, escrow_bump: 254 }
}

fn sample_escrow(seed: u64) -> Escrow {
    Escrow { seed, maker: key(1), mint_a: key(2), mint_b: key(3), receive: 100, bump: 5 }
}

fn take_ctx(seed: u64) -> Take {
    Take {
        taker: key(10),
        maker: key(1),
        escrow: key(11),
        escrow_state: sample_escrow(seed),
        mint_a: key(2),
        mint_b: key(3),
        vault: key(5),
        taker_ata_a: key(12),
        taker_ata_b: key(13),
        maker_ata_b: key(14),
        vault_amount: 500,
        mint_a_decimals: 6,
        mint_b_decimals: 9,
    }
}

fn same_escrow(a: &Escrow, b: &Escrow) -> bool {
    a.seed == b.seed
        && a.maker.bytes == b.maker.bytes
        && a.mint_a.bytes == b.mint_a.bytes
        && a.mint_b.bytes == b.mint_b.bytes
        && a.receive == b.receive
        && a.bump == b.bump
}

#[test]
fn keys_compare_by_bytes() {
    assert!(keys_eq(&key(1), &key(1)));
    let mut other = [1u8; 32];
    other[31] = 2;
    assert!(!keys_eq(&key(1), &Pubkey::new(other)));
}

#[test]
fn make_records_terms_and_deposits() {
    let m = make::handler(&make_ctx(), 42, 100, 500).unwrap();
    assert_eq!(m.escrow.seed, 42);
    assert_eq!(m.escrow.receive, 100);
    assert_eq!(m.escrow.bump, 254);
    assert_eq!(m.escrow.maker.bytes, key(1).bytes);
    assert_eq!(m.escrow.mint_a.bytes, key(2).bytes);
    assert_eq!(m.escrow.mint_b.bytes, key(3).bytes);
    assert_eq!(m.deposit.amount, 500);
    assert_eq!(m.deposit.decimals, 6);
    assert_eq!(m.deposit.from.bytes, key(4).bytes);
    assert_eq!(m.deposit.to.bytes, key(5).bytes);
    assert_eq!(m.deposit.mint.bytes, key(2).bytes);
    assert_eq!(m.deposit.authority.bytes, key(1).bytes);
    assert!(m.deposit.signer_seeds.is_empty());
}

#[test]
fn make_refuses_zero_amounts() {
    assert_eq!(make::handler(&make_ctx(), 42, 0, 500).err(), Some(EscrowError::InvalidAmount));
    assert_eq!(make::handler(&make_ctx(), 42, 100, 0).err(), Some(EscrowError::InvalidAmount));
    assert_eq!(make::handler(&make_ctx(), 42, 0, 0).err(), Some(EscrowError::InvalidAmount));
}

#[test]
fn populate_and_deposit_alone() {
    let e = make_ctx().populate_escrow(7, 9, 3);
    assert!(same_escrow(&e, &Escrow { seed: 7, maker: key(1), mint_a: key(2), mint_b: key(3), receive: 9, bump: 3 }));
    let d = make_ctx().deposit_tokens(11);
    assert_eq!(d.amount, 11);
    assert_eq!(d.decimals, 6);
}

#[test]
fn take_checks_the_escrows_terms() {
    assert_eq!(take_ctx(42).check_escrow_terms(), Ok(()));
    let mut a = take_ctx(42);
    a.maker = key(99);
    assert_eq!(a.check_escrow_terms(), Err(EscrowError::InvalidMaker));
    let mut a = take_ctx(42);
    a.mint_a = key(99);
    assert_eq!(a.check_escrow_terms(), Err(EscrowError::InvalidMintA));
    let mut a = take_ctx(42);
    a.mint_b = key(99);
    assert_eq!(a.check_escrow_terms(), Err(EscrowError::InvalidMintB));
}

#[test]
fn take_pays_maker_then_empties_and_closes_the_vault() {
    let t = take::handler(&take_ctx(42));
    assert_eq!(t.to_maker.amount, 100);
    assert_eq!(t.to_maker.decimals, 9);
    assert_eq!(t.to_maker.from.bytes, key(13).bytes);
    assert_eq!(t.to_maker.to.bytes, key(14).bytes);
    assert_eq!(t.to_maker.mint.bytes, key(3).bytes);
    assert_eq!(t.to_maker.authority.bytes, key(10).bytes);
    assert_eq!(t.to_taker.amount, 500);
    assert_eq!(t.to_taker.decimals, 6);
    assert_eq!(t.to_taker.from.bytes, key(5).bytes);
    assert_eq!(t.to_taker.to.bytes, key(12).bytes);
    assert_eq!(t.to_taker.authority.bytes, key(11).bytes);
    assert_eq!(t.close_vault.account.bytes, key(5).bytes);
    assert_eq!(t.close_vault.destination.bytes, key(1).bytes);
    assert_eq!(t.close_vault.authority.bytes, key(11).bytes);
}

#[test]
fn take_signs_with_big_endian_seed() {
    let (w, c) = take_ctx(1).withdraw_and_close_vault();
    let expected = vec![b"escrow".to_vec(), vec![1u8; 32], vec![0, 0, 0, 0, 0, 0, 0, 1], vec![5u8]];
    assert_eq!(w.signer_seeds, expected);
    assert_eq!(c.signer_seeds, expected);
    // The address seeds of the escrow hold the seed little-endian.
    assert_ne!(w.signer_seeds[2], 1u64.to_le_bytes().to_vec());
    assert_eq!(&ESCROW_SEED[..], b"escrow");
    let (w0, _) = take_ctx(0).withdraw_and_close_vault();
    assert_eq!(w0.signer_seeds[2], 0u64.to_le_bytes().to_vec());
}

#[test]
fn transfer_to_maker_alone() {
    let t = take_ctx(3).transfer_to_maker();
    assert_eq!(t.amount, 100);
    assert_eq!(t.decimals, 9);
    assert!(t.signer_seeds.is_empty());
}

#[test]
fn escrow_bytes_layout() {
    let e = Escrow { seed: 12345, maker: key(0xAB), mint_a: key(0x12), mint_b: key(0x78), receive: 1000, bump: 255 };
    let bytes = e.try_serialize();
    assert_eq!(bytes.len(), ESCROW_SPACE);
    assert_eq!(ESCROW_SPACE, ESCROW_INIT_SPACE + ESCROW_DISCRIMINATOR.len());
    assert_eq!(&bytes[0..4], &[0x01, 0x00, 0x00, 0x00]);
    assert_eq!(&bytes[4..12], &[0x39, 0x30, 0, 0, 0, 0, 0, 0]);
    assert_eq!(&bytes[12..44], &[0xAB; 32]);
    assert_eq!(&bytes[44..76], &[0x12; 32]);
    assert_eq!(&bytes[76..108], &[0x78; 32]);
    assert_eq!(&bytes[108..116], &1000u64.to_le_bytes());
    assert_eq!(bytes[116], 255);
}

#[test]
fn escrow_bytes_of_a_small_offer() {
    let e = Escrow { seed: 42, maker: key(1), mint_a: key(2), mint_b: key(3), receive: 100, bump: 5 };
    let bytes = e.try_serialize();
    let mut expected = vec![0x01, 0x00, 0x00, 0x00, 0x2A, 0, 0, 0, 0, 0, 0, 0];
    expected.extend_from_slice(&[1u8; 32]);
    expected.extend_from_slice(&[2u8; 32]);
    expected.extend_from_slice(&[3u8; 32]);
    expected.extend_from_slice(&[0x64, 0, 0, 0, 0, 0, 0, 0, 0x05]);
    assert_eq!(bytes, expected);
}

#[test]
fn escrow_bytes_round_trip() {
    let e = Escrow { seed: 42, maker: key(9), mint_a: key(8), mint_b: key(7), receive: 100, bump: 5 };
    let bytes = e.try_serialize();
    let back = Escrow::try_deserialize(&bytes).unwrap();
    assert!(same_escrow(&back, &e));
    let mut longer = bytes.clone();
    longer.extend_from_slice(&[0xFF; 10]);
    assert!(same_escrow(&Escrow::try_deserialize(&longer).unwrap(), &e));
}

#[test]
fn escrow_bytes_refused() {
    let bytes = sample_escrow(42).try_serialize();
    assert_eq!(Escrow::try_deserialize(&[]).err(), Some(AccountError::DiscriminatorNotFound));
    assert_eq!(Escrow::try_deserialize(&[1, 0, 0]).err(), Some(AccountError::DiscriminatorNotFound));
    let mut wrong = bytes.clone();
    wrong[3] = 1;
    assert_eq!(Escrow::try_deserialize(&wrong).err(), Some(AccountError::DiscriminatorMismatch));
    assert_eq!(Escrow::try_deserialize(&bytes[..116]).err(), Some(AccountError::DidNotDeserialize));
    assert_eq!(Escrow::try_deserialize(&[1, 0, 0, 0]).err(), Some(AccountError::DidNotDeserialize));
}

#[test]
fn escrow_bytes_unchecked() {
    let mut bytes = sample_escrow(42).try_serialize();
    bytes[0] = 9;
    let e = Escrow::try_deserialize_unchecked(&bytes).unwrap();
    assert!(same_escrow(&e, &sample_escrow(42)));
    assert_eq!(Escrow::try_deserialize_unchecked(&[0; 116]).err(), Some(AccountError::DidNotDeserialize));
    let zeroed = Escrow::try_deserialize_unchecked(&[0; ESCROW_SPACE]).unwrap();
    assert_eq!(zeroed.seed, 0);
    assert_eq!(zeroed.bump, 0);
}

#[test]
fn loan_state_bytes_round_trip() {
    let s = LoanState { borrower: key(1), protocol: key(2), mint: key(3), bump: 250 };
    let bytes = s.try_serialize();
    assert_eq!(bytes.len(), LOAN_STATE_SPACE);
    assert_eq!(LOAN_STATE_SPACE, 98);
    assert_eq!(bytes[0], 1);
    assert_eq!(&bytes[1..33], &[1u8; 32]);
    assert_eq!(&bytes[33..65], &[2u8; 32]);
    assert_eq!(&bytes[65..97], &[3u8; 32]);
    assert_eq!(bytes[97], 250);
    let back = LoanState::try_deserialize(&bytes).unwrap();
    assert_eq!(back.borrower.bytes, [1u8; 32]);
    assert_eq!(back.protocol.bytes, [2u8; 32]);
    assert_eq!(back.mint.bytes, [3u8; 32]);
    assert_eq!(back.bump, 250);
    assert_eq!(LoanState::try_deserialize(&bytes[..97]).err(), Some(AccountError::DidNotDeserialize));
    assert_eq!(LoanState::try_deserialize(&[0]).err(), Some(AccountError::DiscriminatorMismatch));
    assert_eq!(LoanState::try_deserialize(&[]).err(), Some(AccountError::DiscriminatorNotFound));
    assert_eq!(LoanState::try_deserialize(&[1]).err(), Some(AccountError::DidNotDeserialize));
    assert_eq!(LoanState::try_deserialize_unchecked(&[7; 98]).unwrap().bump, 7);
}
