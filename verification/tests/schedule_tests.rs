use std::str::FromStr;

use anchor_escrow::authority::{
    derive_escrow_address, derive_queue_authority, derive_token_account, sha256, ATA_PROGRAM_ID,
    PROGRAM_ID, SYSTEM_PROGRAM_ID,
};
use anchor_escrow::codec::decimal_bytes;
use anchor_escrow::schedule::{auto_refund_instruction_data, schedule_refund, CRANK_REWARD};
use anchor_lang::solana_program::hash::hash;
use anchor_lang::solana_program::program_pack::Pack;
use anchor_spl::token::spl_token::state::{Account, AccountState};
use anchor_lang::solana_program::pubkey::Pubkey;
use anchor_lang::AnchorSerialize;

const MAKER: [u8; 32] = [7; 32];
const MINT_A: [u8; 32] = [9; 32];

fn token_program() -> [u8; 32] {
    anchor_spl::token::ID.to_bytes()
}

#[test]
fn sha256_matches_known_vector() {
    let digest = sha256(b"abc");
    let expected: [u8; 32] = [
        0xba, 0x78, 0x16, 0xbf, 0x8f, 0x01, 0xcf, 0xea, 0x41, 0x41, 0x40, 0xde, 0x5d, 0xae, 0x22,
        0x23, 0xb0, 0x03, 0x61, 0xa3, 0x96, 0x17, 0x7a, 0x9c, 0xb4, 0x10, 0xff, 0x61, 0xf2, 0x00,
        0x15, 0xad,
    ];
    assert_eq!(digest, expected.to_vec());
}

#[test]
fn program_ids_match_their_base58_forms() {
    let program = Pubkey::from_str("FircrADQ2wgGuvpm8qneNCfKM7o5zoHTWnDQxngpTQ3J").unwrap();
    assert_eq!(PROGRAM_ID, program.to_bytes());
    assert_eq!(ATA_PROGRAM_ID, anchor_spl::associated_token::ID.to_bytes());
    assert_eq!(SYSTEM_PROGRAM_ID, anchor_lang::system_program::ID.to_bytes());
}

#[test]
fn escrow_address_matches_host_derivation() {
    let seed: u64 = 123;
    let (addr, bump) = derive_escrow_address(&MAKER, seed).unwrap();
    let expected = Pubkey::find_program_address(
        &[b"escrow", &MAKER, &seed.to_le_bytes()],
        &Pubkey::new_from_array(PROGRAM_ID),
    );
    assert_eq!(addr, expected.0.to_bytes().to_vec());
    assert_eq!(bump, expected.1);
}

#[test]
fn token_account_matches_host_derivation() {
    let (addr, _) = derive_token_account(&MAKER, &MINT_A, &token_program()).unwrap();
    let expected = anchor_spl::associated_token::get_associated_token_address_with_program_id(
        &Pubkey::new_from_array(MAKER),
        &Pubkey::new_from_array(MINT_A),
        &Pubkey::new_from_array(token_program()),
    );
    assert_eq!(addr, expected.to_bytes().to_vec());
}

#[test]
fn queue_authority_matches_host_derivation() {
    let (addr, bump) = derive_queue_authority().unwrap();
    let expected = Pubkey::find_program_address(
        &[b"queue_authority"],
        &Pubkey::new_from_array(PROGRAM_ID),
    );
    assert_eq!(addr, expected.0.to_bytes().to_vec());
    assert_eq!(bump, expected.1);
}

#[test]
fn instruction_data_is_discriminator_then_nonce() {
    let seed: u64 = 123;
    let data = auto_refund_instruction_data(seed);
    assert_eq!(data.len(), 16);
    let digest = hash(b"global:auto_refund").to_bytes();
    assert_eq!(&data[0..8], &digest[0..8]);
    assert_eq!(&data[8..16], &seed.to_le_bytes());
}

#[test]
fn decimal_rendering_is_exact() {
    assert_eq!(decimal_bytes(0), b"0".to_vec());
    assert_eq!(decimal_bytes(7), b"7".to_vec());
    assert_eq!(decimal_bytes(123), b"123".to_vec());
    assert_eq!(decimal_bytes(u64::MAX), b"18446744073709551615".to_vec());
}

#[test]
fn scheduled_refund_carries_the_exact_invocation() {
    let seed: u64 = 123;
    let task = schedule_refund(&MAKER, seed, &MINT_A, &token_program(), 5, 999_999).unwrap();

    assert_eq!(task.trigger_timestamp, 999_999);
    assert_eq!(task.task_id, 5);
    assert_eq!(task.crank_reward, CRANK_REWARD);
    assert_eq!(task.free_tasks, 1);
    assert_eq!(task.description, b"auto-refund-123".to_vec());

    // re-derive every address the way the host does
    let program = Pubkey::new_from_array(PROGRAM_ID);
    let maker = Pubkey::new_from_array(MAKER);
    let mint_a = Pubkey::new_from_array(MINT_A);
    let token_program_id = Pubkey::new_from_array(token_program());
    let escrow = Pubkey::find_program_address(
        &[b"escrow", &MAKER, &seed.to_le_bytes()],
        &program,
    )
    .0;
    let maker_ata = anchor_spl::associated_token::get_associated_token_address_with_program_id(
        &maker,
        &mint_a,
        &token_program_id,
    );
    let vault = anchor_spl::associated_token::get_associated_token_address_with_program_id(
        &escrow,
        &mint_a,
        &token_program_id,
    );

    assert_eq!(task.call.program_id, PROGRAM_ID.to_vec());
    let expected_accounts: Vec<(Pubkey, bool)> = vec![
        (maker, true),
        (mint_a, false),
        (maker_ata, true),
        (escrow, true),
        (vault, true),
        (token_program_id, false),
        (anchor_lang::system_program::ID, false),
    ];
    assert_eq!(task.call.accounts.len(), expected_accounts.len());
    for (got, (addr, writable)) in task.call.accounts.iter().zip(expected_accounts.iter()) {
        assert_eq!(got.address, addr.to_bytes().to_vec());
        assert_eq!(got.is_writable, *writable);
        assert!(!got.is_signer);
    }

    // the envelope really encodes that one invocation: one instruction,
    // whose argument bytes and (index-resolved) accounts are the call's
    assert!(task.envelope.signer_seeds.is_empty());
    assert_eq!(task.envelope.instructions.len(), 1);
    let compiled = &task.envelope.instructions[0];
    assert_eq!(compiled.data, task.call.data);
    assert_eq!(
        task.envelope.accounts[compiled.program_id_index as usize],
        program
    );
    assert_eq!(compiled.accounts.len(), expected_accounts.len());
    // no account signs; exactly the four writable ones are sorted first
    assert_eq!(task.envelope.num_rw_signers, 0);
    assert_eq!(task.envelope.num_ro_signers, 0);
    assert_eq!(task.envelope.num_rw, 4);
    for (idx, (addr, writable)) in compiled.accounts.iter().zip(expected_accounts.iter()) {
        assert_eq!(task.envelope.accounts[*idx as usize], *addr);
        assert_eq!(*writable, (*idx as usize) < 4);
    }

    // its own serialization round-trips through the scheduler's codec
    let bytes = task.envelope.try_to_vec().unwrap();
    assert!(!bytes.is_empty());
}

#[test]
fn balance_field_reads_the_packed_token_account() {
    let account = Account {
        mint: Pubkey::new_from_array(MINT_A),
        owner: Pubkey::new_from_array(MAKER),
        amount: 777,
        delegate: None.into(),
        state: AccountState::Initialized,
        is_native: None.into(),
        delegated_amount: 0,
        close_authority: None.into(),
    };
    let mut raw = vec![0u8; Account::LEN];
    Account::pack(account, &mut raw).unwrap();

    assert_eq!(anchor_escrow::codec::read_balance_field(&raw), Some(777));
    // an image too short to hold the field reads as nothing
    assert_eq!(anchor_escrow::codec::read_balance_field(&raw[..71]), None);
    assert_eq!(anchor_escrow::codec::read_balance_field(&[]), None);
}
