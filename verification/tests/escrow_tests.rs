use anchor_escrow::errors::EscrowError;
use anchor_escrow::protocol::EscrowLedger;
use anchor_escrow::state::MATURITY_OFFSET_SECONDS;

const MAKER: u64 = 1;
const TAKER: u64 = 2;
const MINT_A: u64 = 100;
const MINT_B: u64 = 200;
const NOW: i64 = 1_000;

/// A world where the maker holds 1_000_000_000 units of asset A.
fn setup() -> EscrowLedger {
    let mut program = EscrowLedger::new();
    program.mint_to(MAKER, MINT_A, 1_000_000_000).unwrap();
    program
}

#[test]
fn test_make() {
    let mut program = setup();

    program.make(MAKER, 123, MINT_A, MINT_B, 10, 10, 254, NOW).unwrap();

    let vault = program.vault(MAKER, 123).unwrap();
    assert_eq!(vault.balance, 10);
    assert_eq!(vault.mint, MINT_A);

    let escrow = program.record(MAKER, 123).unwrap();
    assert_eq!(escrow.seed, 123u64);
    assert_eq!(escrow.maker, MAKER);
    assert_eq!(escrow.mint_a, MINT_A);
    assert_eq!(escrow.mint_b, MINT_B);
    assert_eq!(escrow.receive, 10);
    assert_eq!(program.balance_of(MAKER, MINT_A), 999_999_990);
}

#[test]
fn test_take() {
    let mut program = setup();
    program.mint_to(TAKER, MINT_B, 1_000_000_000).unwrap();

    let seed: u64 = 123;
    program.make(MAKER, seed, MINT_A, MINT_B, 10, 10, 254, NOW).unwrap();

    // advance the clock by five days plus one second
    let later = NOW + MATURITY_OFFSET_SECONDS + 1;
    program.take(TAKER, MAKER, seed, later).unwrap();

    // the taker received the vaulted asset A
    assert_eq!(program.balance_of(TAKER, MINT_A), 10);
    // the maker received the requested asset B
    assert_eq!(program.balance_of(MAKER, MINT_B), 10);
    // the vault and the escrow record are closed
    assert!(program.vault(MAKER, seed).is_none());
    assert!(program.record(MAKER, seed).is_none());
    // settling again fails on the absent record
    assert_eq!(
        program.take(TAKER, MAKER, seed, later + 1),
        Err(EscrowError::RecordNotFound)
    );
    // a later automatic refund is a safe no-op
    program.auto_refund(MAKER, seed, MINT_A).unwrap();
    assert_eq!(program.balance_of(TAKER, MINT_A), 10);
    assert_eq!(program.balance_of(MAKER, MINT_B), 10);
}

#[test]
fn test_refund() {
    let mut program = setup();
    let initial_balance = program.balance_of(MAKER, MINT_A);

    let seed: u64 = 456;
    program.make(MAKER, seed, MINT_A, MINT_B, 50, 25, 254, NOW).unwrap();

    assert_eq!(program.vault(MAKER, seed).unwrap().balance, 50);
    assert_eq!(program.balance_of(MAKER, MINT_A), initial_balance - 50);

    program.refund(MAKER, MAKER, seed).unwrap();

    // the maker gets the full starting balance back
    assert_eq!(program.balance_of(MAKER, MINT_A), initial_balance);
    assert!(program.vault(MAKER, seed).is_none());
    assert!(program.record(MAKER, seed).is_none());
}

#[test]
fn test_take_before_timelock() {
    let mut program = setup();
    program.mint_to(TAKER, MINT_B, 1_000_000_000).unwrap();

    let seed: u64 = 789;
    program.make(MAKER, seed, MINT_A, MINT_B, 10, 10, 254, NOW).unwrap();

    // do not advance the clock: settling must fail
    let result = program.take(TAKER, MAKER, seed, NOW);
    assert_eq!(result, Err(EscrowError::TimeLockNotExpired));

    // nothing was changed
    assert!(program.record(MAKER, seed).is_some());
    assert!(program.vault(MAKER, seed).is_some());
    assert_eq!(program.vault(MAKER, seed).unwrap().balance, 10);
    assert_eq!(program.balance_of(TAKER, MINT_B), 1_000_000_000);
}

#[test]
fn take_exactly_at_maturity_succeeds() {
    let mut program = setup();
    program.mint_to(TAKER, MINT_B, 100).unwrap();
    program.make(MAKER, 5, MINT_A, MINT_B, 10, 10, 254, NOW).unwrap();
    program.take(TAKER, MAKER, 5, NOW + MATURITY_OFFSET_SECONDS).unwrap();
    assert_eq!(program.balance_of(TAKER, MINT_A), 10);
}

#[test]
fn duplicate_open_rejected() {
    let mut program = setup();
    program.make(MAKER, 123, MINT_A, MINT_B, 10, 10, 254, NOW).unwrap();
    let result = program.make(MAKER, 123, MINT_A, MINT_B, 7, 7, 254, NOW);
    assert_eq!(result, Err(EscrowError::RecordAlreadyExists));
    // the first escrow is untouched
    assert_eq!(program.vault(MAKER, 123).unwrap().balance, 10);
    assert_eq!(program.record(MAKER, 123).unwrap().receive, 10);
    // a different seed still works for the same maker
    program.make(MAKER, 124, MINT_A, MINT_B, 7, 7, 254, NOW).unwrap();
    assert_eq!(program.vault(MAKER, 124).unwrap().balance, 7);
}

#[test]
fn open_asking_nothing_rejected() {
    let mut program = setup();
    let result = program.make(MAKER, 1, MINT_A, MINT_B, 10, 0, 254, NOW);
    assert_eq!(result, Err(EscrowError::InvalidAmount));
    assert!(program.record(MAKER, 1).is_none());
}

#[test]
fn open_without_funds_rejected() {
    let mut program = setup();
    let result = program.make(MAKER, 1, MINT_A, MINT_B, 1_000_000_001, 10, 254, NOW);
    assert_eq!(result, Err(EscrowError::InsufficientBalance));
    assert!(program.record(MAKER, 1).is_none());
    assert_eq!(program.balance_of(MAKER, MINT_A), 1_000_000_000);
}

#[test]
fn take_without_funds_rejected() {
    let mut program = setup();
    program.make(MAKER, 9, MINT_A, MINT_B, 10, 10, 254, NOW).unwrap();
    // the taker holds only 9 of asset B
    program.mint_to(TAKER, MINT_B, 9).unwrap();
    let result = program.take(TAKER, MAKER, 9, NOW + MATURITY_OFFSET_SECONDS + 1);
    assert_eq!(result, Err(EscrowError::InsufficientBalance));
    assert_eq!(program.vault(MAKER, 9).unwrap().balance, 10);
    assert_eq!(program.balance_of(TAKER, MINT_B), 9);
}

#[test]
fn refund_by_non_maker_rejected() {
    let mut program = setup();
    program.make(MAKER, 7, MINT_A, MINT_B, 20, 5, 254, NOW).unwrap();
    let result = program.refund(TAKER, MAKER, 7);
    assert_eq!(result, Err(EscrowError::InvalidMaker));
    // neither the vault nor the record nor any balance moved
    assert_eq!(program.vault(MAKER, 7).unwrap().balance, 20);
    assert!(program.record(MAKER, 7).is_some());
    assert_eq!(program.balance_of(MAKER, MINT_A), 999_999_980);
    assert_eq!(program.balance_of(TAKER, MINT_A), 0);
}

#[test]
fn refund_absent_record_rejected() {
    let mut program = setup();
    assert_eq!(program.refund(MAKER, MAKER, 42), Err(EscrowError::RecordNotFound));
    assert_eq!(program.take(TAKER, MAKER, 42, NOW), Err(EscrowError::RecordNotFound));
}

#[test]
fn auto_refund_restores_and_replays_as_noop() {
    let mut program = setup();
    program.make(MAKER, 111, MINT_A, MINT_B, 40, 20, 254, NOW).unwrap();
    assert_eq!(program.balance_of(MAKER, MINT_A), 999_999_960);

    // first firing refunds the deposit and closes everything
    program.auto_refund(MAKER, 111, MINT_A).unwrap();
    assert_eq!(program.balance_of(MAKER, MINT_A), 1_000_000_000);
    assert!(program.record(MAKER, 111).is_none());
    assert!(program.vault(MAKER, 111).is_none());

    // second firing succeeds with no observable effect
    program.auto_refund(MAKER, 111, MINT_A).unwrap();
    assert_eq!(program.balance_of(MAKER, MINT_A), 1_000_000_000);
    assert!(program.record(MAKER, 111).is_none());
    assert!(program.vault(MAKER, 111).is_none());
}

#[test]
fn auto_refund_after_settlement_is_noop() {
    let mut program = setup();
    program.mint_to(TAKER, MINT_B, 100).unwrap();
    program.make(MAKER, 22, MINT_A, MINT_B, 30, 15, 254, NOW).unwrap();
    program.take(TAKER, MAKER, 22, NOW + MATURITY_OFFSET_SECONDS + 1).unwrap();

    let maker_a = program.balance_of(MAKER, MINT_A);
    let maker_b = program.balance_of(MAKER, MINT_B);
    let taker_a = program.balance_of(TAKER, MINT_A);
    let taker_b = program.balance_of(TAKER, MINT_B);

    // the scheduler fires long after settlement: success, nothing moves
    program.auto_refund(MAKER, 22, MINT_A).unwrap();
    assert_eq!(program.balance_of(MAKER, MINT_A), maker_a);
    assert_eq!(program.balance_of(MAKER, MINT_B), maker_b);
    assert_eq!(program.balance_of(TAKER, MINT_A), taker_a);
    assert_eq!(program.balance_of(TAKER, MINT_B), taker_b);
}

#[test]
fn auto_refund_after_manual_refund_is_noop() {
    let mut program = setup();
    program.make(MAKER, 456, MINT_A, MINT_B, 50, 25, 254, NOW).unwrap();
    program.refund(MAKER, MAKER, 456).unwrap();
    assert_eq!(program.balance_of(MAKER, MINT_A), 1_000_000_000);

    program.auto_refund(MAKER, 456, MINT_A).unwrap();
    assert_eq!(program.balance_of(MAKER, MINT_A), 1_000_000_000);
    assert!(program.record(MAKER, 456).is_none());
}

#[test]
fn auto_refund_wrong_mint_rejected() {
    let mut program = setup();
    program.make(MAKER, 3, MINT_A, MINT_B, 10, 10, 254, NOW).unwrap();
    let result = program.auto_refund(MAKER, 3, MINT_B);
    assert_eq!(result, Err(EscrowError::MintMismatch));
    assert_eq!(program.vault(MAKER, 3).unwrap().balance, 10);
}

#[test]
fn credit_overflow_rejected() {
    let mut program = EscrowLedger::new();
    program.mint_to(MAKER, MINT_A, u64::MAX).unwrap();
    assert_eq!(program.mint_to(MAKER, MINT_A, 1), Err(EscrowError::BalanceOverflow));
    assert_eq!(program.balance_of(MAKER, MINT_A), u64::MAX);
}

#[test]
fn take_overflowing_credit_rejected() {
    let mut program = setup();
    // the maker already holds the full range of asset B
    program.mint_to(MAKER, MINT_B, u64::MAX).unwrap();
    program.mint_to(TAKER, MINT_B, 100).unwrap();
    program.make(MAKER, 8, MINT_A, MINT_B, 10, 10, 254, NOW).unwrap();

    let result = program.take(TAKER, MAKER, 8, NOW + MATURITY_OFFSET_SECONDS + 1);
    assert_eq!(result, Err(EscrowError::BalanceOverflow));
    // the failed settlement left everything in place
    assert_eq!(program.vault(MAKER, 8).unwrap().balance, 10);
    assert_eq!(program.balance_of(TAKER, MINT_B), 100);
    assert_eq!(program.balance_of(MAKER, MINT_B), u64::MAX);
}

#[test]
fn error_labels_are_stable() {
    assert_eq!(EscrowError::TimeLockNotExpired.label(), "time lock not expired");
    assert_eq!(EscrowError::InvalidMaker.label(), "invalid maker");
    assert_eq!(EscrowError::CompileTransactionFailed.label(), "compile transaction failed");
}
