use limo::errors::LimoError;
use limo::flash_ixs::Instruction;
use limo::state::Pubkey;
use limo::swap_balance_introspection::{ensure_end_ix_match, ensure_start_ix_match};

const START_DISC: [u8; 8] = [31, 31, 31, 31, 31, 31, 31, 31];
const END_DISC: [u8; 8] = [32, 32, 32, 32, 32, 32, 32, 32];

fn pk(tag: u8) -> Pubkey {
    let mut bytes = [0u8; 32];
    bytes[0] = tag;
    Pubkey::new(bytes)
}

fn own_program() -> Pubkey {
    pk(100)
}

fn swap_program() -> Pubkey {
    pk(150)
}

fn bracket_ix(disc: [u8; 8], accounts: Vec<Pubkey>) -> Instruction {
    let mut data = disc.to_vec();
    data.extend([0u8; 4]);
    Instruction { program_id: own_program(), accounts, data }
}

fn swap_ix() -> Instruction {
    Instruction { program_id: swap_program(), accounts: vec![pk(9)], data: vec![5, 5] }
}

fn other_ix() -> Instruction {
    Instruction { program_id: pk(201), accounts: vec![], data: vec![] }
}

fn accounts() -> Vec<Pubkey> {
    vec![pk(1), pk(2)]
}

#[test]
fn bracket_with_single_swap_between_is_accepted() {
    let ixs = vec![
        bracket_ix(START_DISC, accounts()),
        swap_ix(),
        bracket_ix(END_DISC, accounts()),
    ];
    let r = ensure_end_ix_match(&ixs, 0, &own_program(), &swap_program(), &END_DISC);
    assert!(r.is_ok());
    let r = ensure_start_ix_match(&ixs, 2, &own_program(), &swap_program(), &START_DISC);
    assert!(r.is_ok());
}

#[test]
fn bracket_without_end_fails_not_ended() {
    let ixs = vec![bracket_ix(START_DISC, accounts()), swap_ix()];
    let r = ensure_end_ix_match(&ixs, 0, &own_program(), &swap_program(), &END_DISC);
    assert_eq!(r, Err(LimoError::FlashIxsNotEnded));
}

#[test]
fn bracket_without_start_fails_not_started() {
    let ixs = vec![swap_ix(), bracket_ix(END_DISC, accounts())];
    let r = ensure_start_ix_match(&ixs, 1, &own_program(), &swap_program(), &START_DISC);
    assert_eq!(r, Err(LimoError::FlashIxsNotStarted));
}

#[test]
fn empty_gap_fails_unexpected() {
    let ixs = vec![
        bracket_ix(START_DISC, accounts()),
        bracket_ix(END_DISC, accounts()),
    ];
    let r = ensure_end_ix_match(&ixs, 0, &own_program(), &swap_program(), &END_DISC);
    assert_eq!(r, Err(LimoError::FlashTxWithUnexpectedIxs));
}

#[test]
fn two_instructions_between_fail_unexpected() {
    let ixs = vec![
        bracket_ix(START_DISC, accounts()),
        swap_ix(),
        swap_ix(),
        bracket_ix(END_DISC, accounts()),
    ];
    let r = ensure_end_ix_match(&ixs, 0, &own_program(), &swap_program(), &END_DISC);
    assert_eq!(r, Err(LimoError::FlashTxWithUnexpectedIxs));
    let r = ensure_start_ix_match(&ixs, 3, &own_program(), &swap_program(), &START_DISC);
    assert_eq!(r, Err(LimoError::FlashTxWithUnexpectedIxs));
}

#[test]
fn foreign_program_between_fails_unexpected() {
    let ixs = vec![
        bracket_ix(START_DISC, accounts()),
        other_ix(),
        bracket_ix(END_DISC, accounts()),
    ];
    let r = ensure_end_ix_match(&ixs, 0, &own_program(), &swap_program(), &END_DISC);
    assert_eq!(r, Err(LimoError::FlashTxWithUnexpectedIxs));
    let r = ensure_start_ix_match(&ixs, 2, &own_program(), &swap_program(), &START_DISC);
    assert_eq!(r, Err(LimoError::FlashTxWithUnexpectedIxs));
}

#[test]
fn bracket_account_mismatch_is_rejected() {
    let ixs = vec![
        bracket_ix(START_DISC, accounts()),
        swap_ix(),
        bracket_ix(END_DISC, vec![pk(1), pk(8)]),
    ];
    let r = ensure_end_ix_match(&ixs, 0, &own_program(), &swap_program(), &END_DISC);
    assert_eq!(r, Err(LimoError::FlashIxsAccountMismatch));
}

#[test]
fn wrong_bracket_discriminator_is_rejected() {
    let ixs = vec![
        bracket_ix(START_DISC, accounts()),
        swap_ix(),
        bracket_ix(START_DISC, accounts()),
    ];
    let r = ensure_end_ix_match(&ixs, 0, &own_program(), &swap_program(), &END_DISC);
    assert_eq!(r, Err(LimoError::FlashTxWithUnexpectedIxs));
    let r = ensure_start_ix_match(&ixs, 2, &own_program(), &swap_program(), &END_DISC);
    assert_eq!(r, Err(LimoError::FlashTxWithUnexpectedIxs));
}
