use limo::constraints::check_cpi_not_allowed;
use limo::errors::LimoError;
use limo::flash_ixs::{
    check_flash_ixs_args_match, decode_flash_take_order_args, encode_flash_take_order_args,
    ensure_first_ix_match, ensure_second_ix_match, FlashTakeOrderArgs, Instruction,
};
use limo::state::Pubkey;

const START_DISC: [u8; 8] = [11, 11, 11, 11, 11, 11, 11, 11];
const END_DISC: [u8; 8] = [22, 22, 22, 22, 22, 22, 22, 22];

fn pk(tag: u8) -> Pubkey {
    let mut bytes = [0u8; 32];
    bytes[0] = tag;
    Pubkey::new(bytes)
}

fn own_program() -> Pubkey {
    pk(100)
}

fn aux_program() -> Pubkey {
    pk(200)
}

fn stranger_program() -> Pubkey {
    pk(201)
}

fn allowed() -> Vec<Pubkey> {
    vec![aux_program()]
}

fn args() -> FlashTakeOrderArgs {
    FlashTakeOrderArgs {
        input_amount: 500,
        min_output_amount: 1000,
        tip_amount_permissionless_taking: 7,
    }
}

fn ix(program: Pubkey, disc: [u8; 8], accounts: Vec<Pubkey>) -> Instruction {
    let mut data = disc.to_vec();
    data.extend(encode_flash_take_order_args(&args()));
    Instruction { program_id: program, accounts, data }
}

fn aux_ix() -> Instruction {
    Instruction { program_id: aux_program(), accounts: vec![pk(5)], data: vec![1, 2, 3] }
}

fn standard_accounts() -> Vec<Pubkey> {
    vec![pk(1), pk(2), pk(3)]
}

#[test]
fn start_without_end_fails_not_ended() {
    let ixs = vec![ix(own_program(), START_DISC, standard_accounts()), aux_ix()];
    let r = ensure_second_ix_match(&ixs, 0, &own_program(), &allowed(), &END_DISC);
    assert_eq!(r, Err(LimoError::FlashIxsNotEnded));
}

#[test]
fn end_without_start_fails_not_started() {
    let ixs = vec![aux_ix(), ix(own_program(), END_DISC, standard_accounts())];
    let r = ensure_first_ix_match(&ixs, 1, &own_program(), &allowed(), &START_DISC);
    assert_eq!(r, Err(LimoError::FlashIxsNotStarted));
}

#[test]
fn paired_start_and_end_accept_each_other() {
    let ixs = vec![
        aux_ix(),
        ix(own_program(), START_DISC, standard_accounts()),
        aux_ix(),
        ix(own_program(), END_DISC, standard_accounts()),
        aux_ix(),
    ];
    let from_start = ensure_second_ix_match(&ixs, 1, &own_program(), &allowed(), &END_DISC)
        .unwrap();
    let from_end = ensure_first_ix_match(&ixs, 3, &own_program(), &allowed(), &START_DISC)
        .unwrap();
    assert_eq!(decode_flash_take_order_args(&from_start).unwrap(), args());
    assert_eq!(decode_flash_take_order_args(&from_end).unwrap(), args());
}

#[test]
fn differing_account_lists_fail_account_mismatch() {
    let other_accounts = vec![pk(1), pk(2), pk(9)];
    let ixs = vec![
        ix(own_program(), START_DISC, standard_accounts()),
        ix(own_program(), END_DISC, other_accounts),
    ];
    let r = ensure_second_ix_match(&ixs, 0, &own_program(), &allowed(), &END_DISC);
    assert_eq!(r, Err(LimoError::FlashIxsAccountMismatch));
    let r = ensure_first_ix_match(&ixs, 1, &own_program(), &allowed(), &START_DISC);
    assert_eq!(r, Err(LimoError::FlashIxsAccountMismatch));
}

#[test]
fn account_count_mismatch_fails_account_mismatch() {
    let ixs = vec![
        ix(own_program(), START_DISC, vec![pk(1), pk(2)]),
        ix(own_program(), END_DISC, standard_accounts()),
    ];
    let r = ensure_second_ix_match(&ixs, 0, &own_program(), &allowed(), &END_DISC);
    assert_eq!(r, Err(LimoError::FlashIxsAccountMismatch));
}

#[test]
fn mismatched_args_fail_args_mismatch() {
    let decoded = args();
    let r = check_flash_ixs_args_match(&decoded, 500, 1000, 7);
    assert_eq!(r, Ok(()));
    let r = check_flash_ixs_args_match(&decoded, 500, 999, 7);
    assert_eq!(r, Err(LimoError::FlashIxsArgsMismatch));
    let r = check_flash_ixs_args_match(&decoded, 501, 1000, 7);
    assert_eq!(r, Err(LimoError::FlashIxsArgsMismatch));
    let r = check_flash_ixs_args_match(&decoded, 500, 1000, 8);
    assert_eq!(r, Err(LimoError::FlashIxsArgsMismatch));
}

#[test]
fn nested_invocation_fails_cpi_not_allowed() {
    // A call-stack height above transaction level means a nested call.
    let r = check_cpi_not_allowed(&own_program(), &own_program(), 2);
    assert_eq!(r, Err(LimoError::CPINotAllowed));
    // An instruction list reporting another program at the current
    // position means the entry point did not come from this program's
    // own top-level instruction.
    let r = check_cpi_not_allowed(&stranger_program(), &own_program(), 1);
    assert_eq!(r, Err(LimoError::CPINotAllowed));
    let r = check_cpi_not_allowed(&own_program(), &own_program(), 1);
    assert_eq!(r, Ok(()));
}

#[test]
fn stranger_program_in_transaction_fails_unexpected() {
    // Before the start.
    let ixs = vec![
        stray_ix(),
        ix(own_program(), START_DISC, standard_accounts()),
        ix(own_program(), END_DISC, standard_accounts()),
    ];
    let r = ensure_second_ix_match(&ixs, 1, &own_program(), &allowed(), &END_DISC);
    assert_eq!(r, Err(LimoError::FlashTxWithUnexpectedIxs));
    // After the end.
    let ixs = vec![
        ix(own_program(), START_DISC, standard_accounts()),
        ix(own_program(), END_DISC, standard_accounts()),
        stray_ix(),
    ];
    let r = ensure_second_ix_match(&ixs, 0, &own_program(), &allowed(), &END_DISC);
    assert_eq!(r, Err(LimoError::FlashTxWithUnexpectedIxs));
    let r = ensure_first_ix_match(&ixs, 1, &own_program(), &allowed(), &START_DISC);
    assert_eq!(r, Err(LimoError::FlashTxWithUnexpectedIxs));
}

#[test]
fn duplicate_start_fails_unexpected() {
    // A second start earlier in the transaction is a stray own-program
    // instruction before the pair.
    let ixs = vec![
        ix(own_program(), START_DISC, standard_accounts()),
        ix(own_program(), START_DISC, standard_accounts()),
        ix(own_program(), END_DISC, standard_accounts()),
    ];
    let r = ensure_second_ix_match(&ixs, 1, &own_program(), &allowed(), &END_DISC);
    assert_eq!(r, Err(LimoError::FlashTxWithUnexpectedIxs));
}

#[test]
fn wrong_end_discriminator_fails_unexpected() {
    let ixs = vec![
        ix(own_program(), START_DISC, standard_accounts()),
        ix(own_program(), START_DISC, standard_accounts()),
    ];
    let r = ensure_second_ix_match(&ixs, 0, &own_program(), &allowed(), &END_DISC);
    assert_eq!(r, Err(LimoError::FlashTxWithUnexpectedIxs));
}

#[test]
fn short_data_on_paired_ix_fails_unexpected() {
    let stub = Instruction {
        program_id: own_program(),
        accounts: standard_accounts(),
        data: vec![22, 22],
    };
    let ixs = vec![ix(own_program(), START_DISC, standard_accounts()), stub];
    let r = ensure_second_ix_match(&ixs, 0, &own_program(), &allowed(), &END_DISC);
    assert_eq!(r, Err(LimoError::FlashTxWithUnexpectedIxs));
}

#[test]
fn args_encoding_round_trips() {
    let payload = encode_flash_take_order_args(&args());
    assert_eq!(payload.len(), 24);
    assert_eq!(decode_flash_take_order_args(&payload), Some(args()));
    assert_eq!(decode_flash_take_order_args(&vec![0u8; 23]), None);
}

fn stray_ix() -> Instruction {
    Instruction { program_id: stranger_program(), accounts: vec![], data: vec![0; 8] }
}
