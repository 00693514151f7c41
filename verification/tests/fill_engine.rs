use limo::errors::LimoError;
use limo::operations::{
    flash_pay_order_output, flash_withdraw_order_input, take_order, take_order_calcs,
};
use limo::state::{
    GlobalConfig, Order, Pubkey, TakeOrderEffects, ORDER_STATUS_ACTIVE, ORDER_STATUS_CANCELLED,
    ORDER_STATUS_FILLED,
};

fn pk(tag: u8) -> Pubkey {
    let mut bytes = [0u8; 32];
    bytes[0] = tag;
    Pubkey::new(bytes)
}

fn test_order(initial: u64, expected: u64) -> Order {
    let mut order = Order::default();
    order.maker = pk(1);
    order.global_config = pk(2);
    order.input_mint = pk(3);
    order.output_mint = pk(4);
    order.initial_input_amount = initial;
    order.remaining_input_amount = initial;
    order.expected_output_amount = expected;
    order.status = ORDER_STATUS_ACTIVE;
    order
}

fn test_config() -> GlobalConfig {
    GlobalConfig::default()
}

#[test]
fn fill_requires_proportional_minimum_output() {
    // An order of 1000 input against 2000 output: a fill of 500 owes the
    // maker at least ceil(500 * 2000 / 1000) = 1000.
    let order = test_order(1000, 2000);
    let r = take_order_calcs(&order, 500, 999);
    assert_eq!(r, Err(LimoError::OrderOutputAmountInvalid));

    let r = take_order_calcs(&order, 500, 1000);
    assert_eq!(
        r,
        Ok(TakeOrderEffects { input_to_send_to_taker: 500, output_to_send_to_maker: 1000 })
    );
}

#[test]
fn first_partial_fill_leaves_order_active() {
    let mut order = test_order(1000, 2000);
    let mut config = test_config();
    let r = take_order(&mut config, &mut order, 500, 0, 7, 1000);
    assert!(r.is_ok());
    assert_eq!(order.remaining_input_amount, 500);
    assert_eq!(order.filled_output_amount, 1000);
    assert_eq!(order.status, ORDER_STATUS_ACTIVE);
    assert_eq!(order.number_of_fills, 1);
    assert_eq!(order.last_updated_timestamp, 7);
}

#[test]
fn second_fill_completes_the_order() {
    let mut order = test_order(1000, 2000);
    let mut config = test_config();
    take_order(&mut config, &mut order, 500, 0, 7, 1000).unwrap();
    let r = take_order(&mut config, &mut order, 500, 0, 8, 1000);
    assert!(r.is_ok());
    assert_eq!(order.remaining_input_amount, 0);
    assert_eq!(order.filled_output_amount, 2000);
    assert_eq!(order.status, ORDER_STATUS_FILLED);
    assert_eq!(order.number_of_fills, 2);
}

#[test]
fn input_is_conserved_across_fills() {
    let mut order = test_order(1000, 2000);
    let mut config = test_config();
    let mut sent_total: u64 = 0;
    let e1 = take_order(&mut config, &mut order, 300, 0, 1, 600).unwrap();
    sent_total += e1.input_to_send_to_taker;
    let e2 = take_order(&mut config, &mut order, 450, 0, 2, 900).unwrap();
    sent_total += e2.input_to_send_to_taker;
    assert_eq!(
        order.initial_input_amount,
        order.remaining_input_amount + sent_total
    );
}

#[test]
fn fill_output_never_below_proportional_floor() {
    let order = test_order(777, 1301);
    for input in [1u64, 3, 250, 777] {
        // The smallest output the engine accepts for this input.
        let mut accepted = None;
        for output in 0..=1301u64 {
            if take_order_calcs(&order, input, output).is_ok() {
                accepted = Some(output);
                break;
            }
        }
        let output = accepted.expect("some output must be accepted");
        assert!(
            (output as u128) * (order.initial_input_amount as u128)
                >= (input as u128) * (order.expected_output_amount as u128)
        );
        // One less than the accepted output violates the floor.
        if output > 0 {
            assert!(
                ((output - 1) as u128) * (order.initial_input_amount as u128)
                    < (input as u128) * (order.expected_output_amount as u128)
            );
        }
    }
}

#[test]
fn zero_input_fill_is_rejected() {
    let order = test_order(1000, 2000);
    assert_eq!(
        take_order_calcs(&order, 0, 0),
        Err(LimoError::OrderInputAmountInvalid)
    );
}

#[test]
fn oversized_fill_is_rejected() {
    let order = test_order(1000, 2000);
    assert_eq!(
        take_order_calcs(&order, 1001, 5000),
        Err(LimoError::OrderInputAmountTooLarge)
    );
}

#[test]
fn no_fill_succeeds_on_filled_order() {
    let mut order = test_order(1000, 2000);
    let mut config = test_config();
    take_order(&mut config, &mut order, 1000, 0, 1, 2000).unwrap();
    assert_eq!(order.status, ORDER_STATUS_FILLED);
    let r = take_order(&mut config, &mut order, 1, 0, 2, 2);
    assert_eq!(r, Err(LimoError::OrderNotActive));
    assert_eq!(order.status, ORDER_STATUS_FILLED);
    assert_eq!(order.remaining_input_amount, 0);
}

#[test]
fn no_fill_succeeds_on_cancelled_order() {
    let mut order = test_order(1000, 2000);
    let mut config = test_config();
    order.status = ORDER_STATUS_CANCELLED;
    let r = take_order(&mut config, &mut order, 1, 0, 2, 2);
    assert_eq!(r, Err(LimoError::OrderNotActive));
    assert_eq!(order.status, ORDER_STATUS_CANCELLED);
}

#[test]
fn fill_blocked_while_flash_lock_held() {
    let mut order = test_order(1000, 2000);
    let mut config = test_config();
    order.flash_ix_lock = 1;
    let r = take_order(&mut config, &mut order, 500, 0, 1, 1000);
    assert_eq!(r, Err(LimoError::OrderWithinFlashOperation));
}

#[test]
fn flash_cycle_withdraw_then_pay() {
    let mut order = test_order(1000, 2000);
    let mut config = test_config();

    let start = flash_withdraw_order_input(&mut order, 500, 1000).unwrap();
    assert_eq!(start.input_to_send_to_taker, 500);
    assert_eq!(order.flash_ix_lock, 1);
    // The start releases input without applying accounting.
    assert_eq!(order.remaining_input_amount, 1000);

    let end = flash_pay_order_output(&mut config, &mut order, 500, 1000, 0, 9).unwrap();
    assert_eq!(end.output_to_send_to_maker, 1000);
    assert_eq!(order.flash_ix_lock, 0);
    assert_eq!(order.remaining_input_amount, 500);
    assert_eq!(order.filled_output_amount, 1000);
}

#[test]
fn second_flash_start_is_rejected() {
    let mut order = test_order(1000, 2000);
    flash_withdraw_order_input(&mut order, 500, 1000).unwrap();
    let r = flash_withdraw_order_input(&mut order, 100, 200);
    assert_eq!(r, Err(LimoError::OrderWithinFlashOperation));
}

#[test]
fn flash_end_without_start_is_rejected() {
    let mut order = test_order(1000, 2000);
    let mut config = test_config();
    let r = flash_pay_order_output(&mut config, &mut order, 500, 1000, 0, 9);
    assert_eq!(r, Err(LimoError::OrderNotWithinFlashOperation));
    assert_eq!(order.remaining_input_amount, 1000);
}

#[test]
fn failed_fill_changes_nothing() {
    let mut order = test_order(1000, 2000);
    let mut config = test_config();
    config.host_fee_bps = 250;
    let r = take_order(&mut config, &mut order, 500, 10, 1, 999);
    assert_eq!(r, Err(LimoError::OrderOutputAmountInvalid));
    assert_eq!(order.remaining_input_amount, 1000);
    assert_eq!(order.filled_output_amount, 0);
    assert_eq!(order.number_of_fills, 0);
    assert_eq!(config.total_tip_amount, 0);
    assert_eq!(config.host_tip_amount, 0);
}

#[test]
fn overflowing_fill_accounting_fails_atomically() {
    let mut order = test_order(1000, 2000);
    order.filled_output_amount = u64::MAX - 10;
    let mut config = test_config();
    let r = take_order(&mut config, &mut order, 500, 0, 1, 1000);
    assert_eq!(r, Err(LimoError::MathOverflow));
    assert_eq!(order.filled_output_amount, u64::MAX - 10);
    assert_eq!(order.remaining_input_amount, 1000);

    let mut order = test_order(1000, 2000);
    let mut config = test_config();
    config.total_tip_amount = u64::MAX;
    let r = take_order(&mut config, &mut order, 500, 1, 1, 1000);
    assert_eq!(r, Err(LimoError::MathOverflow));
    assert_eq!(config.total_tip_amount, u64::MAX);
}

#[test]
fn exact_full_fill_at_minimum() {
    let mut order = test_order(7, 9);
    let mut config = test_config();
    // ceil(7 * 9 / 7) = 9.
    let r = take_order(&mut config, &mut order, 7, 0, 1, 9).unwrap();
    assert_eq!(r.output_to_send_to_maker, 9);
    assert_eq!(order.status, ORDER_STATUS_FILLED);
}
