use limo::constraints::{
    check_permission_and_get_tip, create_new_orders_disabled, emergency_mode_disabled,
    flash_taking_orders_disabled, is_counterparty_matching, taking_orders_disabled,
};
use limo::errors::LimoError;
use limo::operations::{
    check_create_order_params, close_order_and_claim_tip, create_order, flash_end_output_amount,
    take_order, update_order,
};
use limo::state::{
    GlobalConfig, Order, OrderStatus, OrderType, Pubkey, UpdateOrderMode, ORDER_STATUS_ACTIVE,
    ORDER_STATUS_CANCELLED, ORDER_STATUS_FILLED,
};

fn pk(tag: u8) -> Pubkey {
    let mut bytes = [0u8; 32];
    bytes[0] = tag;
    Pubkey::new(bytes)
}

fn created_order() -> Order {
    let mut order = Order::default();
    create_order(
        &mut order,
        pk(2),
        pk(1),
        1000,
        2000,
        pk(3),
        pk(4),
        pk(5),
        pk(6),
        0,
        255,
        1_700_000_000,
    )
    .unwrap();
    order
}

#[test]
fn create_order_initializes_the_record() {
    let order = created_order();
    assert_eq!(order.maker, pk(1));
    assert_eq!(order.global_config, pk(2));
    assert_eq!(order.input_mint, pk(3));
    assert_eq!(order.output_mint, pk(4));
    assert_eq!(order.initial_input_amount, 1000);
    assert_eq!(order.remaining_input_amount, 1000);
    assert_eq!(order.expected_output_amount, 2000);
    assert_eq!(order.filled_output_amount, 0);
    assert_eq!(order.number_of_fills, 0);
    assert_eq!(order.status, ORDER_STATUS_ACTIVE);
    assert_eq!(order.permissionless, 0);
    assert_eq!(order.last_updated_timestamp, 1_700_000_000);
    assert!(order.counterparty.is_zeroed());
}

#[test]
fn create_order_params_are_gated() {
    assert_eq!(
        check_create_order_params(0, 10, &pk(3), &pk(4), 0),
        Err(LimoError::OrderInputAmountInvalid)
    );
    assert_eq!(
        check_create_order_params(10, 0, &pk(3), &pk(4), 0),
        Err(LimoError::OrderOutputAmountInvalid)
    );
    assert_eq!(
        check_create_order_params(10, 10, &pk(3), &pk(3), 0),
        Err(LimoError::OrderSameMint)
    );
    assert_eq!(
        check_create_order_params(10, 10, &pk(3), &pk(4), 1),
        Err(LimoError::OrderTypeInvalid)
    );
    assert_eq!(check_create_order_params(10, 10, &pk(3), &pk(4), 0), Ok(()));
}

#[test]
fn update_order_sets_permissionless_flag() {
    let mut order = created_order();
    update_order(&mut order, UpdateOrderMode::UpdatePermissionless, &[1u8]).unwrap();
    assert_eq!(order.permissionless, 1);

    let r = update_order(&mut order, UpdateOrderMode::UpdatePermissionless, &[1u8, 0]);
    assert_eq!(r, Err(LimoError::InvalidParameterType));
}

#[test]
fn update_order_sets_counterparty() {
    let mut order = created_order();
    let counterparty = pk(77);
    update_order(
        &mut order,
        UpdateOrderMode::UpdateCounterparty,
        &counterparty.bytes,
    )
    .unwrap();
    assert_eq!(order.counterparty, counterparty);

    let r = update_order(&mut order, UpdateOrderMode::UpdateCounterparty, &[0u8; 31]);
    assert_eq!(r, Err(LimoError::InvalidParameterType));
}

#[test]
fn close_requires_cooldown() {
    let mut order = created_order();
    let mut config = GlobalConfig::default();
    config.order_close_delay_seconds = 3600;
    let r = close_order_and_claim_tip(&mut order, &mut config, 1_700_000_100);
    assert_eq!(r, Err(LimoError::NotEnoughTimePassedSinceLastUpdate));
    assert_eq!(order.status, ORDER_STATUS_ACTIVE);

    let r = close_order_and_claim_tip(&mut order, &mut config, 1_700_003_600);
    assert_eq!(r, Ok(()));
    assert_eq!(order.status, ORDER_STATUS_CANCELLED);
}

#[test]
fn close_requires_no_flash_lock() {
    let mut order = created_order();
    order.flash_ix_lock = 1;
    let mut config = GlobalConfig::default();
    let r = close_order_and_claim_tip(&mut order, &mut config, 1_800_000_000);
    assert_eq!(r, Err(LimoError::OrderWithinFlashOperation));
}

#[test]
fn cancelled_order_cannot_close_again() {
    let mut order = created_order();
    order.status = ORDER_STATUS_CANCELLED;
    let mut config = GlobalConfig::default();
    let r = close_order_and_claim_tip(&mut order, &mut config, 1_800_000_000);
    assert_eq!(r, Err(LimoError::OrderCanNotBeCanceled));
}

#[test]
fn close_forfeits_accrued_tip_from_total() {
    let mut order = created_order();
    order.permissionless = 1;
    let mut config = GlobalConfig::default();
    config.host_fee_bps = 250;
    take_order(&mut config, &mut order, 500, 101, 1_700_000_001, 1000).unwrap();
    assert_eq!(config.total_tip_amount, 101);
    assert_eq!(order.tip_amount, 98);

    close_order_and_claim_tip(&mut order, &mut config, 1_900_000_000).unwrap();
    assert_eq!(config.total_tip_amount, 3);
    assert_eq!(config.total_tip_amount, config.host_tip_amount);
}

#[test]
fn filled_order_can_be_closed() {
    let mut order = created_order();
    let mut config = GlobalConfig::default();
    take_order(&mut config, &mut order, 1000, 0, 1_700_000_001, 2000).unwrap();
    assert_eq!(order.status, ORDER_STATUS_FILLED);
    let r = close_order_and_claim_tip(&mut order, &mut config, 1_900_000_000);
    assert_eq!(r, Ok(()));
    assert_eq!(order.status, ORDER_STATUS_CANCELLED);
}

#[test]
fn kill_switches_block_their_operations() {
    let mut config = GlobalConfig::default();
    assert_eq!(emergency_mode_disabled(&config), Ok(()));
    assert_eq!(create_new_orders_disabled(&config), Ok(()));
    assert_eq!(taking_orders_disabled(&config), Ok(()));
    assert_eq!(flash_taking_orders_disabled(&config), Ok(()));

    config.emergency_mode = 1;
    config.new_orders_blocked = 1;
    config.orders_taking_blocked = 1;
    config.flash_take_order_blocked = 1;
    assert_eq!(
        emergency_mode_disabled(&config),
        Err(LimoError::EmergencyModeEnabled)
    );
    assert_eq!(
        create_new_orders_disabled(&config),
        Err(LimoError::CreatingNewOrdersBlocked)
    );
    assert_eq!(
        taking_orders_disabled(&config),
        Err(LimoError::OrderTakingBlocked)
    );
    assert_eq!(
        flash_taking_orders_disabled(&config),
        Err(LimoError::FlashTakeOrderBlocked)
    );
}

#[test]
fn permission_gate_requires_authorization() {
    let zero = Pubkey::zeroed();
    // Neither permissionless nor externally authorized.
    let r = check_permission_and_get_tip(false, false, &zero, &pk(1), 50, 70);
    assert_eq!(r, Err(LimoError::PermissionRequiredPermissionlessNotEnabled));
    // Permissionless taking uses the taker-declared tip.
    let r = check_permission_and_get_tip(true, false, &zero, &pk(1), 50, 70);
    assert_eq!(r, Ok(50));
    // External authorization uses the externally supplied fee.
    let r = check_permission_and_get_tip(false, true, &zero, &pk(1), 50, 70);
    assert_eq!(r, Ok(70));
}

#[test]
fn counterparty_restriction_limits_takers() {
    let zero = Pubkey::zeroed();
    assert!(is_counterparty_matching(&zero, &pk(1)));
    assert!(is_counterparty_matching(&pk(1), &pk(1)));
    assert!(!is_counterparty_matching(&pk(2), &pk(1)));

    let r = check_permission_and_get_tip(true, false, &pk(2), &pk(1), 50, 0);
    assert_eq!(r, Err(LimoError::CounterpartyDisallowed));
    let r = check_permission_and_get_tip(true, false, &pk(1), &pk(1), 50, 0);
    assert_eq!(r, Ok(50));
}

#[test]
fn flash_end_output_tracks_balance_movement() {
    // No balance movement: the declared minimum stands.
    assert_eq!(flash_end_output_amount(500, 500, 1000), 1000);
    // Movement below the minimum caps the output at the movement.
    assert_eq!(flash_end_output_amount(900, 500, 1000), 400);
    // Movement above the minimum settles at the minimum.
    assert_eq!(flash_end_output_amount(2000, 500, 1000), 1000);
}

#[test]
fn status_and_type_tags_round_trip() {
    assert_eq!(OrderStatus::from_u8(0), Some(OrderStatus::Active));
    assert_eq!(OrderStatus::from_u8(1), Some(OrderStatus::Filled));
    assert_eq!(OrderStatus::from_u8(2), Some(OrderStatus::Cancelled));
    assert_eq!(OrderStatus::from_u8(3), None);
    assert_eq!(OrderStatus::Filled.to_u8(), 1);

    assert_eq!(OrderType::try_from_u8(0), Some(OrderType::Vanilla));
    assert!(OrderType::try_from_u8(1).is_none());
    assert_eq!(OrderType::Vanilla.to_u8(), 0);

    assert_eq!(UpdateOrderMode::try_from_u16(0), Some(UpdateOrderMode::UpdatePermissionless));
    assert_eq!(UpdateOrderMode::try_from_u16(1), Some(UpdateOrderMode::UpdateCounterparty));
    assert!(UpdateOrderMode::try_from_u16(2).is_none());
}
