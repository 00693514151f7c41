//! State transitions of the settlement core: order creation and updates,
//! fill computation and accounting, tip splitting, cancellation, host-tip
//! withdrawal and the configuration updates.
//!
//! Every operation either applies completely or returns an error leaving
//! all records exactly as they were; no partial mutation survives a
//! failure.

use vstd::prelude::*;

use crate::encoding::{le_u16, le_u64, read_pubkey, read_u16_le, read_u64_le};
use crate::errors::LimoError;
use crate::fraction::{
    host_tip_of, lemma_host_tip_bounds, lemma_min_output_bounds, maker_tip_of,
    min_output_for_fill, BPS_DENOMINATOR,
};
use crate::state::{
    GlobalConfig, Order, Pubkey, TakeOrderEffects, TipCalcs, UpdateGlobalConfigMode,
    ORDER_STATUS_FILLED,
};

verus! {

/// First gate a fill request fails on, if any: zero input, an inactive
/// order, more input than remains, or an output below the proportional
/// minimum, in that order.
pub open spec fn fill_gate_error(order: Order, input_amount: u64, output_amount: u64) -> Option<
    LimoError,
> {
    if input_amount == 0 {
        Some(LimoError::OrderInputAmountInvalid)
    } else if !order.is_active() {
        Some(LimoError::OrderNotActive)
    } else if input_amount > order.remaining_input_amount {
        Some(LimoError::OrderInputAmountTooLarge)
    } else if output_amount < min_output_for_fill(
        input_amount,
        order.expected_output_amount,
        order.initial_input_amount,
    ) {
        Some(LimoError::OrderOutputAmountInvalid)
    } else {
        None
    }
}

/// Computes the two transfer amounts of a fill without touching any
/// record. The taker receives exactly the requested input; the
/// caller-declared output must already meet the proportional minimum
/// `ceil(input * expected_output / initial_input)`, otherwise the fill is
/// rejected rather than silently corrected.
pub fn take_order_calcs(order: &Order, input_amount: u64, output_amount: u64) -> (r: Result<
    TakeOrderEffects,
    LimoError,
>)
    requires
        order.wf(),
    ensures
        match fill_gate_error(*order, input_amount, output_amount) {
            Some(e) => r == Err::<TakeOrderEffects, LimoError>(e),
            None => r == Ok::<TakeOrderEffects, LimoError>(
                TakeOrderEffects {
                    input_to_send_to_taker: input_amount,
                    output_to_send_to_maker: output_amount,
                },
            ),
        },
{
    if input_amount == 0 {
        return Err(LimoError::OrderInputAmountInvalid);
    }
    if order.status != crate::state::ORDER_STATUS_ACTIVE {
        return Err(LimoError::OrderNotActive);
    }
    if input_amount > order.remaining_input_amount {
        return Err(LimoError::OrderInputAmountTooLarge);
    }

    let input_to_send_to_taker = input_amount;
    proof {
        vstd::arithmetic::mul::lemma_mul_upper_bound(
            input_amount as int,
            u64::MAX as int,
            order.expected_output_amount as int,
            u64::MAX as int,
        );
    }
    let numerator: u128 = (input_to_send_to_taker as u128) * (order.expected_output_amount
        as u128);
    let initial: u128 = order.initial_input_amount as u128;
    let minimum_output_u128: u128 = (numerator + (initial - 1)) / initial;

    proof {
        lemma_min_output_bounds(
            input_amount,
            order.expected_output_amount,
            order.initial_input_amount,
        );
    }
    if minimum_output_u128 > u64::MAX as u128 {
        // Unreachable: the minimum never exceeds the order's expected
        // output, itself a u64. Kept as the defensive narrowing the
        // algorithm calls for.
        return Err(LimoError::MathOverflow);
    }
    let minimum_output_to_send_to_maker: u64 = minimum_output_u128 as u64;

    if output_amount < minimum_output_to_send_to_maker {
        return Err(LimoError::OrderOutputAmountInvalid);
    }

    Ok(TakeOrderEffects {
        input_to_send_to_taker,
        output_to_send_to_maker: output_amount,
    })
}

/// Splits a tip into the host's ceiling-rounded basis-point share and the
/// maker's remainder. The two shares always rebuild the whole tip.
pub fn tip_calcs(global_config: &GlobalConfig, tip_amount: u64) -> (r: Result<
    TipCalcs,
    LimoError,
>)
    requires
        global_config.wf(),
    ensures
        r == Ok::<TipCalcs, LimoError>(
            TipCalcs {
                host_tip: host_tip_of(tip_amount, global_config.host_fee_bps) as u64,
                maker_tip: maker_tip_of(tip_amount, global_config.host_fee_bps) as u64,
            },
        ),
        host_tip_of(tip_amount, global_config.host_fee_bps) + maker_tip_of(
            tip_amount,
            global_config.host_fee_bps,
        ) == tip_amount,
{
    proof {
        lemma_host_tip_bounds(tip_amount, global_config.host_fee_bps);
    }
    let numerator: u128 = (tip_amount as u128) * (global_config.host_fee_bps as u128);
    let denominator: u128 = BPS_DENOMINATOR as u128;
    let host_tip_u128: u128 = (numerator + (denominator - 1)) / denominator;
    let host_tip: u64 = host_tip_u128 as u64;

    let maker_tip: u64 = match tip_amount.checked_sub(host_tip) {
        Some(m) => m,
        None => {
            return Err(LimoError::MathOverflow);
        },
    };

    Ok(TipCalcs { host_tip, maker_tip })
}

/// Whether applying a fill of (`input_amount`, `output_amount`,
/// `tip_amount`) would overflow any running 64-bit total.
pub open spec fn fill_would_overflow(
    global_config: GlobalConfig,
    order: Order,
    output_amount: u64,
    tip_amount: u64,
) -> bool {
    ||| order.filled_output_amount + output_amount > u64::MAX
    ||| global_config.host_tip_amount + host_tip_of(tip_amount, global_config.host_fee_bps)
        > u64::MAX
    ||| order.tip_amount + maker_tip_of(tip_amount, global_config.host_fee_bps) > u64::MAX
    ||| global_config.total_tip_amount + tip_amount > u64::MAX
    ||| order.number_of_fills + 1 > u64::MAX
}

/// The order as a successful fill leaves it: input consumed, output and
/// maker tip credited, the fill counted, the timestamp stamped, and the
/// status advanced to `Filled` exactly when the input is exhausted and
/// the output target is met.
pub open spec fn order_after_fill(
    order: Order,
    input_amount: u64,
    output_amount: u64,
    tip_amount: u64,
    host_fee_bps: u16,
    current_timestamp: i64,
) -> Order {
    Order {
        remaining_input_amount: (order.remaining_input_amount - input_amount) as u64,
        filled_output_amount: (order.filled_output_amount + output_amount) as u64,
        tip_amount: (order.tip_amount + maker_tip_of(tip_amount, host_fee_bps)) as u64,
        number_of_fills: (order.number_of_fills + 1) as u64,
        status: if order.remaining_input_amount - input_amount == 0
            && order.filled_output_amount + output_amount >= order.expected_output_amount {
            ORDER_STATUS_FILLED
        } else {
            order.status
        },
        last_updated_timestamp: current_timestamp as u64,
        ..order
    }
}

/// The configuration as a successful fill leaves it: the host share and
/// the whole tip added to the running totals.
pub open spec fn config_after_fill(global_config: GlobalConfig, tip_amount: u64) -> GlobalConfig {
    GlobalConfig {
        host_tip_amount: (global_config.host_tip_amount + host_tip_of(
            tip_amount,
            global_config.host_fee_bps,
        )) as u64,
        total_tip_amount: (global_config.total_tip_amount + tip_amount) as u64,
        ..global_config
    }
}

/// Applies the accounting of one fill atomically: decrements the
/// remaining input, credits the output and the tip shares, counts the
/// fill, stamps the timestamp and advances the status. On any overflow
/// nothing at all is changed.
pub fn update_take_order_accounting_and_tips(
    global_config: &mut GlobalConfig,
    order: &mut Order,
    input_to_send_to_taker: u64,
    output_to_send_to_maker: u64,
    tip_amount: u64,
    current_timestamp: i64,
) -> (r: Result<(), LimoError>)
    requires
        old(global_config).wf(),
        old(order).wf(),
        current_timestamp >= 0,
        input_to_send_to_taker <= old(order).remaining_input_amount,
    ensures
        match r {
            Ok(()) => {
                &&& !fill_would_overflow(
                    *old(global_config),
                    *old(order),
                    output_to_send_to_maker,
                    tip_amount,
                )
                &&& *final(order) == order_after_fill(
                    *old(order),
                    input_to_send_to_taker,
                    output_to_send_to_maker,
                    tip_amount,
                    old(global_config).host_fee_bps,
                    current_timestamp,
                )
                &&& *final(global_config) == config_after_fill(*old(global_config), tip_amount)
                &&& final(order).wf()
                &&& final(global_config).wf()
            },
            Err(e) => {
                &&& e == LimoError::MathOverflow
                &&& fill_would_overflow(
                    *old(global_config),
                    *old(order),
                    output_to_send_to_maker,
                    tip_amount,
                )
                &&& *final(order) == *old(order)
                &&& *final(global_config) == *old(global_config)
            },
        },
{
    proof {
        lemma_host_tip_bounds(tip_amount, global_config.host_fee_bps);
    }
    let remaining_input_amount: u64 = order.remaining_input_amount - input_to_send_to_taker;
    let filled_output_amount: u64 = match order.filled_output_amount.checked_add(
        output_to_send_to_maker,
    ) {
        Some(v) => v,
        None => {
            return Err(LimoError::MathOverflow);
        },
    };

    let tips = match tip_calcs(global_config, tip_amount) {
        Ok(t) => t,
        Err(e) => {
            return Err(e);
        },
    };

    let host_tip_amount: u64 = match global_config.host_tip_amount.checked_add(tips.host_tip) {
        Some(v) => v,
        None => {
            return Err(LimoError::MathOverflow);
        },
    };
    let order_tip_amount: u64 = match order.tip_amount.checked_add(tips.maker_tip) {
        Some(v) => v,
        None => {
            return Err(LimoError::MathOverflow);
        },
    };
    let total_tip_amount: u64 = match global_config.total_tip_amount.checked_add(tip_amount) {
        Some(v) => v,
        None => {
            return Err(LimoError::MathOverflow);
        },
    };
    let number_of_fills: u64 = match order.number_of_fills.checked_add(1) {
        Some(v) => v,
        None => {
            return Err(LimoError::MathOverflow);
        },
    };

    order.remaining_input_amount = remaining_input_amount;
    order.filled_output_amount = filled_output_amount;
    order.tip_amount = order_tip_amount;
    order.number_of_fills = number_of_fills;
    if remaining_input_amount == 0 && filled_output_amount >= order.expected_output_amount {
        order.status = ORDER_STATUS_FILLED;
    }
    order.last_updated_timestamp = current_timestamp as u64;

    global_config.host_tip_amount = host_tip_amount;
    global_config.total_tip_amount = total_tip_amount;

    Ok(())
}

/// Fills an order outside any flash operation: computes the transfer
/// amounts, applies the accounting and reports the transfers the caller
/// must perform. Fails atomically: on any error both records are left
/// untouched.
pub fn take_order(
    global_config: &mut GlobalConfig,
    order: &mut Order,
    input_amount: u64,
    tip_amount: u64,
    current_timestamp: i64,
    output_amount: u64,
) -> (r: Result<TakeOrderEffects, LimoError>)
    requires
        old(global_config).wf(),
        old(order).wf(),
        current_timestamp >= 0,
    ensures
        match r {
            Ok(effects) => {
                &&& old(order).flash_ix_lock == 0
                &&& fill_gate_error(*old(order), input_amount, output_amount) is None
                &&& !fill_would_overflow(
                    *old(global_config),
                    *old(order),
                    output_amount,
                    tip_amount,
                )
                &&& effects == TakeOrderEffects {
                    input_to_send_to_taker: input_amount,
                    output_to_send_to_maker: output_amount,
                }
                &&& *final(order) == order_after_fill(
                    *old(order),
                    input_amount,
                    output_amount,
                    tip_amount,
                    old(global_config).host_fee_bps,
                    current_timestamp,
                )
                &&& *final(global_config) == config_after_fill(*old(global_config), tip_amount)
                &&& final(order).wf()
                &&& final(global_config).wf()
            },
            Err(e) => {
                &&& *final(order) == *old(order)
                &&& *final(global_config) == *old(global_config)
                &&& if old(order).flash_ix_lock != 0 {
                    e == LimoError::OrderWithinFlashOperation
                } else {
                    match fill_gate_error(*old(order), input_amount, output_amount) {
                        Some(g) => e == g,
                        None => e == LimoError::MathOverflow && fill_would_overflow(
                            *old(global_config),
                            *old(order),
                            output_amount,
                            tip_amount,
                        ),
                    }
                }
            },
        },
{
    if order.flash_ix_lock != 0 {
        return Err(LimoError::OrderWithinFlashOperation);
    }

    let effects = match take_order_calcs(order, input_amount, output_amount) {
        Ok(e) => e,
        Err(e) => {
            return Err(e);
        },
    };

    match update_take_order_accounting_and_tips(
        global_config,
        order,
        effects.input_to_send_to_taker,
        effects.output_to_send_to_maker,
        tip_amount,
        current_timestamp,
    ) {
        Ok(()) => {},
        Err(e) => {
            return Err(e);
        },
    }

    Ok(effects)
}

/// Starts a flash fill: computes the transfer amounts and takes the
/// order's exclusive flash lock, so the input can be released to the
/// taker before the output is collected by the paired end instruction.
/// No accounting is applied yet.
pub fn flash_withdraw_order_input(
    order: &mut Order,
    input_amount: u64,
    output_amount: u64,
) -> (r: Result<TakeOrderEffects, LimoError>)
    requires
        old(order).wf(),
    ensures
        match r {
            Ok(effects) => {
                &&& fill_gate_error(*old(order), input_amount, output_amount) is None
                &&& old(order).flash_ix_lock == 0
                &&& effects == TakeOrderEffects {
                    input_to_send_to_taker: input_amount,
                    output_to_send_to_maker: output_amount,
                }
                &&& *final(order) == Order { flash_ix_lock: 1, ..*old(order) }
                &&& final(order).wf()
            },
            Err(e) => {
                &&& *final(order) == *old(order)
                &&& match fill_gate_error(*old(order), input_amount, output_amount) {
                    Some(g) => e == g,
                    None => e == LimoError::OrderWithinFlashOperation && old(
                        order,
                    ).flash_ix_lock != 0,
                }
            },
        },
{
    let effects = match take_order_calcs(order, input_amount, output_amount) {
        Ok(e) => e,
        Err(e) => {
            return Err(e);
        },
    };

    if order.flash_ix_lock != 0 {
        return Err(LimoError::OrderWithinFlashOperation);
    }

    order.flash_ix_lock = 1;
    Ok(effects)
}

/// Ends a flash fill: recomputes the transfer amounts, applies the
/// accounting of the whole fill and releases the order's flash lock.
/// Fails atomically: on any error both records are left untouched.
pub fn flash_pay_order_output(
    global_config: &mut GlobalConfig,
    order: &mut Order,
    input_amount: u64,
    output_amount: u64,
    tip_amount: u64,
    current_timestamp: i64,
) -> (r: Result<TakeOrderEffects, LimoError>)
    requires
        old(global_config).wf(),
        old(order).wf(),
        current_timestamp >= 0,
    ensures
        match r {
            Ok(effects) => {
                &&& fill_gate_error(*old(order), input_amount, output_amount) is None
                &&& old(order).flash_ix_lock == 1
                &&& !fill_would_overflow(
                    *old(global_config),
                    *old(order),
                    output_amount,
                    tip_amount,
                )
                &&& effects == TakeOrderEffects {
                    input_to_send_to_taker: input_amount,
                    output_to_send_to_maker: output_amount,
                }
                &&& *final(order) == Order {
                    flash_ix_lock: 0,
                    ..order_after_fill(
                        *old(order),
                        input_amount,
                        output_amount,
                        tip_amount,
                        old(global_config).host_fee_bps,
                        current_timestamp,
                    )
                }
                &&& *final(global_config) == config_after_fill(*old(global_config), tip_amount)
                &&& final(order).wf()
                &&& final(global_config).wf()
            },
            Err(e) => {
                &&& *final(order) == *old(order)
                &&& *final(global_config) == *old(global_config)
                &&& match fill_gate_error(*old(order), input_amount, output_amount) {
                    Some(g) => e == g,
                    None => if old(order).flash_ix_lock != 1 {
                        e == LimoError::OrderNotWithinFlashOperation
                    } else {
                        e == LimoError::MathOverflow && fill_would_overflow(
                            *old(global_config),
                            *old(order),
                            output_amount,
                            tip_amount,
                        )
                    },
                }
            },
        },
{
    let effects = match take_order_calcs(order, input_amount, output_amount) {
        Ok(e) => e,
        Err(e) => {
            return Err(e);
        },
    };

    if order.flash_ix_lock != 1 {
        return Err(LimoError::OrderNotWithinFlashOperation);
    }

    match update_take_order_accounting_and_tips(
        global_config,
        order,
        effects.input_to_send_to_taker,
        effects.output_to_send_to_maker,
        tip_amount,
        current_timestamp,
    ) {
        Ok(()) => {},
        Err(e) => {
            return Err(e);
        },
    }

    order.flash_ix_lock = 0;
    Ok(effects)
}

/// Sets up a fresh configuration record: wires in the authorities and
/// zeroes the accounting totals. Fields carrying operational settings
/// (kill switches, fees, costs) keep whatever the record already held.
pub fn initialize_global_config(
    global_config: &mut GlobalConfig,
    admin_authority: Pubkey,
    pda_authority: Pubkey,
    pda_bump: u64,
    pda_authority_previous_lamports_balance: u64,
)
    ensures
        *final(global_config) == (GlobalConfig {
            emergency_mode: 0,
            pda_authority,
            pda_authority_bump: pda_bump,
            admin_authority,
            admin_authority_cached: admin_authority,
            total_tip_amount: 0,
            host_tip_amount: 0,
            pda_authority_previous_lamports_balance,
            ..*old(global_config)
        }),
{
    global_config.emergency_mode = 0;
    global_config.pda_authority = pda_authority;
    global_config.pda_authority_bump = pda_bump;
    global_config.admin_authority = admin_authority;
    global_config.admin_authority_cached = admin_authority;
    global_config.total_tip_amount = 0;
    global_config.host_tip_amount = 0;
    global_config.pda_authority_previous_lamports_balance =
        pda_authority_previous_lamports_balance;
}

/// First gate an order-creation request fails on, if any: zero amounts,
/// identical mints, or an unknown order type, in that order.
pub open spec fn create_order_gate_error(
    input_amount: u64,
    output_amount: u64,
    input_mint: Pubkey,
    output_mint: Pubkey,
    order_type: u8,
) -> Option<LimoError> {
    if input_amount == 0 {
        Some(LimoError::OrderInputAmountInvalid)
    } else if output_amount == 0 {
        Some(LimoError::OrderOutputAmountInvalid)
    } else if input_mint@ == output_mint@ {
        Some(LimoError::OrderSameMint)
    } else if order_type != crate::state::ORDER_TYPE_VANILLA {
        Some(LimoError::OrderTypeInvalid)
    } else {
        None
    }
}

/// Validates the caller-supplied parameters of an order creation before
/// any record is touched or any deposit moved.
pub fn check_create_order_params(
    input_amount: u64,
    output_amount: u64,
    input_mint: &Pubkey,
    output_mint: &Pubkey,
    order_type: u8,
) -> (r: Result<(), LimoError>)
    ensures
        match create_order_gate_error(
            input_amount,
            output_amount,
            *input_mint,
            *output_mint,
            order_type,
        ) {
            Some(e) => r == Err::<(), LimoError>(e),
            None => r == Ok::<(), LimoError>(()),
        },
{
    if input_amount == 0 {
        return Err(LimoError::OrderInputAmountInvalid);
    }
    if output_amount == 0 {
        return Err(LimoError::OrderOutputAmountInvalid);
    }
    if crate::state::pubkey_eq(input_mint, output_mint) {
        return Err(LimoError::OrderSameMint);
    }
    if crate::state::OrderType::try_from_u8(order_type).is_none() {
        return Err(LimoError::OrderTypeInvalid);
    }
    Ok(())
}

/// Initializes a freshly allocated order record from the maker's deposit:
/// the whole input is remaining, nothing is filled, the order is active
/// and unrestricted. Tip and flash fields keep the zeroes the fresh
/// record already held.
pub fn create_order(
    order: &mut Order,
    global_config: Pubkey,
    owner: Pubkey,
    input_amount: u64,
    output_amount: u64,
    input_mint: Pubkey,
    output_mint: Pubkey,
    input_mint_program_id: Pubkey,
    output_mint_program_id: Pubkey,
    order_type: u8,
    in_vault_bump: u8,
    current_timestamp: i64,
) -> (r: Result<(), LimoError>)
    requires
        old(order).wf(),
        current_timestamp >= 0,
    ensures
        r == Ok::<(), LimoError>(()),
        *final(order) == (Order {
            global_config,
            maker: owner,
            initial_input_amount: input_amount,
            remaining_input_amount: input_amount,
            expected_output_amount: output_amount,
            number_of_fills: 0,
            filled_output_amount: 0,
            input_mint,
            input_mint_program_id,
            output_mint,
            output_mint_program_id,
            status: crate::state::ORDER_STATUS_ACTIVE,
            order_type,
            in_vault_bump,
            last_updated_timestamp: current_timestamp as u64,
            counterparty: final(order).counterparty,
            permissionless: 0,
            ..*old(order)
        }),
        final(order).wf(),
        final(order).counterparty.is_zero(),
{
    order.global_config = global_config;
    order.initial_input_amount = input_amount;
    order.remaining_input_amount = input_amount;
    order.expected_output_amount = output_amount;
    order.number_of_fills = 0;
    order.filled_output_amount = 0;
    order.input_mint = input_mint;
    order.input_mint_program_id = input_mint_program_id;
    order.output_mint = output_mint;
    order.output_mint_program_id = output_mint_program_id;
    order.maker = owner;
    order.status = crate::state::ORDER_STATUS_ACTIVE;
    order.order_type = order_type;
    order.in_vault_bump = in_vault_bump;
    order.last_updated_timestamp = current_timestamp as u64;
    order.counterparty = Pubkey::zeroed();
    order.permissionless = 0;

    Ok(())
}

/// Applies a maker-side order update: either the permissionless flag
/// (one byte) or the exclusive counterparty address (32 bytes). A payload
/// of the wrong size changes nothing.
pub fn update_order(order: &mut Order, mode: crate::state::UpdateOrderMode, value: &[u8]) -> (r:
    Result<(), LimoError>)
    ensures
        match r {
            Ok(()) => match mode {
                crate::state::UpdateOrderMode::UpdatePermissionless => {
                    &&& value@.len() == 1
                    &&& *final(order) == (Order { permissionless: value@[0], ..*old(order) })
                },
                crate::state::UpdateOrderMode::UpdateCounterparty => {
                    &&& value@.len() == 32
                    &&& final(order).counterparty@ == value@.subrange(0, 32)
                    &&& *final(order) == (Order {
                        counterparty: final(order).counterparty,
                        ..*old(order)
                    })
                },
            },
            Err(e) => {
                &&& e == LimoError::InvalidParameterType
                &&& *final(order) == *old(order)
                &&& match mode {
                    crate::state::UpdateOrderMode::UpdatePermissionless => value@.len() != 1,
                    crate::state::UpdateOrderMode::UpdateCounterparty => value@.len() != 32,
                }
            },
        },
{
    match mode {
        crate::state::UpdateOrderMode::UpdatePermissionless => {
            if value.len() != 1 {
                return Err(LimoError::InvalidParameterType);
            }
            order.permissionless = value[0];
        },
        crate::state::UpdateOrderMode::UpdateCounterparty => {
            if value.len() != 32 {
                return Err(LimoError::InvalidParameterType);
            }
            order.counterparty = read_pubkey(value);
        },
    }
    Ok(())
}

/// Cancels an order and forfeits its accounting record: allowed only from
/// `Active` or `Filled`, once the close cooldown has elapsed and no flash
/// fill is outstanding. The order's accrued tip leaves the running total,
/// since the maker is paid it directly by the caller.
pub fn close_order_and_claim_tip(
    order: &mut Order,
    global_config: &mut GlobalConfig,
    current_timestamp: u64,
) -> (r: Result<(), LimoError>)
    requires
        old(order).wf(),
        old(global_config).wf(),
        // The deployment-wide ledger invariant: the running total covers
        // the host share plus this live order's accrued tip.
        old(global_config).host_tip_amount + old(order).tip_amount <= old(
            global_config,
        ).total_tip_amount,
    ensures
        match r {
            Ok(()) => {
                &&& old(order).is_active() || old(order).is_filled()
                &&& current_timestamp >= old(order).last_updated_timestamp + old(
                    global_config,
                ).order_close_delay_seconds
                &&& old(order).flash_ix_lock == 0
                &&& *final(order) == (Order {
                    status: crate::state::ORDER_STATUS_CANCELLED,
                    ..*old(order)
                })
                &&& *final(global_config) == (GlobalConfig {
                    total_tip_amount: (old(global_config).total_tip_amount - old(
                        order,
                    ).tip_amount) as u64,
                    ..*old(global_config)
                })
                &&& final(order).wf()
                &&& final(global_config).wf()
            },
            Err(e) => {
                &&& *final(order) == *old(order)
                &&& *final(global_config) == *old(global_config)
                &&& if !(old(order).is_active() || old(order).is_filled()) {
                    e == LimoError::OrderCanNotBeCanceled
                } else if current_timestamp < old(order).last_updated_timestamp + old(
                    global_config,
                ).order_close_delay_seconds {
                    e == LimoError::NotEnoughTimePassedSinceLastUpdate
                } else {
                    e == LimoError::OrderWithinFlashOperation && old(order).flash_ix_lock != 0
                }
            },
        },
{
    if !(order.status == crate::state::ORDER_STATUS_ACTIVE || order.status
        == crate::state::ORDER_STATUS_FILLED) {
        return Err(LimoError::OrderCanNotBeCanceled);
    }

    let close_threshold = order.last_updated_timestamp.checked_add(
        global_config.order_close_delay_seconds,
    );
    let cooldown_elapsed = match close_threshold {
        Some(t) => current_timestamp >= t,
        // The mathematical threshold exceeds u64::MAX, so no observable
        // timestamp reaches it.
        None => false,
    };
    if !cooldown_elapsed {
        return Err(LimoError::NotEnoughTimePassedSinceLastUpdate);
    }

    if order.flash_ix_lock != 0 {
        return Err(LimoError::OrderWithinFlashOperation);
    }

    order.status = crate::state::ORDER_STATUS_CANCELLED;
    global_config.total_tip_amount = global_config.total_tip_amount - order.tip_amount;

    Ok(())
}

/// Withdraws the whole accrued host tip: zeroes the host share and takes
/// it out of the running total, provided the custodial balance covers it.
/// Returns the amount the caller must transfer out.
pub fn withdraw_host_tip(global_config: &mut GlobalConfig, pda_authority_balance: u64) -> (r:
    Result<u64, LimoError>)
    requires
        old(global_config).wf(),
    ensures
        match r {
            Ok(amount) => {
                &&& pda_authority_balance >= old(global_config).host_tip_amount
                &&& amount == old(global_config).host_tip_amount
                &&& *final(global_config) == (GlobalConfig {
                    total_tip_amount: (old(global_config).total_tip_amount - old(
                        global_config,
                    ).host_tip_amount) as u64,
                    host_tip_amount: 0,
                    ..*old(global_config)
                })
                &&& final(global_config).wf()
            },
            Err(e) => {
                &&& e == LimoError::InvalidHostTipBalance
                &&& pda_authority_balance < old(global_config).host_tip_amount
                &&& *final(global_config) == *old(global_config)
            },
        },
{
    if pda_authority_balance < global_config.host_tip_amount {
        return Err(LimoError::InvalidHostTipBalance);
    }
    let host_tip_amount = global_config.host_tip_amount;
    global_config.total_tip_amount = global_config.total_tip_amount - host_tip_amount;
    global_config.host_tip_amount = 0;
    Ok(host_tip_amount)
}

/// Reconciles the custodial native balance after a tip-moving operation:
/// the balance must have grown by at least the tip just credited and must
/// still cover the whole recorded total; only then is the balance
/// snapshot advanced.
pub fn validate_pda_authority_balance_and_update_accounting(
    global_config: &mut GlobalConfig,
    pda_authority_balance: u64,
    tip: u64,
) -> (r: Result<(), LimoError>)
    ensures
        match r {
            Ok(()) => {
                &&& pda_authority_balance >= old(
                    global_config,
                ).pda_authority_previous_lamports_balance + tip
                &&& pda_authority_balance >= old(global_config).total_tip_amount
                &&& *final(global_config) == (GlobalConfig {
                    pda_authority_previous_lamports_balance: pda_authority_balance,
                    ..*old(global_config)
                })
            },
            Err(e) => {
                &&& *final(global_config) == *old(global_config)
                &&& if pda_authority_balance < old(
                    global_config,
                ).pda_authority_previous_lamports_balance + tip {
                    e == LimoError::InvalidTipTransferAmount
                } else {
                    e == LimoError::InvalidTipBalance && pda_authority_balance < old(
                        global_config,
                    ).total_tip_amount
                }
            },
        },
{
    let covered = if pda_authority_balance < global_config.pda_authority_previous_lamports_balance
    {
        false
    } else {
        pda_authority_balance - global_config.pda_authority_previous_lamports_balance >= tip
    };
    if !covered {
        return Err(LimoError::InvalidTipTransferAmount);
    }
    if pda_authority_balance < global_config.total_tip_amount {
        return Err(LimoError::InvalidTipBalance);
    }

    global_config.pda_authority_previous_lamports_balance = pda_authority_balance;

    Ok(())
}

/// The configuration as a flag update of `mode` to `value` leaves it;
/// the deprecated permissionless-taking mode changes nothing.
pub open spec fn config_after_flag_update(
    global_config: GlobalConfig,
    mode: UpdateGlobalConfigMode,
    value: u8,
) -> GlobalConfig {
    match mode {
        UpdateGlobalConfigMode::UpdateEmergencyMode => GlobalConfig {
            emergency_mode: value,
            ..global_config
        },
        UpdateGlobalConfigMode::UpdateFlashTakeOrderBlocked => GlobalConfig {
            flash_take_order_blocked: value,
            ..global_config
        },
        UpdateGlobalConfigMode::UpdateBlockNewOrders => GlobalConfig {
            new_orders_blocked: value,
            ..global_config
        },
        UpdateGlobalConfigMode::UpdateBlockOrderTaking => GlobalConfig {
            orders_taking_blocked: value,
            ..global_config
        },
        _ => global_config,
    }
}

/// Sets one boolean kill switch. Only 0 and 1 are accepted; the
/// deprecated permissionless-taking mode is acknowledged without effect.
fn update_global_config_flag(
    global_config: &mut GlobalConfig,
    mode: UpdateGlobalConfigMode,
    value: u8,
) -> (r: Result<(), LimoError>)
    ensures
        match r {
            Ok(()) => {
                &&& value == 0 || value == 1
                &&& (mode matches UpdateGlobalConfigMode::UpdateEmergencyMode) || (
                mode matches UpdateGlobalConfigMode::UpdateFlashTakeOrderBlocked) || (
                mode matches UpdateGlobalConfigMode::UpdateBlockNewOrders) || (
                mode matches UpdateGlobalConfigMode::UpdateBlockOrderTaking) || (
                mode matches UpdateGlobalConfigMode::UpdateOrderTakingPermissionless)
                &&& *final(global_config) == config_after_flag_update(
                    *old(global_config),
                    mode,
                    value,
                )
            },
            Err(e) => {
                &&& *final(global_config) == *old(global_config)
                &&& if value != 0 && value != 1 {
                    e == LimoError::InvalidFlag
                } else {
                    &&& e == LimoError::InvalidConfigOption
                    &&& !((mode matches UpdateGlobalConfigMode::UpdateEmergencyMode) || (
                    mode matches UpdateGlobalConfigMode::UpdateFlashTakeOrderBlocked) || (
                    mode matches UpdateGlobalConfigMode::UpdateBlockNewOrders) || (
                    mode matches UpdateGlobalConfigMode::UpdateBlockOrderTaking) || (
                    mode matches UpdateGlobalConfigMode::UpdateOrderTakingPermissionless))
                }
            },
        },
{
    if value != 0 && value != 1 {
        return Err(LimoError::InvalidFlag);
    }

    match mode {
        UpdateGlobalConfigMode::UpdateEmergencyMode => {
            global_config.emergency_mode = value;
        },
        UpdateGlobalConfigMode::UpdateFlashTakeOrderBlocked => {
            global_config.flash_take_order_blocked = value;
        },
        UpdateGlobalConfigMode::UpdateBlockNewOrders => {
            global_config.new_orders_blocked = value;
        },
        UpdateGlobalConfigMode::UpdateBlockOrderTaking => {
            global_config.orders_taking_blocked = value;
        },
        UpdateGlobalConfigMode::UpdateOrderTakingPermissionless => {
            // Deprecated switch: accepted and ignored.
        },
        _ => {
            return Err(LimoError::InvalidConfigOption);
        },
    }

    Ok(())
}

/// Stages a new admin authority; the only address-valued update mode.
fn update_global_config_pubkey(
    global_config: &mut GlobalConfig,
    mode: UpdateGlobalConfigMode,
    value: Pubkey,
) -> (r: Result<(), LimoError>)
    ensures
        match r {
            Ok(()) => {
                &&& mode matches UpdateGlobalConfigMode::UpdateAdminAuthorityCached
                &&& *final(global_config) == (GlobalConfig {
                    admin_authority_cached: value,
                    ..*old(global_config)
                })
            },
            Err(e) => {
                &&& e == LimoError::InvalidConfigOption
                &&& !(mode matches UpdateGlobalConfigMode::UpdateAdminAuthorityCached)
                &&& *final(global_config) == *old(global_config)
            },
        },
{
    match mode {
        UpdateGlobalConfigMode::UpdateAdminAuthorityCached => {
            global_config.admin_authority_cached = value;
        },
        _ => {
            return Err(LimoError::InvalidConfigOption);
        },
    }
    Ok(())
}

/// Applies one admin configuration update from its fixed-size value
/// buffer: a kill-switch flag, the host fee, the close delay, the staged
/// admin authority, or one of the maker-side cost settings. An invalid
/// flag or an out-of-range fee changes nothing.
pub fn update_global_config(
    global_config: &mut GlobalConfig,
    mode: UpdateGlobalConfigMode,
    value: &[u8],
) -> (r: Result<(), LimoError>)
    requires
        old(global_config).wf(),
        value@.len() == crate::encoding::UPDATE_GLOBAL_CONFIG_BYTE_SIZE,
    ensures
        final(global_config).wf(),
        match r {
            Ok(()) => match mode {
                UpdateGlobalConfigMode::UpdateEmergencyMode
                | UpdateGlobalConfigMode::UpdateFlashTakeOrderBlocked
                | UpdateGlobalConfigMode::UpdateBlockNewOrders
                | UpdateGlobalConfigMode::UpdateBlockOrderTaking
                | UpdateGlobalConfigMode::UpdateOrderTakingPermissionless => {
                    &&& value@[0] == 0 || value@[0] == 1
                    &&& *final(global_config) == config_after_flag_update(
                        *old(global_config),
                        mode,
                        value@[0],
                    )
                },
                UpdateGlobalConfigMode::UpdateHostFeeBps => {
                    &&& le_u16(value@) <= 10000
                    &&& *final(global_config) == (GlobalConfig {
                        host_fee_bps: le_u16(value@),
                        ..*old(global_config)
                    })
                },
                UpdateGlobalConfigMode::UpdateOrderCloseDelaySeconds => *final(global_config)
                    == (GlobalConfig {
                    order_close_delay_seconds: le_u64(value@),
                    ..*old(global_config)
                }),
                UpdateGlobalConfigMode::UpdateAdminAuthorityCached => {
                    &&& final(global_config).admin_authority_cached@ == value@.subrange(0, 32)
                    &&& *final(global_config) == (GlobalConfig {
                        admin_authority_cached: final(global_config).admin_authority_cached,
                        ..*old(global_config)
                    })
                },
                UpdateGlobalConfigMode::UpdateTxnFeeCost => *final(global_config)
                    == (GlobalConfig { txn_fee_cost: le_u64(value@), ..*old(global_config) }),
                UpdateGlobalConfigMode::UpdateAtaCreationCost => *final(global_config)
                    == (GlobalConfig {
                    ata_creation_cost: le_u64(value@),
                    ..*old(global_config)
                }),
            },
            Err(e) => {
                &&& *final(global_config) == *old(global_config)
                &&& match mode {
                    UpdateGlobalConfigMode::UpdateEmergencyMode
                    | UpdateGlobalConfigMode::UpdateFlashTakeOrderBlocked
                    | UpdateGlobalConfigMode::UpdateBlockNewOrders
                    | UpdateGlobalConfigMode::UpdateBlockOrderTaking
                    | UpdateGlobalConfigMode::UpdateOrderTakingPermissionless => e
                        == LimoError::InvalidFlag && value@[0] != 0 && value@[0] != 1,
                    UpdateGlobalConfigMode::UpdateHostFeeBps => e == LimoError::InvalidHostFee
                        && le_u16(value@) > 10000,
                    _ => false,
                }
            },
        },
{
    match mode {
        UpdateGlobalConfigMode::UpdateEmergencyMode
        | UpdateGlobalConfigMode::UpdateFlashTakeOrderBlocked
        | UpdateGlobalConfigMode::UpdateBlockNewOrders
        | UpdateGlobalConfigMode::UpdateBlockOrderTaking
        | UpdateGlobalConfigMode::UpdateOrderTakingPermissionless => {
            update_global_config_flag(global_config, mode, value[0])
        },
        UpdateGlobalConfigMode::UpdateHostFeeBps => {
            let fee = read_u16_le(value);
            if fee > 10000 {
                return Err(LimoError::InvalidHostFee);
            }
            global_config.host_fee_bps = fee;
            Ok(())
        },
        UpdateGlobalConfigMode::UpdateOrderCloseDelaySeconds => {
            global_config.order_close_delay_seconds = read_u64_le(value);
            Ok(())
        },
        UpdateGlobalConfigMode::UpdateAdminAuthorityCached => {
            update_global_config_pubkey(global_config, mode, read_pubkey(value))
        },
        UpdateGlobalConfigMode::UpdateTxnFeeCost => {
            global_config.txn_fee_cost = read_u64_le(value);
            Ok(())
        },
        UpdateGlobalConfigMode::UpdateAtaCreationCost => {
            global_config.ata_creation_cost = read_u64_le(value);
            Ok(())
        },
    }
}

/// Output amount a flash end settles at, from the taker's output balance
/// movement since the flash start: an unchanged balance settles at the
/// declared minimum, a grown balance at the smaller of the growth and
/// the declared minimum.
pub fn flash_end_output_amount(
    taker_output_ata_amount: u64,
    flash_start_taker_output_balance: u64,
    min_output_amount: u64,
) -> (r: u64)
    requires
        taker_output_ata_amount >= flash_start_taker_output_balance,
    ensures
        r == ({
            let diff = taker_output_ata_amount - flash_start_taker_output_balance;
            if diff == 0 {
                min_output_amount as int
            } else if diff < min_output_amount {
                diff
            } else {
                min_output_amount as int
            }
        }),
{
    let taker_output_ata_balance_diff = taker_output_ata_amount
        - flash_start_taker_output_balance;
    if taker_output_ata_balance_diff == 0 {
        min_output_amount
    } else if taker_output_ata_balance_diff < min_output_amount {
        taker_output_ata_balance_diff
    } else {
        min_output_amount
    }
}

/// Completes the two-step admin rotation: the staged authority becomes
/// the admin authority.
pub fn update_global_config_admin(global_config: &mut GlobalConfig)
    ensures
        *final(global_config) == (GlobalConfig {
            admin_authority: old(global_config).admin_authority_cached,
            ..*old(global_config)
        }),
{
    global_config.admin_authority = global_config.admin_authority_cached;
}

} // verus!
