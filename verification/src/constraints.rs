//! Pre-operation gates: the configuration kill switches, the taker
//! permission and counterparty checks, and the top-level-invocation check
//! that keeps the flash entry points out of nested calls.

use vstd::prelude::*;

use crate::errors::LimoError;
use crate::state::{pubkey_eq, GlobalConfig, Pubkey};

verus! {

/// Call-stack height of a top-level transaction instruction; anything
/// deeper is a nested cross-program invocation.
pub const TRANSACTION_LEVEL_STACK_HEIGHT: u64 = 1;

/// Passes only while the emergency kill switch is clear.
pub fn emergency_mode_disabled(global_config: &GlobalConfig) -> (r: Result<(), LimoError>)
    ensures
        match r {
            Ok(()) => global_config.emergency_mode == 0,
            Err(e) => e == LimoError::EmergencyModeEnabled && global_config.emergency_mode > 0,
        },
{
    if global_config.emergency_mode > 0 {
        return Err(LimoError::EmergencyModeEnabled);
    }
    Ok(())
}

/// Passes only while flash fills are not blocked.
pub fn flash_taking_orders_disabled(global_config: &GlobalConfig) -> (r: Result<(), LimoError>)
    ensures
        match r {
            Ok(()) => global_config.flash_take_order_blocked == 0,
            Err(e) => e == LimoError::FlashTakeOrderBlocked
                && global_config.flash_take_order_blocked > 0,
        },
{
    if global_config.flash_take_order_blocked > 0 {
        return Err(LimoError::FlashTakeOrderBlocked);
    }
    Ok(())
}

/// Passes only while order creation is not blocked.
pub fn create_new_orders_disabled(global_config: &GlobalConfig) -> (r: Result<(), LimoError>)
    ensures
        match r {
            Ok(()) => global_config.new_orders_blocked == 0,
            Err(e) => e == LimoError::CreatingNewOrdersBlocked
                && global_config.new_orders_blocked > 0,
        },
{
    if global_config.new_orders_blocked > 0 {
        return Err(LimoError::CreatingNewOrdersBlocked);
    }
    Ok(())
}

/// Passes only while order taking is not blocked.
pub fn taking_orders_disabled(global_config: &GlobalConfig) -> (r: Result<(), LimoError>)
    ensures
        match r {
            Ok(()) => global_config.orders_taking_blocked == 0,
            Err(e) => e == LimoError::OrderTakingBlocked
                && global_config.orders_taking_blocked > 0,
        },
{
    if global_config.orders_taking_blocked > 0 {
        return Err(LimoError::OrderTakingBlocked);
    }
    Ok(())
}

/// Whether `taker` may fill an order restricted to `counterparty`: the
/// restriction is either unset (all-zero) or names the taker.
pub open spec fn counterparty_matches(counterparty: Pubkey, taker: Pubkey) -> bool {
    counterparty.is_zero() || counterparty@ == taker@
}

pub fn is_counterparty_matching(counterparty: &Pubkey, taker: &Pubkey) -> (r: bool)
    ensures
        r == counterparty_matches(*counterparty, *taker),
{
    counterparty.is_zeroed() || pubkey_eq(counterparty, taker)
}

/// Authorizes a taker and selects the tip for one fill. A fill needs
/// either a permissionless order or external authorization; an exclusive
/// counterparty restriction must name the taker. The tip is the
/// externally supplied fee when the fill is authorized externally,
/// otherwise the taker-declared permissionless tip.
pub fn check_permission_and_get_tip(
    is_order_permissionless: bool,
    is_filled_by_per: bool,
    order_counterparty: &Pubkey,
    taker: &Pubkey,
    tip_amount_permissionless_taking: u64,
    express_relay_fees: u64,
) -> (r: Result<u64, LimoError>)
    ensures
        match r {
            Ok(tip) => {
                &&& is_order_permissionless || is_filled_by_per
                &&& counterparty_matches(*order_counterparty, *taker)
                &&& tip == if is_filled_by_per {
                    express_relay_fees
                } else {
                    tip_amount_permissionless_taking
                }
            },
            Err(e) => if !is_order_permissionless && !is_filled_by_per {
                e == LimoError::PermissionRequiredPermissionlessNotEnabled
            } else {
                e == LimoError::CounterpartyDisallowed && !counterparty_matches(
                    *order_counterparty,
                    *taker,
                )
            },
        },
{
    if !is_order_permissionless && !is_filled_by_per {
        return Err(LimoError::PermissionRequiredPermissionlessNotEnabled);
    }

    if !is_counterparty_matching(order_counterparty, taker) {
        return Err(LimoError::CounterpartyDisallowed);
    }

    let tip = if is_filled_by_per {
        express_relay_fees
    } else {
        tip_amount_permissionless_taking
    };

    Ok(tip)
}

/// Rejects the invocation unless it is the transaction's own top-level
/// instruction: the instruction list must report this program at the
/// current position and the call stack must be at transaction level.
/// This blocks nested calls from fabricating a flash bracketing.
pub fn check_cpi_not_allowed(
    current_ix_program_id: &Pubkey,
    own_program_id: &Pubkey,
    stack_height: u64,
) -> (r: Result<(), LimoError>)
    ensures
        match r {
            Ok(()) => current_ix_program_id@ == own_program_id@ && stack_height
                <= TRANSACTION_LEVEL_STACK_HEIGHT,
            Err(e) => {
                &&& e == LimoError::CPINotAllowed
                &&& current_ix_program_id@ != own_program_id@ || stack_height
                    > TRANSACTION_LEVEL_STACK_HEIGHT
            },
        },
{
    if !pubkey_eq(current_ix_program_id, own_program_id) {
        return Err(LimoError::CPINotAllowed);
    }
    if stack_height > TRANSACTION_LEVEL_STACK_HEIGHT {
        return Err(LimoError::CPINotAllowed);
    }
    Ok(())
}

} // verus!
