//! Deployment-wide laws of the settlement core, proved from the
//! operation contracts: conservation of escrowed input across fill
//! sequences, the proportional-output floor, permanence of terminal
//! order states, and consistency of the tip ledger across every
//! operation that touches it.

use vstd::prelude::*;

use crate::errors::LimoError;
use crate::flash_ixs::{
    accounts_match, all_allowed_in, flash_end_search_outcome,
    flash_start_search_outcome, has_discriminator, is_own_program, lemma_find_own_in_is,
    lemma_find_own_in_none, Instruction,
};
use crate::fraction::{lemma_host_tip_bounds, lemma_proportional_floor, min_output_for_fill};
use crate::operations::{
    config_after_fill, fill_gate_error, fill_would_overflow, order_after_fill,
};
use crate::state::{GlobalConfig, Order};

verus! {

/// One successful fill's effect on an order, as far as input conservation
/// is concerned: some positive amount of the remaining input was sent
/// out and everything else about the deposit stayed put.
pub open spec fn fill_step(pre: Order, post: Order, input_sent: u64) -> bool {
    &&& 0 < input_sent <= pre.remaining_input_amount
    &&& post.initial_input_amount == pre.initial_input_amount
    &&& post.remaining_input_amount == pre.remaining_input_amount - input_sent
}

/// Total input sent out by a sequence of fills.
pub open spec fn sum_fills(fills: Seq<u64>) -> int
    decreases fills.len(),
{
    if fills.len() == 0 {
        0
    } else {
        fills[0] + sum_fills(fills.drop_first())
    }
}

/// A successful fill, as the operation contracts describe it, is a
/// `fill_step` of exactly the input it reports sending to the taker.
pub proof fn lemma_order_after_fill_is_fill_step(
    order: Order,
    input_amount: u64,
    output_amount: u64,
    tip_amount: u64,
    host_fee_bps: u16,
    current_timestamp: i64,
)
    requires
        fill_gate_error(order, input_amount, output_amount) is None,
    ensures
        fill_step(
            order,
            order_after_fill(
                order,
                input_amount,
                output_amount,
                tip_amount,
                host_fee_bps,
                current_timestamp,
            ),
            input_amount,
        ),
{
}

/// Conservation of escrowed input: across any chain of successful fills,
/// the initial input never changes, and what was remaining at the start
/// is exactly what is still remaining plus everything the fills sent
/// out. On an order whose remaining input started equal to its initial
/// input this is
/// `initial_input_amount == remaining_input_amount + sum of inputs sent`.
pub proof fn lemma_fill_sequence_conservation(orders: Seq<Order>, fills: Seq<u64>)
    requires
        orders.len() == fills.len() + 1,
        forall|i: int|
            0 <= i < fills.len() ==> fill_step(orders[i], orders[i + 1], #[trigger] fills[i]),
    ensures
        orders.last().initial_input_amount == orders[0].initial_input_amount,
        orders[0].remaining_input_amount == orders.last().remaining_input_amount + sum_fills(
            fills,
        ),
    decreases fills.len(),
{
    if fills.len() > 0 {
        let tail_orders = orders.drop_first();
        let tail_fills = fills.drop_first();
        assert(fill_step(orders[0], orders[1], fills[0]));
        assert forall|i: int|
            0 <= i < tail_fills.len() implies fill_step(
            tail_orders[i],
            tail_orders[i + 1],
            #[trigger] tail_fills[i],
        ) by {
            assert(fill_step(orders[i + 1], orders[i + 2], fills[i + 1]));
        }
        lemma_fill_sequence_conservation(tail_orders, tail_fills);
        assert(tail_orders.last() == orders.last());
    }
}

/// The proportional floor: the output a successful fill owes the maker,
/// scaled by the order's initial input, covers the input it releases,
/// scaled by the order's whole expected output. With an exactly dividing
/// ratio and the minimum output, the two sides are equal.
pub proof fn lemma_fill_proportional_floor(order: Order, input_amount: u64, output_amount: u64)
    requires
        order.wf(),
        fill_gate_error(order, input_amount, output_amount) is None,
    ensures
        output_amount * order.initial_input_amount >= input_amount * order.expected_output_amount,
        (input_amount * order.expected_output_amount) % (order.initial_input_amount as int) == 0
            && output_amount == min_output_for_fill(
            input_amount,
            order.expected_output_amount,
            order.initial_input_amount,
        ) ==> output_amount * order.initial_input_amount == input_amount
            * order.expected_output_amount,
{
    lemma_proportional_floor(
        input_amount,
        order.expected_output_amount,
        order.initial_input_amount,
        output_amount,
    );
}

/// Terminal states are permanent for fills: an order that is `Filled` or
/// `Cancelled` fails every fill gate, so no fill ever succeeds on it
/// again.
pub proof fn lemma_no_fill_on_terminal(order: Order, input_amount: u64, output_amount: u64)
    requires
        order.is_terminal(),
    ensures
        fill_gate_error(order, input_amount, output_amount) is Some,
{
}

/// A fill never resurrects or cancels an order: the status after a fill
/// is either unchanged or `Filled`, reached only from `Active`.
pub proof fn lemma_fill_status_monotonic(
    order: Order,
    input_amount: u64,
    output_amount: u64,
    tip_amount: u64,
    host_fee_bps: u16,
    current_timestamp: i64,
)
    requires
        fill_gate_error(order, input_amount, output_amount) is None,
    ensures
        ({
            let post = order_after_fill(
                order,
                input_amount,
                output_amount,
                tip_amount,
                host_fee_bps,
                current_timestamp,
            );
            post.status == order.status || (order.is_active() && post.is_filled())
        }),
{
}

/// Whether an order still participates in the tip ledger: every order
/// does until it is cancelled and its record reclaimed.
pub open spec fn order_is_live(order: Order) -> bool {
    !order.is_cancelled()
}

/// Accrued maker tips of all live orders.
pub open spec fn tips_of_live_orders(orders: Seq<Order>) -> int
    decreases orders.len(),
{
    if orders.len() == 0 {
        0
    } else {
        (if order_is_live(orders[0]) {
            orders[0].tip_amount as int
        } else {
            0
        }) + tips_of_live_orders(orders.drop_first())
    }
}

/// The deployment-wide tip ledger invariant: the running total equals
/// the host share plus every live order's accrued tip.
pub open spec fn tip_ledger_consistent(global_config: GlobalConfig, orders: Seq<Order>) -> bool {
    global_config.total_tip_amount == global_config.host_tip_amount + tips_of_live_orders(orders)
}

/// Replacing one order changes the live-tip sum by exactly the
/// difference of the two orders' live contributions.
pub proof fn lemma_tips_of_live_orders_update(orders: Seq<Order>, i: int, new_order: Order)
    requires
        0 <= i < orders.len(),
    ensures
        tips_of_live_orders(orders.update(i, new_order)) == tips_of_live_orders(orders) - (
        if order_is_live(orders[i]) {
            orders[i].tip_amount as int
        } else {
            0
        }) + (if order_is_live(new_order) {
            new_order.tip_amount as int
        } else {
            0
        }),
    decreases orders.len(),
{
    if i == 0 {
        assert(orders.update(0, new_order).drop_first() =~= orders.drop_first());
    } else {
        assert(orders.update(i, new_order).drop_first() =~= orders.drop_first().update(
            i - 1,
            new_order,
        ));
        lemma_tips_of_live_orders_update(orders.drop_first(), i - 1, new_order);
    }
}

/// Appending an order adds its live contribution to the live-tip sum.
pub proof fn lemma_tips_of_live_orders_push(orders: Seq<Order>, new_order: Order)
    ensures
        tips_of_live_orders(orders.push(new_order)) == tips_of_live_orders(orders) + (
        if order_is_live(new_order) {
            new_order.tip_amount as int
        } else {
            0
        }),
    decreases orders.len(),
{
    let pushed = orders.push(new_order);
    if orders.len() == 0 {
        assert(pushed[0] == new_order);
        assert(pushed.drop_first() =~= Seq::<Order>::empty());
        assert(tips_of_live_orders(pushed.drop_first()) == 0);
    } else {
        assert(pushed[0] == orders[0]);
        assert(pushed.drop_first() =~= orders.drop_first().push(new_order));
        lemma_tips_of_live_orders_push(orders.drop_first(), new_order);
    }
}

/// A fill keeps the tip ledger consistent: the whole tip enters the
/// running total while its two shares land in the host total and the
/// filled order's accrued tip.
pub proof fn lemma_fill_preserves_tip_ledger(
    global_config: GlobalConfig,
    orders: Seq<Order>,
    i: int,
    input_amount: u64,
    output_amount: u64,
    tip_amount: u64,
    current_timestamp: i64,
)
    requires
        global_config.wf(),
        tip_ledger_consistent(global_config, orders),
        0 <= i < orders.len(),
        fill_gate_error(orders[i], input_amount, output_amount) is None,
        !fill_would_overflow(global_config, orders[i], output_amount, tip_amount),
    ensures
        tip_ledger_consistent(
            config_after_fill(global_config, tip_amount),
            orders.update(
                i,
                order_after_fill(
                    orders[i],
                    input_amount,
                    output_amount,
                    tip_amount,
                    global_config.host_fee_bps,
                    current_timestamp,
                ),
            ),
        ),
{
    let new_order = order_after_fill(
        orders[i],
        input_amount,
        output_amount,
        tip_amount,
        global_config.host_fee_bps,
        current_timestamp,
    );
    lemma_host_tip_bounds(tip_amount, global_config.host_fee_bps);
    lemma_tips_of_live_orders_update(orders, i, new_order);
    assert(order_is_live(orders[i]));
    assert(order_is_live(new_order));
}

/// Cancelling an order keeps the tip ledger consistent: its accrued tip
/// leaves the live-order sum and the running total together.
pub proof fn lemma_close_preserves_tip_ledger(
    global_config: GlobalConfig,
    orders: Seq<Order>,
    i: int,
)
    requires
        tip_ledger_consistent(global_config, orders),
        0 <= i < orders.len(),
        order_is_live(orders[i]),
        orders[i].tip_amount <= global_config.total_tip_amount,
    ensures
        tip_ledger_consistent(
            GlobalConfig {
                total_tip_amount: (global_config.total_tip_amount - orders[i].tip_amount) as u64,
                ..global_config
            },
            orders.update(
                i,
                Order { status: crate::state::ORDER_STATUS_CANCELLED, ..orders[i] },
            ),
        ),
{
    let new_order = Order { status: crate::state::ORDER_STATUS_CANCELLED, ..orders[i] };
    lemma_tips_of_live_orders_update(orders, i, new_order);
}

/// Withdrawing the host tip keeps the tip ledger consistent: the host
/// share leaves the host total and the running total together.
pub proof fn lemma_withdraw_host_tip_preserves_tip_ledger(
    global_config: GlobalConfig,
    orders: Seq<Order>,
)
    requires
        global_config.wf(),
        tip_ledger_consistent(global_config, orders),
    ensures
        tip_ledger_consistent(
            GlobalConfig {
                total_tip_amount: (global_config.total_tip_amount
                    - global_config.host_tip_amount) as u64,
                host_tip_amount: 0,
                ..global_config
            },
            orders,
        ),
{
}

/// A newly created order enters the ledger with no accrued tip, leaving
/// it consistent.
pub proof fn lemma_create_order_preserves_tip_ledger(
    global_config: GlobalConfig,
    orders: Seq<Order>,
    new_order: Order,
)
    requires
        tip_ledger_consistent(global_config, orders),
        new_order.tip_amount == 0,
    ensures
        tip_ledger_consistent(global_config, orders.push(new_order)),
{
    lemma_tips_of_live_orders_push(orders, new_order);
}

/// A fresh configuration with no orders satisfies the tip ledger
/// invariant from the start.
pub proof fn lemma_initialize_establishes_tip_ledger(global_config: GlobalConfig)
    requires
        global_config.total_tip_amount == 0,
        global_config.host_tip_amount == 0,
    ensures
        tip_ledger_consistent(global_config, Seq::<Order>::empty()),
{
}


/// A transaction holding a flash start and no other instruction of this
/// program fails the start's scan with "not ended", however much
/// allow-listed auxiliary work surrounds it.
pub proof fn lemma_start_without_end_fails_not_ended(
    ixs: Seq<Instruction>,
    current_index: int,
    own: Seq<u8>,
    allowed: Seq<crate::state::Pubkey>,
    end_disc: Seq<u8>,
)
    requires
        0 <= current_index < ixs.len(),
        all_allowed_in(ixs, allowed, 0, current_index),
        forall|k: int|
            current_index < k < ixs.len() ==> !is_own_program(#[trigger] ixs[k], own),
    ensures
        flash_end_search_outcome(ixs, current_index, own, allowed, end_disc) == Err::<
            int,
            LimoError,
        >(LimoError::FlashIxsNotEnded),
{
    lemma_find_own_in_none(ixs, own, current_index + 1, ixs.len() as int);
}

/// A transaction holding a flash end and no other instruction of this
/// program fails the end's scan with "not started".
pub proof fn lemma_end_without_start_fails_not_started(
    ixs: Seq<Instruction>,
    current_index: int,
    own: Seq<u8>,
    allowed: Seq<crate::state::Pubkey>,
    start_disc: Seq<u8>,
)
    requires
        0 <= current_index < ixs.len(),
        all_allowed_in(ixs, allowed, 0, current_index),
        all_allowed_in(ixs, allowed, current_index + 1, ixs.len() as int),
        forall|k: int| 0 <= k < current_index ==> !is_own_program(#[trigger] ixs[k], own),
    ensures
        flash_start_search_outcome(ixs, current_index, own, allowed, start_disc) == Err::<
            int,
            LimoError,
        >(LimoError::FlashIxsNotStarted),
{
    lemma_find_own_in_none(ixs, own, 0, current_index);
}

/// A properly placed flash pair whose two instructions carry different
/// account lists fails both scans with an account mismatch, never with
/// success.
pub proof fn lemma_pair_with_differing_accounts_fails(
    ixs: Seq<Instruction>,
    start_index: int,
    end_index: int,
    own: Seq<u8>,
    allowed: Seq<crate::state::Pubkey>,
    start_disc: Seq<u8>,
    end_disc: Seq<u8>,
)
    requires
        0 <= start_index < end_index < ixs.len(),
        is_own_program(ixs[start_index], own),
        is_own_program(ixs[end_index], own),
        forall|k: int|
            0 <= k < ixs.len() && k != start_index && k != end_index ==> !is_own_program(
                #[trigger] ixs[k],
                own,
            ),
        all_allowed_in(ixs, allowed, 0, start_index),
        all_allowed_in(ixs, allowed, end_index + 1, ixs.len() as int),
        has_discriminator(ixs[start_index], start_disc),
        has_discriminator(ixs[end_index], end_disc),
        !accounts_match(ixs[start_index], ixs[end_index]),
    ensures
        flash_end_search_outcome(ixs, start_index, own, allowed, end_disc) == Err::<
            int,
            LimoError,
        >(LimoError::FlashIxsAccountMismatch),
        flash_start_search_outcome(ixs, end_index, own, allowed, start_disc) == Err::<
            int,
            LimoError,
        >(LimoError::FlashIxsAccountMismatch),
{
    lemma_find_own_in_is(ixs, own, start_index + 1, ixs.len() as int, end_index);
    lemma_find_own_in_is(ixs, own, 0, end_index, start_index);
    assert(!accounts_match(ixs[end_index], ixs[start_index])) by {
        if accounts_match(ixs[end_index], ixs[start_index]) {
            assert forall|i: int|
                0 <= i < ixs[start_index].accounts@.len() implies ixs[start_index].accounts@[i]@
                == #[trigger] ixs[end_index].accounts@[i]@ by {
                assert(ixs[end_index].accounts@[i]@ == ixs[start_index].accounts@[i]@);
            }
        }
    }
}

/// A properly paired start and end find each other: the start's forward
/// scan lands on the end and the end's backward scan lands on the start.
pub proof fn lemma_well_formed_pair_is_accepted(
    ixs: Seq<Instruction>,
    start_index: int,
    end_index: int,
    own: Seq<u8>,
    allowed: Seq<crate::state::Pubkey>,
    start_disc: Seq<u8>,
    end_disc: Seq<u8>,
)
    requires
        0 <= start_index < end_index < ixs.len(),
        is_own_program(ixs[start_index], own),
        is_own_program(ixs[end_index], own),
        forall|k: int|
            0 <= k < ixs.len() && k != start_index && k != end_index ==> !is_own_program(
                #[trigger] ixs[k],
                own,
            ),
        all_allowed_in(ixs, allowed, 0, start_index),
        all_allowed_in(ixs, allowed, end_index + 1, ixs.len() as int),
        has_discriminator(ixs[start_index], start_disc),
        has_discriminator(ixs[end_index], end_disc),
        accounts_match(ixs[start_index], ixs[end_index]),
    ensures
        flash_end_search_outcome(ixs, start_index, own, allowed, end_disc) == Ok::<
            int,
            LimoError,
        >(end_index),
        flash_start_search_outcome(ixs, end_index, own, allowed, start_disc) == Ok::<
            int,
            LimoError,
        >(start_index),
{
    lemma_find_own_in_is(ixs, own, start_index + 1, ixs.len() as int, end_index);
    lemma_find_own_in_is(ixs, own, 0, end_index, start_index);
    assert(accounts_match(ixs[end_index], ixs[start_index])) by {
        assert forall|i: int|
            0 <= i < ixs[end_index].accounts@.len() implies ixs[end_index].accounts@[i]@
            == #[trigger] ixs[start_index].accounts@[i]@ by {
            assert(ixs[start_index].accounts@[i]@ == ixs[end_index].accounts@[i]@);
        }
    }
}

} // verus!
