//! Error taxonomy of the settlement core.
//!
//! Every failure aborts the whole operation with one of these named errors;
//! no operation leaves partially applied state behind.

use vstd::prelude::*;

verus! {

/// A fatal, atomic failure of one instruction of the settlement core.
#[derive(Clone, Copy, Debug, PartialEq, Eq, Structural)]
pub enum LimoError {
    /// The order is in a state from which it cannot be cancelled.
    OrderCanNotBeCanceled,
    /// A fill was attempted on an order that is not `Active`.
    OrderNotActive,
    /// The config-update mode does not accept the supplied value.
    InvalidConfigOption,
    /// A flag update carried a value other than 0 or 1.
    InvalidFlag,
    /// A checked addition, subtraction or narrowing overflowed.
    MathOverflow,
    /// A fill or order creation carried a zero input amount.
    OrderInputAmountInvalid,
    /// The declared output amount is below the proportional minimum.
    OrderOutputAmountInvalid,
    /// A host fee outside 0..=10000 basis points was supplied.
    InvalidHostFee,
    /// The custodial balance is below the recorded total tip amount.
    InvalidTipBalance,
    /// The custodial balance grew by less than the tip just credited.
    InvalidTipTransferAmount,
    /// The custodial balance is below the recorded host tip amount.
    InvalidHostTipBalance,
    /// The order has an outstanding flash fill; other actions are blocked.
    OrderWithinFlashOperation,
    /// The flash end ran on an order with no outstanding flash fill.
    OrderNotWithinFlashOperation,
    /// The entry point was invoked as a nested call instead of a top-level
    /// transaction instruction.
    CPINotAllowed,
    /// The transaction holds an instruction that does not belong in a flash
    /// pairing: a stray instruction of this program, or one from a program
    /// outside the auxiliary allow-list.
    FlashTxWithUnexpectedIxs,
    /// A flash start found no matching end instruction later in the
    /// transaction.
    FlashIxsNotEnded,
    /// A flash end found no matching start instruction earlier in the
    /// transaction.
    FlashIxsNotStarted,
    /// The paired flash instructions carry different account lists.
    FlashIxsAccountMismatch,
    /// The paired flash instructions carry different argument payloads.
    FlashIxsArgsMismatch,
    /// The emergency-mode kill switch is set.
    EmergencyModeEnabled,
    /// The new-orders kill switch is set.
    CreatingNewOrdersBlocked,
    /// The order-taking kill switch is set.
    OrderTakingBlocked,
    /// The flash-take-order kill switch is set.
    FlashTakeOrderBlocked,
    /// A fill asked for more input than the order has remaining.
    OrderInputAmountTooLarge,
    /// The order is not permissionless and no external authorization was
    /// presented.
    PermissionRequiredPermissionlessNotEnabled,
    /// The taker is not the exclusive counterparty set on the order.
    CounterpartyDisallowed,
    /// Not enough time has passed since the order was last updated.
    NotEnoughTimePassedSinceLastUpdate,
    /// An order was created with identical input and output mints.
    OrderSameMint,
    /// An unknown order type tag was supplied.
    OrderTypeInvalid,
    /// An update payload had the wrong size or shape for its mode.
    InvalidParameterType,
}

} // verus!
