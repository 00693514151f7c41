//! Persistent records of the settlement core: orders, the global
//! configuration, and the small value types the operations exchange.

use vstd::prelude::*;

verus! {

/// A 32-byte account address, the identity of every on-chain participant:
/// makers, takers, mints, programs and derived authorities. The core only
/// ever compares addresses and tests them against the all-zero default.
#[derive(Clone, Copy, Debug)]
pub struct Pubkey {
    pub bytes: [u8; 32],
}

impl View for Pubkey {
    type V = Seq<u8>;

    open spec fn view(&self) -> Seq<u8> {
        self.bytes@
    }
}

impl Pubkey {
    /// The all-zero address, used as "no counterparty set".
    pub open spec fn is_zero(self) -> bool {
        self@ == Seq::<u8>::new(32, |i: int| 0u8)
    }

    pub fn new(bytes: [u8; 32]) -> (r: Pubkey)
        ensures
            r@ == bytes@,
    {
        Pubkey { bytes }
    }

    /// The all-zero address.
    pub fn zeroed() -> (r: Pubkey)
        ensures
            r.is_zero(),
    {
        let bytes = [0u8; 32];
        proof {
            assert(bytes@ =~= Seq::<u8>::new(32, |i: int| 0u8));
        }
        Pubkey { bytes }
    }

    pub fn is_zeroed(&self) -> (r: bool)
        ensures
            r == self.is_zero(),
    {
        let zero = Pubkey::zeroed();
        pubkey_eq(self, &zero)
    }
}

/// Address equality, byte for byte.
pub fn pubkey_eq(a: &Pubkey, b: &Pubkey) -> (r: bool)
    ensures
        r == (a@ == b@),
{
    let mut i: usize = 0;
    while i < 32
        invariant
            i <= 32,
            forall|j: int| 0 <= j < i ==> a.bytes@[j] == b.bytes@[j],
        decreases 32 - i,
    {
        if a.bytes[i] != b.bytes[i] {
            proof {
                assert(a@[i as int] != b@[i as int]);
            }
            return false;
        }
        i += 1;
    }
    proof {
        assert(a@ =~= b@);
    }
    true
}

impl PartialEq for Pubkey {
    fn eq(&self, other: &Pubkey) -> (r: bool) {
        pubkey_eq(self, other)
    }
}

impl Eq for Pubkey {}

impl vstd::std_specs::cmp::PartialEqSpecImpl for Pubkey {
    open spec fn obeys_eq_spec() -> bool {
        true
    }

    open spec fn eq_spec(&self, other: &Pubkey) -> bool {
        self@ == other@
    }
}

/// Tag stored in `Order::status`: the order accepts fills.
pub const ORDER_STATUS_ACTIVE: u8 = 0;

/// Tag stored in `Order::status`: the order was fully consumed.
pub const ORDER_STATUS_FILLED: u8 = 1;

/// Tag stored in `Order::status`: the order was cancelled by its maker.
pub const ORDER_STATUS_CANCELLED: u8 = 2;

/// Lifecycle state of an order. Transitions are one-directional:
/// `Active` to `Filled` or `Cancelled`, and the terminal states never
/// transition out.
#[derive(Clone, Copy, Debug, PartialEq, Eq, Structural)]
pub enum OrderStatus {
    Active,
    Filled,
    Cancelled,
}

impl OrderStatus {
    /// The tag this status is stored as in `Order::status`.
    pub open spec fn as_u8(self) -> u8 {
        match self {
            OrderStatus::Active => ORDER_STATUS_ACTIVE,
            OrderStatus::Filled => ORDER_STATUS_FILLED,
            OrderStatus::Cancelled => ORDER_STATUS_CANCELLED,
        }
    }

    pub fn to_u8(self) -> (r: u8)
        ensures
            r == self.as_u8(),
    {
        match self {
            OrderStatus::Active => ORDER_STATUS_ACTIVE,
            OrderStatus::Filled => ORDER_STATUS_FILLED,
            OrderStatus::Cancelled => ORDER_STATUS_CANCELLED,
        }
    }

    pub fn from_u8(val: u8) -> (r: Option<OrderStatus>)
        ensures
            match r {
                Some(s) => s.as_u8() == val,
                None => val > ORDER_STATUS_CANCELLED,
            },
    {
        if val == ORDER_STATUS_ACTIVE {
            Some(OrderStatus::Active)
        } else if val == ORDER_STATUS_FILLED {
            Some(OrderStatus::Filled)
        } else if val == ORDER_STATUS_CANCELLED {
            Some(OrderStatus::Cancelled)
        } else {
            None
        }
    }
}

/// Tag stored in `Order::order_type` for the one supported order kind.
pub const ORDER_TYPE_VANILLA: u8 = 0;

/// Kind of an order; only one kind exists today, and the tag is kept for
/// forward compatibility.
#[derive(Clone, Copy, Debug, PartialEq, Eq, Structural)]
pub enum OrderType {
    Vanilla,
}

impl OrderType {
    pub open spec fn as_u8(self) -> u8 {
        match self {
            OrderType::Vanilla => ORDER_TYPE_VANILLA,
        }
    }

    pub fn to_u8(self) -> (r: u8)
        ensures
            r == self.as_u8(),
    {
        match self {
            OrderType::Vanilla => ORDER_TYPE_VANILLA,
        }
    }

    pub fn try_from_u8(val: u8) -> (r: Option<OrderType>)
        ensures
            match r {
                Some(t) => t.as_u8() == val,
                None => val != ORDER_TYPE_VANILLA,
            },
    {
        if val == ORDER_TYPE_VANILLA {
            Some(OrderType::Vanilla)
        } else {
            None
        }
    }
}

/// One escrowed limit order, created per (maker, input mint, output mint)
/// creation event and mutated only by fills, updates and cancellation.
#[derive(Clone, Copy, Debug)]
pub struct Order {
    /// Back-reference to the configuration this order settles under.
    pub global_config: Pubkey,
    /// The order's creator, who deposited the input asset.
    pub maker: Pubkey,
    pub input_mint: Pubkey,
    pub input_mint_program_id: Pubkey,
    pub output_mint: Pubkey,
    pub output_mint_program_id: Pubkey,
    /// Input deposited at creation; never changes afterwards.
    pub initial_input_amount: u64,
    /// Output the maker asks for the whole initial input.
    pub expected_output_amount: u64,
    /// Input still in escrow; strictly decreases on each fill.
    pub remaining_input_amount: u64,
    /// Output delivered to the maker so far; strictly increases on fills.
    pub filled_output_amount: u64,
    /// Maker-side tip accrued and not yet claimed.
    pub tip_amount: u64,
    pub number_of_fills: u64,
    pub order_type: u8,
    pub status: u8,
    pub in_vault_bump: u8,
    /// Exclusive-operation flag: 1 while a flash fill is outstanding.
    pub flash_ix_lock: u8,
    /// 1 if any taker may fill without external authorization.
    pub permissionless: u8,
    pub last_updated_timestamp: u64,
    /// Taker output balance snapshot taken by a flash start, consumed by
    /// the matching flash end.
    pub flash_start_taker_output_balance: u64,
    /// Optional exclusive taker; the all-zero address means unrestricted.
    pub counterparty: Pubkey,
}

impl Order {
    /// Structural invariant every order satisfies from creation on.
    pub open spec fn wf(self) -> bool {
        &&& self.remaining_input_amount <= self.initial_input_amount
        &&& self.status <= ORDER_STATUS_CANCELLED
        &&& self.flash_ix_lock <= 1
    }

    pub open spec fn is_active(self) -> bool {
        self.status == ORDER_STATUS_ACTIVE
    }

    pub open spec fn is_filled(self) -> bool {
        self.status == ORDER_STATUS_FILLED
    }

    pub open spec fn is_cancelled(self) -> bool {
        self.status == ORDER_STATUS_CANCELLED
    }

    /// Orders in a terminal state accept no further fills.
    pub open spec fn is_terminal(self) -> bool {
        self.is_filled() || self.is_cancelled()
    }
}

impl Default for Order {
    /// An all-zero record, as freshly allocated storage presents it before
    /// order creation initializes it.
    fn default() -> (r: Order)
        ensures
            r.initial_input_amount == 0,
            r.expected_output_amount == 0,
            r.remaining_input_amount == 0,
            r.filled_output_amount == 0,
            r.tip_amount == 0,
            r.number_of_fills == 0,
            r.order_type == ORDER_TYPE_VANILLA,
            r.status == ORDER_STATUS_ACTIVE,
            r.in_vault_bump == 0,
            r.flash_ix_lock == 0,
            r.permissionless == 0,
            r.last_updated_timestamp == 0,
            r.flash_start_taker_output_balance == 0,
            r.global_config.is_zero(),
            r.maker.is_zero(),
            r.input_mint.is_zero(),
            r.input_mint_program_id.is_zero(),
            r.output_mint.is_zero(),
            r.output_mint_program_id.is_zero(),
            r.counterparty.is_zero(),
            r.wf(),
    {
        Order {
            global_config: Pubkey::zeroed(),
            maker: Pubkey::zeroed(),
            input_mint: Pubkey::zeroed(),
            input_mint_program_id: Pubkey::zeroed(),
            output_mint: Pubkey::zeroed(),
            output_mint_program_id: Pubkey::zeroed(),
            initial_input_amount: 0,
            expected_output_amount: 0,
            remaining_input_amount: 0,
            filled_output_amount: 0,
            tip_amount: 0,
            number_of_fills: 0,
            order_type: ORDER_TYPE_VANILLA,
            status: ORDER_STATUS_ACTIVE,
            in_vault_bump: 0,
            flash_ix_lock: 0,
            permissionless: 0,
            last_updated_timestamp: 0,
            flash_start_taker_output_balance: 0,
            counterparty: Pubkey::zeroed(),
        }
    }
}

/// Deployment-wide configuration: kill switches, the host fee, the
/// custodial authority, and the running tip accounting totals.
#[derive(Clone, Copy, Debug)]
pub struct GlobalConfig {
    /// Kill switch blocking every operation when nonzero.
    pub emergency_mode: u8,
    /// Kill switch blocking flash fills when nonzero.
    pub flash_take_order_blocked: u8,
    /// Kill switch blocking order creation when nonzero.
    pub new_orders_blocked: u8,
    /// Kill switch blocking fills when nonzero.
    pub orders_taking_blocked: u8,
    /// Host share of every tip, in basis points (0..=10000).
    pub host_fee_bps: u16,
    /// Cooldown between an order's last update and its closure.
    pub order_close_delay_seconds: u64,
    /// Custodial native balance observed after the last tip-moving
    /// operation; used to detect short-paid tips.
    pub pda_authority_previous_lamports_balance: u64,
    /// Sum of the host share and every live order's accrued tip.
    pub total_tip_amount: u64,
    /// Host share of tips accrued and not yet withdrawn.
    pub host_tip_amount: u64,
    /// Derived authority controlling the escrow vaults.
    pub pda_authority: Pubkey,
    pub pda_authority_bump: u64,
    pub admin_authority: Pubkey,
    /// Staged admin for the two-step authority rotation.
    pub admin_authority_cached: Pubkey,
    /// Native cost charged to makers for transaction fees on creation.
    pub txn_fee_cost: u64,
    /// Native cost charged to makers for account creation on creation.
    pub ata_creation_cost: u64,
}

impl GlobalConfig {
    /// Structural invariant every configuration satisfies.
    pub open spec fn wf(self) -> bool {
        &&& self.host_fee_bps <= 10000
        &&& self.host_tip_amount <= self.total_tip_amount
    }
}

impl Default for GlobalConfig {
    /// An all-zero configuration, as freshly allocated storage presents it.
    fn default() -> (r: GlobalConfig)
        ensures
            r.emergency_mode == 0,
            r.flash_take_order_blocked == 0,
            r.new_orders_blocked == 0,
            r.orders_taking_blocked == 0,
            r.host_fee_bps == 0,
            r.order_close_delay_seconds == 0,
            r.pda_authority_previous_lamports_balance == 0,
            r.total_tip_amount == 0,
            r.host_tip_amount == 0,
            r.pda_authority.is_zero(),
            r.pda_authority_bump == 0,
            r.admin_authority.is_zero(),
            r.admin_authority_cached.is_zero(),
            r.txn_fee_cost == 0,
            r.ata_creation_cost == 0,
            r.wf(),
    {
        GlobalConfig {
            emergency_mode: 0,
            flash_take_order_blocked: 0,
            new_orders_blocked: 0,
            orders_taking_blocked: 0,
            host_fee_bps: 0,
            order_close_delay_seconds: 0,
            pda_authority_previous_lamports_balance: 0,
            total_tip_amount: 0,
            host_tip_amount: 0,
            pda_authority: Pubkey::zeroed(),
            pda_authority_bump: 0,
            admin_authority: Pubkey::zeroed(),
            admin_authority_cached: Pubkey::zeroed(),
            txn_fee_cost: 0,
            ata_creation_cost: 0,
        }
    }
}

/// Result of a fill computation: the two transfers the caller must then
/// perform. Never persisted.
#[derive(Clone, Copy, Debug, PartialEq, Eq, Structural)]
pub struct TakeOrderEffects {
    pub input_to_send_to_taker: u64,
    pub output_to_send_to_maker: u64,
}

/// A tip split into the host's share and the maker's share.
#[derive(Clone, Copy, Debug, PartialEq, Eq, Structural)]
pub struct TipCalcs {
    pub host_tip: u64,
    pub maker_tip: u64,
}

/// Selector for `update_global_config`.
#[derive(Clone, Copy, Debug, PartialEq, Eq, Structural)]
pub enum UpdateGlobalConfigMode {
    UpdateEmergencyMode,
    UpdateFlashTakeOrderBlocked,
    UpdateBlockNewOrders,
    UpdateBlockOrderTaking,
    UpdateHostFeeBps,
    UpdateAdminAuthorityCached,
    UpdateOrderTakingPermissionless,
    UpdateOrderCloseDelaySeconds,
    UpdateTxnFeeCost,
    UpdateAtaCreationCost,
}

impl UpdateGlobalConfigMode {
    /// The wire tag of this mode.
    pub open spec fn as_u16(self) -> u16 {
        match self {
            UpdateGlobalConfigMode::UpdateEmergencyMode => 0,
            UpdateGlobalConfigMode::UpdateFlashTakeOrderBlocked => 1,
            UpdateGlobalConfigMode::UpdateBlockNewOrders => 2,
            UpdateGlobalConfigMode::UpdateBlockOrderTaking => 3,
            UpdateGlobalConfigMode::UpdateHostFeeBps => 4,
            UpdateGlobalConfigMode::UpdateAdminAuthorityCached => 5,
            UpdateGlobalConfigMode::UpdateOrderTakingPermissionless => 6,
            UpdateGlobalConfigMode::UpdateOrderCloseDelaySeconds => 7,
            UpdateGlobalConfigMode::UpdateTxnFeeCost => 8,
            UpdateGlobalConfigMode::UpdateAtaCreationCost => 9,
        }
    }

    pub fn to_u16(self) -> (r: u16)
        ensures
            r == self.as_u16(),
    {
        match self {
            UpdateGlobalConfigMode::UpdateEmergencyMode => 0,
            UpdateGlobalConfigMode::UpdateFlashTakeOrderBlocked => 1,
            UpdateGlobalConfigMode::UpdateBlockNewOrders => 2,
            UpdateGlobalConfigMode::UpdateBlockOrderTaking => 3,
            UpdateGlobalConfigMode::UpdateHostFeeBps => 4,
            UpdateGlobalConfigMode::UpdateAdminAuthorityCached => 5,
            UpdateGlobalConfigMode::UpdateOrderTakingPermissionless => 6,
            UpdateGlobalConfigMode::UpdateOrderCloseDelaySeconds => 7,
            UpdateGlobalConfigMode::UpdateTxnFeeCost => 8,
            UpdateGlobalConfigMode::UpdateAtaCreationCost => 9,
        }
    }

    pub fn try_from_u16(val: u16) -> (r: Option<UpdateGlobalConfigMode>)
        ensures
            match r {
                Some(m) => m.as_u16() == val,
                None => val > 9,
            },
    {
        if val == 0 {
            Some(UpdateGlobalConfigMode::UpdateEmergencyMode)
        } else if val == 1 {
            Some(UpdateGlobalConfigMode::UpdateFlashTakeOrderBlocked)
        } else if val == 2 {
            Some(UpdateGlobalConfigMode::UpdateBlockNewOrders)
        } else if val == 3 {
            Some(UpdateGlobalConfigMode::UpdateBlockOrderTaking)
        } else if val == 4 {
            Some(UpdateGlobalConfigMode::UpdateHostFeeBps)
        } else if val == 5 {
            Some(UpdateGlobalConfigMode::UpdateAdminAuthorityCached)
        } else if val == 6 {
            Some(UpdateGlobalConfigMode::UpdateOrderTakingPermissionless)
        } else if val == 7 {
            Some(UpdateGlobalConfigMode::UpdateOrderCloseDelaySeconds)
        } else if val == 8 {
            Some(UpdateGlobalConfigMode::UpdateTxnFeeCost)
        } else if val == 9 {
            Some(UpdateGlobalConfigMode::UpdateAtaCreationCost)
        } else {
            None
        }
    }
}

/// Selector for `update_order`.
#[derive(Clone, Copy, Debug, PartialEq, Eq, Structural)]
pub enum UpdateOrderMode {
    UpdatePermissionless,
    UpdateCounterparty,
}

impl UpdateOrderMode {
    /// The wire tag of this mode.
    pub open spec fn as_u16(self) -> u16 {
        match self {
            UpdateOrderMode::UpdatePermissionless => 0,
            UpdateOrderMode::UpdateCounterparty => 1,
        }
    }

    pub fn to_u16(self) -> (r: u16)
        ensures
            r == self.as_u16(),
    {
        match self {
            UpdateOrderMode::UpdatePermissionless => 0,
            UpdateOrderMode::UpdateCounterparty => 1,
        }
    }

    pub fn try_from_u16(val: u16) -> (r: Option<UpdateOrderMode>)
        ensures
            match r {
                Some(m) => m.as_u16() == val,
                None => val > 1,
            },
    {
        if val == 0 {
            Some(UpdateOrderMode::UpdatePermissionless)
        } else if val == 1 {
            Some(UpdateOrderMode::UpdateCounterparty)
        } else {
            None
        }
    }
}

/// Snapshot of an order emitted to observers after creation, fills and
/// closure, together with the amounts the triggering operation moved.
#[derive(Clone, Copy, Debug, PartialEq, Eq, Structural)]
pub struct OrderDisplay {
    pub initial_input_amount: u64,
    pub expected_output_amount: u64,
    pub remaining_input_amount: u64,
    pub filled_output_amount: u64,
    pub tip_amount: u64,
    pub number_of_fills: u64,
    /// Output the triggering operation moved, zero outside fills.
    pub on_event_output_amount_filled: u64,
    /// Tip the triggering operation credited, zero outside fills.
    pub on_event_tip_amount: u64,
    pub order_type: u8,
    pub status: u8,
    pub last_updated_timestamp: u64,
}

impl OrderDisplay {
    /// Projects an order into the snapshot an observer is shown.
    pub fn from_order(order: &Order, on_event_output_amount_filled: u64, on_event_tip_amount: u64)
        -> (r: OrderDisplay)
        ensures
            r == (OrderDisplay {
                initial_input_amount: order.initial_input_amount,
                expected_output_amount: order.expected_output_amount,
                remaining_input_amount: order.remaining_input_amount,
                filled_output_amount: order.filled_output_amount,
                tip_amount: order.tip_amount,
                number_of_fills: order.number_of_fills,
                on_event_output_amount_filled,
                on_event_tip_amount,
                order_type: order.order_type,
                status: order.status,
                last_updated_timestamp: order.last_updated_timestamp,
            }),
    {
        OrderDisplay {
            initial_input_amount: order.initial_input_amount,
            expected_output_amount: order.expected_output_amount,
            remaining_input_amount: order.remaining_input_amount,
            filled_output_amount: order.filled_output_amount,
            tip_amount: order.tip_amount,
            number_of_fills: order.number_of_fills,
            on_event_output_amount_filled,
            on_event_tip_amount,
            order_type: order.order_type,
            status: order.status,
            last_updated_timestamp: order.last_updated_timestamp,
        }
    }
}

/// Balances read for the user-swap balance bracketing instructions.
#[derive(Clone, Copy, Debug, PartialEq, Eq, Structural)]
pub struct GetBalancesCheckedResult {
    pub lamports_balance: u64,
    pub input_balance: u64,
    pub output_balance: u64,
}

/// Snapshot persisted by a balance-bracketing start instruction and
/// consumed by its end instruction.
#[derive(Clone, Copy, Debug, PartialEq, Eq, Structural)]
pub struct UserSwapBalancesState {
    pub user_lamports: u64,
    pub input_ta_balance: u64,
    pub output_ta_balance: u64,
}

} // verus!
