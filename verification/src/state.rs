//! The persistent records of the escrow engine: the global configuration
//! singleton and the per-order state machine record, together with their
//! well-formedness invariants and the protocol constants.

use vstd::prelude::*;

use crate::ids::all_zero;

verus! {

/// Fee rates are basis points: parts per 10000.
pub const FEE_DENOMINATOR: u64 = 10000;

/// The fixed origin-chain identifier every order must declare at open time.
pub const ORIGIN_CHAIN_ID: u64 = 10002;

/// The asset identity that marks the native custody path
/// (the wrapped-native mint identity of the hosting ledger).
pub const NATIVE_TOKEN: [u8; 32] = [
    6u8, 155, 136, 87, 254, 171, 129, 132, 251, 104, 127, 99, 70, 24, 192, 53, 218, 196, 57, 220,
    26, 235, 59, 85, 152, 160, 240, 0, 0, 0, 0, 1,
];

/// Whether an asset identity selects the native custody path.
pub open spec fn is_native(token: [u8; 32]) -> bool {
    token@ == NATIVE_TOKEN@
}

/// Protocol-wide parameters, written only by the administrative operations.
#[derive(Clone, Copy, PartialEq, Eq, Debug)]
pub struct GlobalConfig {
    /// Identity authorized to change configuration and to act as executor.
    pub owner: [u8; 32],
    /// Fee in basis points; always below `FEE_DENOMINATOR`.
    pub platform_fee: u16,
    /// Destination identity for collected fees.
    pub treasury: [u8; 32],
    /// When true, open, execute and cancel are all rejected.
    pub paused: bool,
    /// Reserved space for forward-compatible schema growth.
    pub reserved: [u8; 128],
}

impl GlobalConfig {
    /// The configuration invariant: the fee rate is a valid basis-point rate.
    pub open spec fn wf(self) -> bool {
        self.platform_fee < FEE_DENOMINATOR
    }
}

/// One escrow instance: a user's deposited funds and their scheduled
/// partial release.
#[derive(Clone, Copy, PartialEq, Eq, Debug)]
pub struct DCAOrder {
    /// Asset deposited: the native marker, or a token identity.
    pub from_token: [u8; 32],
    /// Origin-chain identifier; equals `ORIGIN_CHAIN_ID` at open time.
    pub from_chain_id: u64,
    /// Total deposited, fixed for the order's lifetime.
    pub amount_in: u64,
    /// Opaque routing payload, carried through unmodified.
    pub amount_out_min: [u8; 32],
    /// Opaque routing payload, carried through unmodified.
    pub amount_out_max: [u8; 32],
    /// Destination-chain identifier, non-zero at open time.
    pub to_chain_id: u64,
    /// Opaque routing payload, carried through unmodified.
    pub to_token: [u8; 32],
    /// Creator and owner of the order; refunds must go to this identity.
    pub sender: [u8; 32],
    /// Opaque routing payload, carried through unmodified.
    pub recipient: [u8; 32],
    /// Total planned releases, immutable once set.
    pub execute_count: u16,
    /// Releases still to come; counts down.
    pub remaining_execute_count: u16,
    /// Informational spacing hint between releases; not enforced here.
    pub time_interval: u64,
    /// Funds still in custody; monotonically non-increasing.
    pub remaining_amount: u64,
    /// Submission timestamp; uniqueness and derivation key.
    pub time_stamp: i64,
    /// Derivation proof for the order's custody signing capability.
    pub bump: u8,
}

impl DCAOrder {
    /// The invariant of every live order record: some funds remain, no more
    /// than were deposited, and no more releases remain than were planned.
    pub open spec fn wf(self) -> bool {
        &&& 1 <= self.remaining_amount <= self.amount_in
        &&& self.remaining_execute_count <= self.execute_count
        &&& 1 <= self.execute_count
    }
}

/// The full parameter set of an open operation.
#[derive(Clone, Copy, PartialEq, Eq, Debug)]
pub struct OpenOrderParams {
    pub from_token: [u8; 32],
    pub from_chain_id: u64,
    pub amount_in: u64,
    pub amount_out_min: [u8; 32],
    pub amount_out_max: [u8; 32],
    pub to_chain_id: u64,
    pub to_token: [u8; 32],
    pub recipient: [u8; 32],
    pub execute_count: u16,
    pub time_interval: u64,
    pub time_stamp: i64,
}

/// The shared open-time parameter checks; every violation is rejected as an
/// invalid parameter before any fund movement.
pub open spec fn params_valid_common(params: OpenOrderParams) -> bool {
    &&& params.from_chain_id == ORIGIN_CHAIN_ID
    &&& params.amount_in != 0
    &&& params.to_chain_id != 0
    &&& !all_zero(params.to_token@)
    &&& !all_zero(params.recipient@)
    &&& params.execute_count != 0
    &&& params.time_interval != 0
    &&& !all_zero(params.amount_out_min@)
    &&& !all_zero(params.amount_out_max@)
}

/// The order record freshly populated from an open operation's parameters.
pub open spec fn new_order_spec(sender: [u8; 32], params: OpenOrderParams, bump: u8) -> DCAOrder {
    DCAOrder {
        from_token: params.from_token,
        from_chain_id: params.from_chain_id,
        amount_in: params.amount_in,
        amount_out_min: params.amount_out_min,
        amount_out_max: params.amount_out_max,
        to_chain_id: params.to_chain_id,
        to_token: params.to_token,
        sender: sender,
        recipient: params.recipient,
        execute_count: params.execute_count,
        remaining_execute_count: params.execute_count,
        time_interval: params.time_interval,
        remaining_amount: params.amount_in,
        time_stamp: params.time_stamp,
        bump: bump,
    }
}

} // verus!
