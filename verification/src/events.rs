//! The events each successful operation emits, carried in the operation's
//! outcome so the hosting ledger can publish them.

use vstd::prelude::*;

verus! {

/// Emitted once when the configuration singleton is created.
#[derive(Clone, Copy, PartialEq, Eq, Debug)]
pub struct Initialized {
    pub owner: [u8; 32],
    pub platform_fee: u16,
    pub treasury: [u8; 32],
    pub paused: bool,
}

/// Emitted on every configuration update.
#[derive(Clone, Copy, PartialEq, Eq, Debug)]
pub struct ConfigUpdated {
    pub owner: [u8; 32],
    pub platform_fee: u16,
    pub treasury: [u8; 32],
    pub paused: bool,
}

/// Emitted when an order is opened.
#[derive(Clone, Copy, PartialEq, Eq, Debug)]
pub struct OrderOpened {
    pub order_pubkey: [u8; 32],
}

/// Emitted when an order is cancelled.
#[derive(Clone, Copy, PartialEq, Eq, Debug)]
pub struct OrderCancelled {
    pub order_pubkey: [u8; 32],
    pub by: [u8; 32],
}

/// Emitted on every release, with the caller-supplied volume metric.
#[derive(Clone, Copy, PartialEq, Eq, Debug)]
pub struct OrderExecuted {
    pub order_pubkey: [u8; 32],
    pub by: [u8; 32],
    pub native_token_volume: u64,
}

} // verus!
