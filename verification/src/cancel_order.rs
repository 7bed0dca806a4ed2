//! Cancelling an order: the sender (or the owner) unwinds custody. A cancel
//! is fee-free and full — the refund receiver, who must be the order's
//! sender, gets the entire remaining balance exactly, and the order record
//! is reclaimed.

use vstd::prelude::*;

use crate::errors::CustomError;
use crate::events::OrderCancelled;
use crate::ids::bytes32_eq;
use crate::state::is_native;
use crate::state::DCAOrder;
use crate::state::GlobalConfig;
use crate::state::NATIVE_TOKEN;

verus! {

/// What a successful native cancel commits: the refund transfer, the custody
/// balance left with the reclaimed record (which the ledger's record
/// reclamation also hands to the refund receiver), and the event to publish.
#[derive(Clone, Copy, PartialEq, Eq, Debug)]
pub struct CancelSolOutcome {
    /// Credited to the refund receiver: the entire remaining balance.
    pub refund_amount: u64,
    /// The custody balance after the refund left it.
    pub custody_after: u64,
    /// The event to publish.
    pub event: OrderCancelled,
}

/// The exact result of a native cancel. `user` is the authenticated caller.
pub open spec fn cancel_order_sol_spec(
    config: GlobalConfig,
    order: DCAOrder,
    custody_lamports: u64,
    user: [u8; 32],
    refund_receiver: [u8; 32],
    order_address: [u8; 32],
) -> Result<CancelSolOutcome, CustomError> {
    if config.paused {
        Err(CustomError::ProgramPaused)
    } else if !(user@ == order.sender@ || user@ == config.owner@) {
        Err(CustomError::OnlySenderOrOwner)
    } else if refund_receiver@ != order.sender@ {
        Err(CustomError::InvalidRefundReceiver)
    } else if !is_native(order.from_token) {
        Err(CustomError::InvalidParameter)
    } else {
        Ok(
            CancelSolOutcome {
                refund_amount: order.remaining_amount,
                custody_after: (custody_lamports - order.remaining_amount) as u64,
                event: OrderCancelled { order_pubkey: order_address, by: user },
            },
        )
    }
}

/// Cancel an order on the native custody path. On success the refund
/// receiver — necessarily the order's sender — receives exactly the
/// remaining balance, with no fee taken, and the order record is reclaimed.
pub fn cancel_order_sol(
    config: &GlobalConfig,
    order: &DCAOrder,
    custody_lamports: u64,
    user: [u8; 32],
    refund_receiver: [u8; 32],
    order_address: [u8; 32],
) -> (r: Result<CancelSolOutcome, CustomError>)
    requires
        custody_lamports >= order.remaining_amount,
    ensures
        r == cancel_order_sol_spec(
            *config,
            *order,
            custody_lamports,
            user,
            refund_receiver,
            order_address,
        ),
        r matches Ok(out) ==> {
            &&& out.refund_amount == order.remaining_amount
            &&& out.refund_amount + out.custody_after == custody_lamports
            &&& out.event == (OrderCancelled { order_pubkey: order_address, by: user })
        },
{
    if config.paused {
        return Err(CustomError::ProgramPaused);
    }
    if !(bytes32_eq(&user, &order.sender) || bytes32_eq(&user, &config.owner)) {
        return Err(CustomError::OnlySenderOrOwner);
    }
    if !bytes32_eq(&refund_receiver, &order.sender) {
        return Err(CustomError::InvalidRefundReceiver);
    }
    if !bytes32_eq(&order.from_token, &NATIVE_TOKEN) {
        return Err(CustomError::InvalidParameter);
    }
    Ok(
        CancelSolOutcome {
            refund_amount: order.remaining_amount,
            custody_after: custody_lamports - order.remaining_amount,
            event: OrderCancelled { order_pubkey: order_address, by: user },
        },
    )
}

/// What a successful token cancel commits: the refund transfer out of the
/// order-owned token record, which the transfer drains exactly before the
/// record is closed to the refund receiver, and the event to publish.
#[derive(Clone, Copy, PartialEq, Eq, Debug)]
pub struct CancelSplOutcome {
    /// Transferred to the refund receiver's token record: the entire
    /// remaining balance.
    pub refund_amount: u64,
    /// The event to publish.
    pub event: OrderCancelled,
}

/// The exact result of a token cancel. `user` is the authenticated caller.
pub open spec fn cancel_order_spl_spec(
    config: GlobalConfig,
    order: DCAOrder,
    user: [u8; 32],
    refund_receiver: [u8; 32],
    order_address: [u8; 32],
) -> Result<CancelSplOutcome, CustomError> {
    if config.paused {
        Err(CustomError::ProgramPaused)
    } else if !(user@ == order.sender@ || user@ == config.owner@) {
        Err(CustomError::OnlySenderOrOwner)
    } else if refund_receiver@ != order.sender@ {
        Err(CustomError::InvalidRefundReceiver)
    } else if is_native(order.from_token) {
        Err(CustomError::InvalidParameter)
    } else {
        Ok(
            CancelSplOutcome {
                refund_amount: order.remaining_amount,
                event: OrderCancelled { order_pubkey: order_address, by: user },
            },
        )
    }
}

/// Cancel an order on the token custody path. `custody_tokens` is the
/// balance of the order-owned token record, which by the custody model is
/// the remaining balance: the refund drains it exactly, the record is then
/// closed to the refund receiver, and the order record is reclaimed.
pub fn cancel_order_spl(
    config: &GlobalConfig,
    order: &DCAOrder,
    custody_tokens: u64,
    user: [u8; 32],
    refund_receiver: [u8; 32],
    order_address: [u8; 32],
) -> (r: Result<CancelSplOutcome, CustomError>)
    requires
        custody_tokens == order.remaining_amount,
    ensures
        r == cancel_order_spl_spec(*config, *order, user, refund_receiver, order_address),
        r matches Ok(out) ==> {
            &&& out.refund_amount == order.remaining_amount
            &&& out.refund_amount == custody_tokens
            &&& out.event == (OrderCancelled { order_pubkey: order_address, by: user })
        },
{
    if config.paused {
        return Err(CustomError::ProgramPaused);
    }
    if !(bytes32_eq(&user, &order.sender) || bytes32_eq(&user, &config.owner)) {
        return Err(CustomError::OnlySenderOrOwner);
    }
    if !bytes32_eq(&refund_receiver, &order.sender) {
        return Err(CustomError::InvalidRefundReceiver);
    }
    if bytes32_eq(&order.from_token, &NATIVE_TOKEN) {
        return Err(CustomError::InvalidParameter);
    }
    Ok(
        CancelSplOutcome {
            refund_amount: order.remaining_amount,
            event: OrderCancelled { order_pubkey: order_address, by: user },
        },
    )
}

} // verus!
