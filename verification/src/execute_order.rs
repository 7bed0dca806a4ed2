//! Executing a release: the owner-gated partial or full release of an
//! order's custody. The fee is taken in basis points of the release basis —
//! the requested amount on the native path, the order's full original
//! deposit on the token path (a deliberate asymmetry) — and the
//! remainder goes to the destination receiver. An execute that meets the
//! completion rule reclaims the order record and sweeps leftover custody to
//! the refund receiver.

use vstd::prelude::*;

use crate::errors::CustomError;
use crate::events::OrderExecuted;
use crate::ids::bytes32_eq;
use crate::state::is_native;
use crate::state::DCAOrder;
use crate::state::GlobalConfig;
use crate::state::FEE_DENOMINATOR;
use crate::state::NATIVE_TOKEN;

verus! {

/// The fee on a release basis: `floor(basis * platform_fee / 10000)`.
pub open spec fn fee_amount_spec(basis: u64, platform_fee: u16) -> int {
    (basis * platform_fee) / (FEE_DENOMINATOR as int)
}

/// What the destination receives from a release basis: the basis less the
/// fee, with no rounding residue lost or created.
pub open spec fn send_amount_spec(basis: u64, platform_fee: u16) -> int {
    basis - fee_amount_spec(basis, platform_fee)
}

/// Whether the fee multiplication overflows the 64-bit arithmetic.
pub open spec fn fee_mul_overflows(basis: u64, platform_fee: u16) -> bool {
    basis * platform_fee > u64::MAX
}

/// For a valid basis-point rate the fee never exceeds the basis, and for a
/// positive basis it is a strictly proper part of it.
pub proof fn lemma_fee_bounds(basis: u64, platform_fee: u16)
    requires
        platform_fee < FEE_DENOMINATOR,
    ensures
        0 <= fee_amount_spec(basis, platform_fee) <= basis,
        basis >= 1 ==> fee_amount_spec(basis, platform_fee) < basis,
        send_amount_spec(basis, platform_fee) == 0 <==> basis == 0,
{
    assert(0 <= (basis * platform_fee) / (FEE_DENOMINATOR as int) <= basis && (basis >= 1
        ==> (basis * platform_fee) / (FEE_DENOMINATOR as int) < basis)) by (nonlinear_arith)
        requires
            platform_fee < FEE_DENOMINATOR,
            FEE_DENOMINATOR == 10000,
            basis >= 0,
    ;
}

/// The completion rule: an execute reclaims the order when the request
/// consumes the whole remaining balance, or when the remaining balance is
/// the dust value 1.
pub open spec fn completes(order: DCAOrder, execute_amount: u64) -> bool {
    order.remaining_amount == execute_amount || order.remaining_amount == 1
}

/// The order record after a release that does not complete the order: the
/// remaining balance drops by the released amount and one more release is
/// used up.
pub open spec fn order_after_partial_spec(order: DCAOrder, execute_amount: u64) -> DCAOrder {
    DCAOrder {
        remaining_amount: (order.remaining_amount - execute_amount) as u64,
        remaining_execute_count: (order.remaining_execute_count - 1) as u16,
        ..order
    }
}

/// What a successful native execute commits: the two credits, the custody
/// balance after the debit, what a completing execute sweeps to the refund
/// receiver, the surviving order record if any, and the event to publish.
#[derive(Clone, Copy, PartialEq, Eq, Debug)]
pub struct ExecuteSolOutcome {
    /// Credited to the destination receiver.
    pub send_amount: u64,
    /// Credited to the treasury.
    pub fee_amount: u64,
    /// The custody balance after the operation; zero when the order record
    /// was reclaimed.
    pub custody_after: u64,
    /// Leftover custody swept to the refund receiver by a completing
    /// execute; zero otherwise.
    pub swept: u64,
    /// The surviving order record; `None` when the order was reclaimed.
    pub order_after: Option<DCAOrder>,
    /// The event to publish.
    pub event: OrderExecuted,
}

/// The exact result of a native execute, over the configuration, the order,
/// its custody balance and the caller-supplied arguments.
pub open spec fn execute_order_sol_spec(
    config: GlobalConfig,
    order: DCAOrder,
    custody_lamports: u64,
    executor: [u8; 32],
    refund_receiver: [u8; 32],
    order_address: [u8; 32],
    execute_amount: u64,
    native_token_volume: u64,
) -> Result<ExecuteSolOutcome, CustomError> {
    if config.paused {
        Err(CustomError::ProgramPaused)
    } else if !is_native(order.from_token) {
        Err(CustomError::InvalidParameter)
    } else if executor@ != config.owner@ {
        Err(CustomError::OnlyOwnerCanExecute)
    } else if refund_receiver@ != order.sender@ {
        Err(CustomError::InvalidRefundReceiver)
    } else if order.remaining_amount < execute_amount {
        Err(CustomError::InvalidParameter)
    } else if fee_mul_overflows(execute_amount, config.platform_fee) {
        Err(CustomError::Overflow)
    } else if send_amount_spec(execute_amount, config.platform_fee) == 0 {
        Err(CustomError::InsufficientFunds)
    } else {
        let fee = fee_amount_spec(execute_amount, config.platform_fee) as u64;
        let send = send_amount_spec(execute_amount, config.platform_fee) as u64;
        let leftover = (custody_lamports - execute_amount) as u64;
        Ok(
            ExecuteSolOutcome {
                send_amount: send,
                fee_amount: fee,
                custody_after: if completes(order, execute_amount) {
                    0u64
                } else {
                    leftover
                },
                swept: if completes(order, execute_amount) {
                    leftover
                } else {
                    0u64
                },
                order_after: if completes(order, execute_amount) {
                    None
                } else {
                    Some(order_after_partial_spec(order, execute_amount))
                },
                event: OrderExecuted {
                    order_pubkey: order_address,
                    by: executor,
                    native_token_volume: native_token_volume,
                },
            },
        )
    }
}

/// Execute a release on the native custody path. `custody_lamports` is the
/// balance of the order's custody address, which by the custody model
/// covers the remaining amount; `executor` is the authenticated caller.
///
/// A completing execute (the request equals the remaining balance, or the
/// remaining balance is the dust value 1) reclaims the order record and
/// sweeps leftover custody to the refund receiver; any other release leaves
/// the order open with its balance and counter decremented.
pub fn execute_order_sol(
    config: &GlobalConfig,
    order: &DCAOrder,
    custody_lamports: u64,
    executor: [u8; 32],
    refund_receiver: [u8; 32],
    order_address: [u8; 32],
    execute_amount: u64,
    native_token_volume: u64,
) -> (r: Result<ExecuteSolOutcome, CustomError>)
    requires
        config.wf(),
        order.wf(),
        order.remaining_execute_count >= 1,
        custody_lamports >= order.remaining_amount,
    ensures
        r == execute_order_sol_spec(
            *config,
            *order,
            custody_lamports,
            executor,
            refund_receiver,
            order_address,
            execute_amount,
            native_token_volume,
        ),
        r matches Ok(out) ==> {
            &&& out.send_amount + out.fee_amount == execute_amount
            &&& out.fee_amount == fee_amount_spec(execute_amount, config.platform_fee)
            &&& custody_lamports == out.send_amount + out.fee_amount + out.custody_after
                + out.swept
            &&& (out.order_after is None <==> completes(*order, execute_amount))
            &&& out.order_after matches Some(next) ==> {
                &&& next.wf()
                &&& next.remaining_amount == order.remaining_amount - execute_amount
                &&& next.remaining_execute_count == order.remaining_execute_count - 1
                &&& next.amount_in == order.amount_in
                &&& next.execute_count == order.execute_count
                &&& next.sender == order.sender
                &&& next.from_token == order.from_token
            }
        },
{
    if config.paused {
        return Err(CustomError::ProgramPaused);
    }
    if !bytes32_eq(&order.from_token, &NATIVE_TOKEN) {
        return Err(CustomError::InvalidParameter);
    }
    if !bytes32_eq(&executor, &config.owner) {
        return Err(CustomError::OnlyOwnerCanExecute);
    }
    if !bytes32_eq(&refund_receiver, &order.sender) {
        return Err(CustomError::InvalidRefundReceiver);
    }
    if order.remaining_amount < execute_amount {
        return Err(CustomError::InvalidParameter);
    }
    let product = match execute_amount.checked_mul(config.platform_fee as u64) {
        Some(p) => p,
        None => {
            return Err(CustomError::Overflow);
        },
    };
    let fee_amount = product / 10000;
    proof {
        lemma_fee_bounds(execute_amount, config.platform_fee);
    }
    let send_amount = execute_amount - fee_amount;
    if send_amount == 0 {
        return Err(CustomError::InsufficientFunds);
    }
    let leftover = custody_lamports - execute_amount;
    if order.remaining_amount == execute_amount || order.remaining_amount == 1 {
        Ok(
            ExecuteSolOutcome {
                send_amount: send_amount,
                fee_amount: fee_amount,
                custody_after: 0,
                swept: leftover,
                order_after: None,
                event: OrderExecuted {
                    order_pubkey: order_address,
                    by: executor,
                    native_token_volume: native_token_volume,
                },
            },
        )
    } else {
        let next = DCAOrder {
            remaining_amount: order.remaining_amount - execute_amount,
            remaining_execute_count: order.remaining_execute_count - 1,
            ..*order
        };
        Ok(
            ExecuteSolOutcome {
                send_amount: send_amount,
                fee_amount: fee_amount,
                custody_after: leftover,
                swept: 0,
                order_after: Some(next),
                event: OrderExecuted {
                    order_pubkey: order_address,
                    by: executor,
                    native_token_volume: native_token_volume,
                },
            },
        )
    }
}

/// What a successful token execute commits: the two transfers out of the
/// order-owned token record, the surviving order record if any, and the
/// event to publish. The order-owned token record is closed unconditionally,
/// its residual carrying value going to the refund receiver.
#[derive(Clone, Copy, PartialEq, Eq, Debug)]
pub struct ExecuteSplOutcome {
    /// Transferred to the destination token record.
    pub send_amount: u64,
    /// Transferred to the treasury-owned token record.
    pub fee_amount: u64,
    /// The surviving order record; `None` when the order was reclaimed.
    pub order_after: Option<DCAOrder>,
    /// The event to publish.
    pub event: OrderExecuted,
}

/// The exact result of a token execute. The fee basis is the order's full
/// original deposit, not the requested amount — a deliberate asymmetry with
/// the native path.
pub open spec fn execute_order_spl_spec(
    config: GlobalConfig,
    order: DCAOrder,
    executor: [u8; 32],
    refund_receiver: [u8; 32],
    order_address: [u8; 32],
    execute_amount: u64,
    native_token_volume: u64,
) -> Result<ExecuteSplOutcome, CustomError> {
    if config.paused {
        Err(CustomError::ProgramPaused)
    } else if is_native(order.from_token) {
        Err(CustomError::InvalidParameter)
    } else if executor@ != config.owner@ {
        Err(CustomError::OnlyOwnerCanExecute)
    } else if refund_receiver@ != order.sender@ {
        Err(CustomError::InvalidRefundReceiver)
    } else if order.remaining_amount < execute_amount {
        Err(CustomError::InvalidParameter)
    } else if fee_mul_overflows(order.amount_in, config.platform_fee) {
        Err(CustomError::Overflow)
    } else if send_amount_spec(order.amount_in, config.platform_fee) == 0 {
        Err(CustomError::InsufficientFunds)
    } else {
        Ok(
            ExecuteSplOutcome {
                send_amount: send_amount_spec(order.amount_in, config.platform_fee) as u64,
                fee_amount: fee_amount_spec(order.amount_in, config.platform_fee) as u64,
                order_after: if completes(order, execute_amount) {
                    None
                } else {
                    Some(order_after_partial_spec(order, execute_amount))
                },
                event: OrderExecuted {
                    order_pubkey: order_address,
                    by: executor,
                    native_token_volume: native_token_volume,
                },
            },
        )
    }
}

/// Execute a release on the token custody path. `custody_tokens` is the
/// balance of the order-owned token record, which by the custody model is
/// the full original deposit: the two transfers drain it exactly, and the
/// record is then closed unconditionally, its residual carrying value going
/// to the refund receiver.
pub fn execute_order_spl(
    config: &GlobalConfig,
    order: &DCAOrder,
    custody_tokens: u64,
    executor: [u8; 32],
    refund_receiver: [u8; 32],
    order_address: [u8; 32],
    execute_amount: u64,
    native_token_volume: u64,
) -> (r: Result<ExecuteSplOutcome, CustomError>)
    requires
        config.wf(),
        order.wf(),
        order.remaining_execute_count >= 1,
        custody_tokens == order.amount_in,
    ensures
        r == execute_order_spl_spec(
            *config,
            *order,
            executor,
            refund_receiver,
            order_address,
            execute_amount,
            native_token_volume,
        ),
        r matches Ok(out) ==> {
            &&& out.send_amount + out.fee_amount == order.amount_in
            &&& out.send_amount + out.fee_amount == custody_tokens
            &&& out.fee_amount == fee_amount_spec(order.amount_in, config.platform_fee)
            &&& (out.order_after is None <==> completes(*order, execute_amount))
            &&& out.order_after matches Some(next) ==> {
                &&& next.wf()
                &&& next.remaining_amount == order.remaining_amount - execute_amount
                &&& next.remaining_execute_count == order.remaining_execute_count - 1
                &&& next.amount_in == order.amount_in
                &&& next.execute_count == order.execute_count
                &&& next.sender == order.sender
                &&& next.from_token == order.from_token
            }
        },
{
    if config.paused {
        return Err(CustomError::ProgramPaused);
    }
    if bytes32_eq(&order.from_token, &NATIVE_TOKEN) {
        return Err(CustomError::InvalidParameter);
    }
    if !bytes32_eq(&executor, &config.owner) {
        return Err(CustomError::OnlyOwnerCanExecute);
    }
    if !bytes32_eq(&refund_receiver, &order.sender) {
        return Err(CustomError::InvalidRefundReceiver);
    }
    if order.remaining_amount < execute_amount {
        return Err(CustomError::InvalidParameter);
    }
    let product = match order.amount_in.checked_mul(config.platform_fee as u64) {
        Some(p) => p,
        None => {
            return Err(CustomError::Overflow);
        },
    };
    let fee_amount = product / 10000;
    proof {
        lemma_fee_bounds(order.amount_in, config.platform_fee);
    }
    let send_amount = order.amount_in - fee_amount;
    if send_amount == 0 {
        return Err(CustomError::InsufficientFunds);
    }
    let order_after = if order.remaining_amount == execute_amount || order.remaining_amount == 1 {
        None
    } else {
        Some(
            DCAOrder {
                remaining_amount: order.remaining_amount - execute_amount,
                remaining_execute_count: order.remaining_execute_count - 1,
                ..*order
            },
        )
    };
    Ok(
        ExecuteSplOutcome {
            send_amount: send_amount,
            fee_amount: fee_amount,
            order_after: order_after,
            event: OrderExecuted {
                order_pubkey: order_address,
                by: executor,
                native_token_volume: native_token_volume,
            },
        },
    )
}

} // verus!
