//! Opening an order: validate the full parameter set, then atomically create
//! the order record and move exactly `amount_in` units of the declared asset
//! from the caller into the order's custody. Validation happens before any
//! fund movement; a rejected open moves nothing and persists nothing.

use vstd::prelude::*;

use crate::errors::CustomError;
use crate::events::OrderOpened;
use crate::ids::bytes32_eq;
use crate::ids::bytes32_is_zero;
use crate::state::is_native;
use crate::state::new_order_spec;
use crate::state::params_valid_common;
use crate::state::DCAOrder;
use crate::state::GlobalConfig;
use crate::state::OpenOrderParams;
use crate::state::NATIVE_TOKEN;
use crate::state::ORIGIN_CHAIN_ID;

verus! {

/// The token variant's schedule-timestamp rule: the submitted timestamp must
/// be strictly in the future relative to ledger time. The native variant
/// does not apply this rule.
pub open spec fn timestamp_in_future(time_stamp: i64, now: i64) -> bool {
    time_stamp > now
}

/// What a successful native open commits: the fresh order record, the
/// caller's balance after the deposit, the custody balance (exactly the
/// deposit), and the event to publish.
#[derive(Clone, Copy, PartialEq, Eq, Debug)]
pub struct OpenSolOutcome {
    /// The freshly created order record.
    pub order: DCAOrder,
    /// The caller's balance after the deposit left it.
    pub user_lamports_after: u64,
    /// The balance of the order's custody address after funding.
    pub custody_lamports: u64,
    /// The event to publish.
    pub event: OrderOpened,
}

/// What a successful token open commits: the fresh order record, the balance
/// of the newly created order-owned token record (exactly the deposit, moved
/// out of the caller's token record), and the event to publish.
#[derive(Clone, Copy, PartialEq, Eq, Debug)]
pub struct OpenSplOutcome {
    /// The freshly created order record.
    pub order: DCAOrder,
    /// The balance of the order-owned token record after funding.
    pub custody_tokens: u64,
    /// The event to publish.
    pub event: OrderOpened,
}

/// The exact result of a native open.
pub open spec fn open_order_sol_spec(
    config: GlobalConfig,
    user: [u8; 32],
    user_lamports: u64,
    order_address: [u8; 32],
    bump: u8,
    params: OpenOrderParams,
) -> Result<OpenSolOutcome, CustomError> {
    if !(is_native(params.from_token) && params_valid_common(params)) {
        Err(CustomError::InvalidParameter)
    } else if config.paused {
        Err(CustomError::ProgramPaused)
    } else if user_lamports <= params.amount_in {
        Err(CustomError::InsufficientFunds)
    } else {
        Ok(
            OpenSolOutcome {
                order: new_order_spec(user, params, bump),
                user_lamports_after: (user_lamports - params.amount_in) as u64,
                custody_lamports: params.amount_in,
                event: OrderOpened { order_pubkey: order_address },
            },
        )
    }
}

/// The exact result of a token open. `token_mint` is the identity of the
/// supplied mint record, `user_token_mint` the asset identity of the
/// caller's source token record, and `now` the ledger time.
pub open spec fn open_order_spl_spec(
    config: GlobalConfig,
    user: [u8; 32],
    token_mint: [u8; 32],
    user_token_mint: [u8; 32],
    now: i64,
    order_address: [u8; 32],
    bump: u8,
    params: OpenOrderParams,
) -> Result<OpenSplOutcome, CustomError> {
    if !(!is_native(params.from_token) && token_mint@ == params.from_token@
        && user_token_mint@ == params.from_token@ && params_valid_common(params)) {
        Err(CustomError::InvalidParameter)
    } else if config.paused {
        Err(CustomError::ProgramPaused)
    } else if !timestamp_in_future(params.time_stamp, now) {
        Err(CustomError::InvalidParameter)
    } else {
        Ok(
            OpenSplOutcome {
                order: new_order_spec(user, params, bump),
                custody_tokens: params.amount_in,
                event: OrderOpened { order_pubkey: order_address },
            },
        )
    }
}

/// The shared open-time parameter checks, as executable code.
fn check_params_common(params: &OpenOrderParams) -> (r: bool)
    ensures
        r == params_valid_common(*params),
{
    params.from_chain_id == ORIGIN_CHAIN_ID && params.amount_in != 0 && params.to_chain_id != 0
        && !bytes32_is_zero(&params.to_token) && !bytes32_is_zero(&params.recipient)
        && params.execute_count != 0 && params.time_interval != 0 && !bytes32_is_zero(
        &params.amount_out_min,
    ) && !bytes32_is_zero(&params.amount_out_max)
}

/// Open an order on the native custody path. `user` is the authenticated
/// caller, `user_lamports` the caller's spendable balance, `order_address`
/// and `bump` the ledger-derived custody address and its derivation proof.
///
/// On success the outcome holds the fresh order with its full schedule
/// intact and a custody balance of exactly `params.amount_in`, debited from
/// the caller.
pub fn open_order_sol(
    config: &GlobalConfig,
    user: [u8; 32],
    user_lamports: u64,
    order_address: [u8; 32],
    bump: u8,
    params: &OpenOrderParams,
) -> (r: Result<OpenSolOutcome, CustomError>)
    ensures
        r == open_order_sol_spec(*config, user, user_lamports, order_address, bump, *params),
        r matches Ok(out) ==> {
            &&& out.order == new_order_spec(user, *params, bump)
            &&& out.order.remaining_amount == params.amount_in
            &&& out.order.remaining_execute_count == params.execute_count
            &&& out.order.wf()
            &&& out.custody_lamports == params.amount_in
            &&& out.user_lamports_after + out.custody_lamports == user_lamports
        },
{
    if !(bytes32_eq(&params.from_token, &NATIVE_TOKEN) && check_params_common(params)) {
        return Err(CustomError::InvalidParameter);
    }
    if config.paused {
        return Err(CustomError::ProgramPaused);
    }
    if !(user_lamports > params.amount_in) {
        return Err(CustomError::InsufficientFunds);
    }
    let order = DCAOrder {
        from_token: params.from_token,
        from_chain_id: params.from_chain_id,
        amount_in: params.amount_in,
        amount_out_min: params.amount_out_min,
        amount_out_max: params.amount_out_max,
        to_chain_id: params.to_chain_id,
        to_token: params.to_token,
        sender: user,
        recipient: params.recipient,
        execute_count: params.execute_count,
        remaining_execute_count: params.execute_count,
        time_interval: params.time_interval,
        remaining_amount: params.amount_in,
        time_stamp: params.time_stamp,
        bump: bump,
    };
    Ok(
        OpenSolOutcome {
            order: order,
            user_lamports_after: user_lamports - params.amount_in,
            custody_lamports: params.amount_in,
            event: OrderOpened { order_pubkey: order_address },
        },
    )
}

/// Open an order on the token custody path. `token_mint` is the identity of
/// the supplied mint record and `user_token_mint` the asset identity of the
/// caller's source token record; both must equal the declared asset. `now`
/// is the ledger time, against which the schedule timestamp must lie
/// strictly in the future.
///
/// On success the outcome holds the fresh order with its full schedule
/// intact and an order-owned token record holding exactly
/// `params.amount_in`, moved out of the caller's token record.
pub fn open_order_spl(
    config: &GlobalConfig,
    user: [u8; 32],
    token_mint: [u8; 32],
    user_token_mint: [u8; 32],
    now: i64,
    order_address: [u8; 32],
    bump: u8,
    params: &OpenOrderParams,
) -> (r: Result<OpenSplOutcome, CustomError>)
    ensures
        r == open_order_spl_spec(
            *config,
            user,
            token_mint,
            user_token_mint,
            now,
            order_address,
            bump,
            *params,
        ),
        r matches Ok(out) ==> {
            &&& out.order == new_order_spec(user, *params, bump)
            &&& out.order.remaining_amount == params.amount_in
            &&& out.order.remaining_execute_count == params.execute_count
            &&& out.order.wf()
            &&& out.custody_tokens == params.amount_in
        },
{
    if !(!bytes32_eq(&params.from_token, &NATIVE_TOKEN) && bytes32_eq(
        &token_mint,
        &params.from_token,
    ) && bytes32_eq(&user_token_mint, &params.from_token) && check_params_common(params)) {
        return Err(CustomError::InvalidParameter);
    }
    if config.paused {
        return Err(CustomError::ProgramPaused);
    }
    if !(params.time_stamp > now) {
        return Err(CustomError::InvalidParameter);
    }
    let order = DCAOrder {
        from_token: params.from_token,
        from_chain_id: params.from_chain_id,
        amount_in: params.amount_in,
        amount_out_min: params.amount_out_min,
        amount_out_max: params.amount_out_max,
        to_chain_id: params.to_chain_id,
        to_token: params.to_token,
        sender: user,
        recipient: params.recipient,
        execute_count: params.execute_count,
        remaining_execute_count: params.execute_count,
        time_interval: params.time_interval,
        remaining_amount: params.amount_in,
        time_stamp: params.time_stamp,
        bump: bump,
    };
    Ok(
        OpenSplOutcome {
            order: order,
            custody_tokens: params.amount_in,
            event: OrderOpened { order_pubkey: order_address },
        },
    )
}

} // verus!
