//! The laws of the order lifecycle, stated and proved over the operations'
//! result specifications. Every operation is a total function whose failures
//! carry no outcome, so a rejected operation commits no record and moves no
//! funds by construction; the laws here pin down what the successful
//! operations commit.

use vstd::prelude::*;

use crate::cancel_order::cancel_order_sol_spec;
use crate::cancel_order::cancel_order_spl_spec;
use crate::errors::CustomError;
use crate::execute_order::completes;
use crate::execute_order::execute_order_sol_spec;
use crate::execute_order::execute_order_spl_spec;
use crate::execute_order::fee_amount_spec;
use crate::execute_order::lemma_fee_bounds;
use crate::execute_order::send_amount_spec;
use crate::open_order::open_order_sol_spec;
use crate::open_order::open_order_spl_spec;
use crate::state::is_native;
use crate::state::params_valid_common;
use crate::state::DCAOrder;
use crate::state::GlobalConfig;
use crate::state::OpenOrderParams;
use crate::state::FEE_DENOMINATOR;

verus! {

/// Every valid open leaves the order with its whole schedule ahead of it:
/// the remaining balance equals the deposit, the remaining release count
/// equals the planned count, and the custody holds exactly the deposit.
pub proof fn lemma_open_establishes_schedule(
    config: GlobalConfig,
    user: [u8; 32],
    user_lamports: u64,
    token_mint: [u8; 32],
    user_token_mint: [u8; 32],
    now: i64,
    order_address: [u8; 32],
    bump: u8,
    params: OpenOrderParams,
)
    ensures
        open_order_sol_spec(config, user, user_lamports, order_address, bump, params) matches Ok(
            out,
        ) ==> {
            &&& out.order.remaining_amount == params.amount_in
            &&& out.order.remaining_execute_count == params.execute_count
            &&& out.custody_lamports == params.amount_in
            &&& out.order.wf()
        },
        open_order_spl_spec(
            config,
            user,
            token_mint,
            user_token_mint,
            now,
            order_address,
            bump,
            params,
        ) matches Ok(out) ==> {
            &&& out.order.remaining_amount == params.amount_in
            &&& out.order.remaining_execute_count == params.execute_count
            &&& out.custody_tokens == params.amount_in
            &&& out.order.wf()
        },
{
}

/// Across any sequence of executes on one order the remaining balance is
/// non-increasing — strictly decreasing on the native path, whose release
/// amount is always positive — and the order is reclaimed exactly when the
/// release equals the remaining balance or the remaining balance is the
/// dust value 1.
pub proof fn lemma_execute_remaining_monotone(
    config: GlobalConfig,
    order: DCAOrder,
    custody_lamports: u64,
    executor: [u8; 32],
    refund_receiver: [u8; 32],
    order_address: [u8; 32],
    execute_amount: u64,
    native_token_volume: u64,
)
    requires
        config.wf(),
        order.wf(),
        order.remaining_execute_count >= 1,
    ensures
        execute_order_sol_spec(
            config,
            order,
            custody_lamports,
            executor,
            refund_receiver,
            order_address,
            execute_amount,
            native_token_volume,
        ) matches Ok(out) ==> {
            &&& (out.order_after is None <==> completes(order, execute_amount))
            &&& out.order_after matches Some(next) ==> next.wf()
                && next.remaining_amount < order.remaining_amount
        },
        execute_order_spl_spec(
            config,
            order,
            executor,
            refund_receiver,
            order_address,
            execute_amount,
            native_token_volume,
        ) matches Ok(out) ==> {
            &&& (out.order_after is None <==> completes(order, execute_amount))
            &&& out.order_after matches Some(next) ==> next.wf()
                && next.remaining_amount <= order.remaining_amount
        },
{
    lemma_fee_bounds(execute_amount, config.platform_fee);
}

/// The state a native order and its custody reach after a sequence of
/// requested releases, applied in order: a rejected request changes
/// nothing, a completing release reclaims the order (`None`), and any
/// other release leaves the decremented order and custody in place.
pub open spec fn executes_chain_sol(
    config: GlobalConfig,
    order: DCAOrder,
    custody_lamports: u64,
    executor: [u8; 32],
    refund_receiver: [u8; 32],
    order_address: [u8; 32],
    amounts: Seq<u64>,
    native_token_volume: u64,
) -> Option<(DCAOrder, u64)>
    decreases amounts.len(),
{
    if amounts.len() == 0 {
        Some((order, custody_lamports))
    } else {
        match execute_order_sol_spec(
            config,
            order,
            custody_lamports,
            executor,
            refund_receiver,
            order_address,
            amounts[0],
            native_token_volume,
        ) {
            Ok(out) => match out.order_after {
                Some(next) => executes_chain_sol(
                    config,
                    next,
                    out.custody_after,
                    executor,
                    refund_receiver,
                    order_address,
                    amounts.subrange(1, amounts.len() as int),
                    native_token_volume,
                ),
                None => None,
            },
            Err(_) => executes_chain_sol(
                config,
                order,
                custody_lamports,
                executor,
                refund_receiver,
                order_address,
                amounts.subrange(1, amounts.len() as int),
                native_token_volume,
            ),
        }
    }
}

/// Across every sequence of releases on one native order, the remaining
/// balance never increases and never leaves the range `[1, amount_in]`
/// while the order survives, and the custody always covers it.
pub proof fn lemma_executes_chain_sol_monotone(
    config: GlobalConfig,
    order: DCAOrder,
    custody_lamports: u64,
    executor: [u8; 32],
    refund_receiver: [u8; 32],
    order_address: [u8; 32],
    amounts: Seq<u64>,
    native_token_volume: u64,
)
    requires
        config.wf(),
        1 <= order.remaining_amount <= order.amount_in,
        custody_lamports >= order.remaining_amount,
    ensures
        executes_chain_sol(
            config,
            order,
            custody_lamports,
            executor,
            refund_receiver,
            order_address,
            amounts,
            native_token_volume,
        ) matches Some((last, custody_after)) ==> {
            &&& 1 <= last.remaining_amount <= order.remaining_amount
            &&& last.amount_in == order.amount_in
            &&& custody_after >= last.remaining_amount
        },
    decreases amounts.len(),
{
    if amounts.len() != 0 {
        let r = execute_order_sol_spec(
            config,
            order,
            custody_lamports,
            executor,
            refund_receiver,
            order_address,
            amounts[0],
            native_token_volume,
        );
        match r {
            Ok(out) => {
                if let Some(next) = out.order_after {
                    lemma_executes_chain_sol_monotone(
                        config,
                        next,
                        out.custody_after,
                        executor,
                        refund_receiver,
                        order_address,
                        amounts.subrange(1, amounts.len() as int),
                        native_token_volume,
                    );
                }
            },
            Err(_) => {
                lemma_executes_chain_sol_monotone(
                    config,
                    order,
                    custody_lamports,
                    executor,
                    refund_receiver,
                    order_address,
                    amounts.subrange(1, amounts.len() as int),
                    native_token_volume,
                );
            },
        }
    }
}

/// Fee conservation: the destination's share and the treasury's share of a
/// release basis add back to the basis exactly, with no rounding residue
/// lost or created, and the fee never exceeds the basis.
pub proof fn lemma_fee_conservation(basis: u64, platform_fee: u16)
    requires
        platform_fee < FEE_DENOMINATOR,
    ensures
        fee_amount_spec(basis, platform_fee) + send_amount_spec(basis, platform_fee) == basis,
        0 <= fee_amount_spec(basis, platform_fee) <= basis,
{
    lemma_fee_bounds(basis, platform_fee);
}

/// Fee conservation at each execute: what the destination and the treasury
/// receive adds back exactly to the basis — the requested amount on the
/// native path, the order's full original deposit on the token path.
pub proof fn lemma_execute_fee_conservation(
    config: GlobalConfig,
    order: DCAOrder,
    custody_lamports: u64,
    executor: [u8; 32],
    refund_receiver: [u8; 32],
    order_address: [u8; 32],
    execute_amount: u64,
    native_token_volume: u64,
)
    requires
        config.wf(),
    ensures
        execute_order_sol_spec(
            config,
            order,
            custody_lamports,
            executor,
            refund_receiver,
            order_address,
            execute_amount,
            native_token_volume,
        ) matches Ok(out) ==> out.send_amount + out.fee_amount == execute_amount,
        execute_order_spl_spec(
            config,
            order,
            executor,
            refund_receiver,
            order_address,
            execute_amount,
            native_token_volume,
        ) matches Ok(out) ==> out.send_amount + out.fee_amount == order.amount_in,
{
    lemma_fee_bounds(execute_amount, config.platform_fee);
    lemma_fee_bounds(order.amount_in, config.platform_fee);
}

/// Cancellation is fee-free and full: whatever the fee rate, a successful
/// cancel refunds exactly the remaining balance at the time of cancellation.
pub proof fn lemma_cancel_full_refund(
    config: GlobalConfig,
    order: DCAOrder,
    custody_lamports: u64,
    user: [u8; 32],
    refund_receiver: [u8; 32],
    order_address: [u8; 32],
)
    ensures
        cancel_order_sol_spec(
            config,
            order,
            custody_lamports,
            user,
            refund_receiver,
            order_address,
        ) matches Ok(out) ==> out.refund_amount == order.remaining_amount,
        cancel_order_spl_spec(config, order, user, refund_receiver, order_address) matches Ok(out)
            ==> out.refund_amount == order.remaining_amount,
{
}

/// The pause gate: with the pause flag set, open, execute and cancel all
/// fail — execute and cancel with the pause error outright, open with the
/// pause error whenever its parameters are otherwise acceptable — and a
/// failed operation commits no record and moves no funds.
pub proof fn lemma_pause_gate(
    config: GlobalConfig,
    order: DCAOrder,
    custody_lamports: u64,
    user: [u8; 32],
    user_lamports: u64,
    token_mint: [u8; 32],
    user_token_mint: [u8; 32],
    now: i64,
    order_address: [u8; 32],
    bump: u8,
    params: OpenOrderParams,
    refund_receiver: [u8; 32],
    execute_amount: u64,
    native_token_volume: u64,
)
    requires
        config.paused,
    ensures
        open_order_sol_spec(config, user, user_lamports, order_address, bump, params) is Err,
        open_order_spl_spec(
            config,
            user,
            token_mint,
            user_token_mint,
            now,
            order_address,
            bump,
            params,
        ) is Err,
        is_native(params.from_token) && params_valid_common(params) ==> open_order_sol_spec(
            config,
            user,
            user_lamports,
            order_address,
            bump,
            params,
        ) == Err::<crate::open_order::OpenSolOutcome, CustomError>(CustomError::ProgramPaused),
        !is_native(params.from_token) && token_mint@ == params.from_token@ && user_token_mint@
            == params.from_token@ && params_valid_common(params) ==> open_order_spl_spec(
            config,
            user,
            token_mint,
            user_token_mint,
            now,
            order_address,
            bump,
            params,
        ) == Err::<crate::open_order::OpenSplOutcome, CustomError>(CustomError::ProgramPaused),
        execute_order_sol_spec(
            config,
            order,
            custody_lamports,
            user,
            refund_receiver,
            order_address,
            execute_amount,
            native_token_volume,
        ) == Err::<crate::execute_order::ExecuteSolOutcome, CustomError>(
            CustomError::ProgramPaused,
        ),
        execute_order_spl_spec(
            config,
            order,
            user,
            refund_receiver,
            order_address,
            execute_amount,
            native_token_volume,
        ) == Err::<crate::execute_order::ExecuteSplOutcome, CustomError>(
            CustomError::ProgramPaused,
        ),
        cancel_order_sol_spec(
            config,
            order,
            custody_lamports,
            user,
            refund_receiver,
            order_address,
        ) == Err::<crate::cancel_order::CancelSolOutcome, CustomError>(CustomError::ProgramPaused),
        cancel_order_spl_spec(config, order, user, refund_receiver, order_address) == Err::<
            crate::cancel_order::CancelSplOutcome,
            CustomError,
        >(CustomError::ProgramPaused),
{
}

} // verus!
