use dca_order::errors::CustomError;
use dca_order::execute_order::execute_order_sol;
use dca_order::execute_order::execute_order_spl;
use dca_order::state::DCAOrder;
use dca_order::state::GlobalConfig;
use dca_order::state::NATIVE_TOKEN;
use dca_order::state::ORIGIN_CHAIN_ID;

fn id(b: u8) -> [u8; 32] {
    [b; 32]
}

fn config() -> GlobalConfig {
    GlobalConfig { owner: id(1), platform_fee: 100, treasury: id(2), paused: false, reserved: [0; 128] }
}

fn native_order(amount_in: u64, remaining: u64, count: u16, remaining_count: u16) -> DCAOrder {
    DCAOrder {
        from_token: NATIVE_TOKEN,
        from_chain_id: ORIGIN_CHAIN_ID,
        amount_in,
        amount_out_min: id(3),
        amount_out_max: id(3),
        to_chain_id: 7,
        to_token: id(5),
        sender: id(10),
        recipient: id(6),
        execute_count: count,
        remaining_execute_count: remaining_count,
        time_interval: 3600,
        remaining_amount: remaining,
        time_stamp: 1_700_000_000,
        bump: 254,
    }
}

fn token_order(amount_in: u64, remaining: u64, count: u16, remaining_count: u16) -> DCAOrder {
    DCAOrder { from_token: id(40), ..native_order(amount_in, remaining, count, remaining_count) }
}

#[test]
fn execute_sol_partial_release_exact_amounts() {
    let order = native_order(1_000_000, 1_000_000, 4, 4);
    let out = execute_order_sol(&config(), &order, 1_000_000, id(1), id(10), id(11), 400_000, 5)
        .expect("valid execute must succeed");
    assert_eq!(out.fee_amount, 4_000);
    assert_eq!(out.send_amount, 396_000);
    assert_eq!(out.send_amount + out.fee_amount, 400_000);
    assert_eq!(out.custody_after, 600_000);
    assert_eq!(out.swept, 0);
    let next = out.order_after.expect("partial release keeps the order open");
    assert_eq!(next.remaining_amount, 600_000);
    assert_eq!(next.remaining_execute_count, 3);
    assert_eq!(next.amount_in, 1_000_000);
    assert_eq!(out.event.order_pubkey, id(11));
    assert_eq!(out.event.by, id(1));
    assert_eq!(out.event.native_token_volume, 5);
}

#[test]
fn execute_sol_release_of_whole_remaining_closes_and_sweeps_nothing_extra() {
    let order = native_order(1_000_000, 600_000, 4, 3);
    let out = execute_order_sol(&config(), &order, 600_000, id(1), id(10), id(11), 600_000, 0)
        .expect("valid execute must succeed");
    assert_eq!(out.fee_amount, 6_000);
    assert_eq!(out.send_amount, 594_000);
    assert!(out.order_after.is_none());
    assert_eq!(out.custody_after, 0);
    assert_eq!(out.swept, 0);
}

#[test]
fn execute_sol_dust_remaining_closes_order() {
    let order = native_order(1_000_000, 1, 4, 1);
    let out = execute_order_sol(&config(), &order, 10, id(1), id(10), id(11), 1, 0)
        .expect("valid execute must succeed");
    assert!(out.order_after.is_none());
    assert_eq!(out.swept, 9);
    assert_eq!(out.custody_after, 0);
}

#[test]
fn execute_sol_leftover_custody_swept_on_close() {
    let order = native_order(1_000_000, 500, 4, 1);
    let out = execute_order_sol(&config(), &order, 800, id(1), id(10), id(11), 500, 0)
        .expect("valid execute must succeed");
    assert!(out.order_after.is_none());
    assert_eq!(out.swept, 300);
    assert_eq!(out.send_amount + out.fee_amount, 500);
}

#[test]
fn execute_sol_rejects_when_paused() {
    let paused = GlobalConfig { paused: true, ..config() };
    let order = native_order(1_000_000, 1_000_000, 4, 4);
    let r = execute_order_sol(&paused, &order, 1_000_000, id(1), id(10), id(11), 400_000, 0);
    assert_eq!(r, Err(CustomError::ProgramPaused));
}

#[test]
fn execute_sol_rejects_token_order() {
    let order = token_order(1_000_000, 1_000_000, 4, 4);
    let r = execute_order_sol(&config(), &order, 1_000_000, id(1), id(10), id(11), 400_000, 0);
    assert_eq!(r, Err(CustomError::InvalidParameter));
}

#[test]
fn execute_sol_rejects_non_owner_executor() {
    let order = native_order(1_000_000, 1_000_000, 4, 4);
    let r = execute_order_sol(&config(), &order, 1_000_000, id(9), id(10), id(11), 400_000, 0);
    assert_eq!(r, Err(CustomError::OnlyOwnerCanExecute));
}

#[test]
fn execute_sol_rejects_wrong_refund_receiver() {
    let order = native_order(1_000_000, 1_000_000, 4, 4);
    let r = execute_order_sol(&config(), &order, 1_000_000, id(1), id(9), id(11), 400_000, 0);
    assert_eq!(r, Err(CustomError::InvalidRefundReceiver));
}

#[test]
fn execute_sol_rejects_release_exceeding_remaining() {
    let order = native_order(1_000_000, 400_000, 4, 3);
    let r = execute_order_sol(&config(), &order, 500_000, id(1), id(10), id(11), 400_001, 0);
    assert_eq!(r, Err(CustomError::InvalidParameter));
}

#[test]
fn execute_sol_rejects_fee_overflow() {
    let order = native_order(u64::MAX, u64::MAX, 4, 4);
    let r = execute_order_sol(&config(), &order, u64::MAX, id(1), id(10), id(11), u64::MAX, 0);
    assert_eq!(r, Err(CustomError::Overflow));
}

#[test]
fn execute_sol_rejects_zero_send_amount() {
    let order = native_order(1_000_000, 1_000_000, 4, 4);
    let r = execute_order_sol(&config(), &order, 1_000_000, id(1), id(10), id(11), 0, 0);
    assert_eq!(r, Err(CustomError::InsufficientFunds));
}

#[test]
fn execute_sol_zero_fee_rate_sends_everything() {
    let free = GlobalConfig { platform_fee: 0, ..config() };
    let order = native_order(1_000_000, 1_000_000, 4, 4);
    let out = execute_order_sol(&free, &order, 1_000_000, id(1), id(10), id(11), 250_000, 0)
        .expect("valid execute must succeed");
    assert_eq!(out.fee_amount, 0);
    assert_eq!(out.send_amount, 250_000);
}

#[test]
fn execute_sol_fee_rounds_down() {
    let order = native_order(1_000_000, 1_000_000, 4, 4);
    // 9999 * 100 / 10000 = 99.99 rounds down to 99.
    let out = execute_order_sol(&config(), &order, 1_000_000, id(1), id(10), id(11), 9_999, 0)
        .expect("valid execute must succeed");
    assert_eq!(out.fee_amount, 99);
    assert_eq!(out.send_amount, 9_900);
    assert_eq!(out.send_amount + out.fee_amount, 9_999);
}

#[test]
fn execute_spl_fee_basis_is_full_deposit() {
    let order = token_order(1_000_000, 1_000_000, 4, 4);
    let out = execute_order_spl(&config(), &order, 1_000_000, id(1), id(10), id(11), 400_000, 0)
        .expect("valid execute must succeed");
    // The token path charges the fee on the original deposit, not on the
    // requested release amount.
    assert_eq!(out.fee_amount, 10_000);
    assert_eq!(out.send_amount, 990_000);
    assert_eq!(out.send_amount + out.fee_amount, 1_000_000);
    let next = out.order_after.expect("partial release keeps the order open");
    assert_eq!(next.remaining_amount, 600_000);
    assert_eq!(next.remaining_execute_count, 3);
}

#[test]
fn execute_spl_release_of_whole_remaining_closes_order() {
    let order = token_order(1_000_000, 1_000_000, 1, 1);
    let out = execute_order_spl(&config(), &order, 1_000_000, id(1), id(10), id(11), 1_000_000, 0)
        .expect("valid execute must succeed");
    assert!(out.order_after.is_none());
}

#[test]
fn execute_spl_dust_remaining_closes_order_even_for_zero_release() {
    let order = token_order(1_000_000, 1, 4, 1);
    let out = execute_order_spl(&config(), &order, 1_000_000, id(1), id(10), id(11), 0, 0)
        .expect("valid execute must succeed");
    assert!(out.order_after.is_none());
    assert_eq!(out.send_amount + out.fee_amount, 1_000_000);
}

#[test]
fn execute_spl_rejects_native_order() {
    let order = native_order(1_000_000, 1_000_000, 4, 4);
    let r = execute_order_spl(&config(), &order, 1_000_000, id(1), id(10), id(11), 400_000, 0);
    assert_eq!(r, Err(CustomError::InvalidParameter));
}

#[test]
fn execute_spl_rejects_when_paused() {
    let paused = GlobalConfig { paused: true, ..config() };
    let order = token_order(1_000_000, 1_000_000, 4, 4);
    let r = execute_order_spl(&paused, &order, 1_000_000, id(1), id(10), id(11), 400_000, 0);
    assert_eq!(r, Err(CustomError::ProgramPaused));
}

#[test]
fn execute_spl_rejects_non_owner_and_wrong_receiver() {
    let order = token_order(1_000_000, 1_000_000, 4, 4);
    let r = execute_order_spl(&config(), &order, 1_000_000, id(9), id(10), id(11), 400_000, 0);
    assert_eq!(r, Err(CustomError::OnlyOwnerCanExecute));
    let r = execute_order_spl(&config(), &order, 1_000_000, id(1), id(9), id(11), 400_000, 0);
    assert_eq!(r, Err(CustomError::InvalidRefundReceiver));
}

#[test]
fn execute_spl_rejects_release_exceeding_remaining() {
    let order = token_order(1_000_000, 400_000, 4, 3);
    let r = execute_order_spl(&config(), &order, 1_000_000, id(1), id(10), id(11), 400_001, 0);
    assert_eq!(r, Err(CustomError::InvalidParameter));
}

#[test]
fn execute_spl_rejects_fee_overflow() {
    let order = token_order(u64::MAX, u64::MAX, 4, 4);
    let r = execute_order_spl(&config(), &order, u64::MAX, id(1), id(10), id(11), 1, 0);
    assert_eq!(r, Err(CustomError::Overflow));
}
