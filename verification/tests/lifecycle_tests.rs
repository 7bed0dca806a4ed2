//! End-to-end scenarios across open, execute and cancel.

use dca_order::errors::CustomError;
use dca_order::execute_order::execute_order_sol;
use dca_order::open_order::open_order_sol;
use dca_order::state::GlobalConfig;
use dca_order::state::OpenOrderParams;
use dca_order::state::NATIVE_TOKEN;
use dca_order::state::ORIGIN_CHAIN_ID;

fn id(b: u8) -> [u8; 32] {
    [b; 32]
}

fn config() -> GlobalConfig {
    GlobalConfig { owner: id(1), platform_fee: 100, treasury: id(2), paused: false, reserved: [0; 128] }
}

fn params() -> OpenOrderParams {
    OpenOrderParams {
        from_token: NATIVE_TOKEN,
        from_chain_id: ORIGIN_CHAIN_ID,
        amount_in: 1_000_000,
        amount_out_min: id(3),
        amount_out_max: id(3),
        to_chain_id: 7,
        to_token: id(5),
        recipient: id(6),
        execute_count: 2,
        time_interval: 3600,
        time_stamp: 1_700_000_000,
    }
}

#[test]
fn one_percent_fee_two_step_release_to_completion() {
    // Open: 1% fee, native deposit of 1_000_000.
    let opened = open_order_sol(&config(), id(10), 5_000_000, id(11), 254, &params())
        .expect("open must succeed");
    assert_eq!(opened.order.remaining_amount, 1_000_000);
    assert_eq!(opened.order.remaining_execute_count, 2);
    assert_eq!(opened.custody_lamports, 1_000_000);

    // First release of 400_000: 4_000 fee, 396_000 sent, order stays open.
    let first = execute_order_sol(
        &config(),
        &opened.order,
        opened.custody_lamports,
        id(1),
        id(10),
        id(11),
        400_000,
        0,
    )
    .expect("first release must succeed");
    assert_eq!(first.fee_amount, 4_000);
    assert_eq!(first.send_amount, 396_000);
    let order = first.order_after.expect("order must stay open");
    assert_eq!(order.remaining_amount, 600_000);
    assert_eq!(order.remaining_execute_count, 1);
    assert_eq!(first.custody_after, 600_000);

    // Second release of the whole remaining 600_000 closes the order and
    // sweeps nothing extra.
    let second = execute_order_sol(
        &config(),
        &order,
        first.custody_after,
        id(1),
        id(10),
        id(11),
        600_000,
        0,
    )
    .expect("second release must succeed");
    assert_eq!(second.fee_amount, 6_000);
    assert_eq!(second.send_amount, 594_000);
    assert!(second.order_after.is_none());
    assert_eq!(second.swept, 0);
    assert_eq!(second.custody_after, 0);
}

#[test]
fn open_with_zero_execute_count_moves_no_funds() {
    let bad = OpenOrderParams { execute_count: 0, ..params() };
    let user_lamports: u64 = 5_000_000;
    let r = open_order_sol(&config(), id(10), user_lamports, id(11), 254, &bad);
    // The rejection carries no outcome: there is no custody transfer for the
    // ledger to perform, so the would-be payer's balance stays untouched.
    assert_eq!(r, Err(CustomError::InvalidParameter));
}

#[test]
fn remaining_amount_never_increases_across_releases() {
    let three_step = OpenOrderParams { execute_count: 3, ..params() };
    let opened = open_order_sol(&config(), id(10), 5_000_000, id(11), 254, &three_step)
        .expect("open must succeed");
    let mut order = opened.order;
    let mut custody = opened.custody_lamports;
    let mut last_remaining = order.remaining_amount;
    for step in [300_000u64, 200_000, 500_000] {
        let out = execute_order_sol(&config(), &order, custody, id(1), id(10), id(11), step, 0)
            .expect("release must succeed");
        match out.order_after {
            Some(next) => {
                assert!(next.remaining_amount < last_remaining);
                last_remaining = next.remaining_amount;
                order = next;
                custody = out.custody_after;
            }
            None => {
                assert_eq!(out.custody_after, 0);
                return;
            }
        }
    }
}
