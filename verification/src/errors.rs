//! The error taxonomy: every violated precondition is a hard rejection with
//! a distinct, assertable reason code, and no operation changes any state
//! when it fails.

use vstd::prelude::*;

verus! {

/// The distinguishable failure reasons of every operation.
#[derive(Clone, Copy, Debug, PartialEq, Eq, Structural)]
pub enum CustomError {
    /// The program is currently paused.
    ProgramPaused,
    /// Platform fee must be below the basis-point denominator.
    InvalidPlatformFee,
    /// A required parameter is zero, empty or mismatched, or a request
    /// exceeds the remaining balance.
    InvalidParameter,
    /// The schedule timestamp must be in the future.
    ExpiryEarlier,
    /// Fee arithmetic overflowed.
    Overflow,
    /// The caller's balance cannot cover the deposit, or the computed send
    /// amount is zero.
    InsufficientFunds,
    /// Only the order's sender or the owner may cancel.
    OnlySenderOrOwner,
    /// The refund receiver must be the order's sender.
    InvalidRefundReceiver,
    /// Only the owner may execute.
    OnlyOwnerCanExecute,
    /// The amount must be more than zero.
    NeedsMoreThanZero,
    /// The caller is not the configured owner.
    Unauthorized,
}

} // verus!
