//! A recurring-order escrow and execution engine for a shared ledger: a user
//! deposits funds once under a derived custody address, declares a schedule
//! of partial releases, and a designated executor later triggers partial or
//! full releases, paying a protocol fee on each release.
//!
//! This crate holds the verified order lifecycle state machine and custody
//! model. Each operation is a total function from the relevant records,
//! identities and balances to either a distinct rejection or an outcome that
//! spells out the new records and every fund movement the hosting ledger
//! must perform. The ledger's account plumbing — address derivation, rent,
//! the actual transfer and close primitives — stays outside, performs
//! exactly the movements an outcome dictates, and commits or discards each
//! operation atomically.

pub mod admin;
pub mod cancel_order;
pub mod errors;
pub mod events;
pub mod execute_order;
pub mod ids;
pub mod laws;
pub mod open_order;
pub mod state;
