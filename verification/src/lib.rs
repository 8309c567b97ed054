//! Liquidity monitoring for lending markets: the decisions of the monitor,
//! with every input/output step left to the caller.
//!
//! The library never talks to a ledger or a webhook itself. Each operation is
//! a small state machine that names the next ledger call to make and consumes
//! its reply, so that the arithmetic, the ordering of calls and the failure
//! policy are all checked by Verus.

pub mod address;
pub mod balance;
pub mod decimal;
pub mod error;
pub mod format;
pub mod ledger;
pub mod monitor;
pub mod snapshot;
pub mod transaction;
pub mod uint;
